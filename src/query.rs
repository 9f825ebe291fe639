//! Query strings: `name=value` pairs joined by `&`.
use vstd::prelude::*;

verus! {

pub open spec fn pair_view(p: (String, String)) -> (Seq<char>, Seq<char>) {
    (p.0@, p.1@)
}

pub open spec fn pairs_view(ps: Seq<(String, String)>) -> Seq<(Seq<char>, Seq<char>)> {
    ps.map_values(|p: (String, String)| pair_view(p))
}

/// `name=value` pairs joined by `&`, in order; values are taken as given.
pub open spec fn query_text(ps: Seq<(Seq<char>, Seq<char>)>) -> Seq<char>
    decreases ps.len(),
{
    if ps.len() == 0 {
        seq![]
    } else if ps.len() == 1 {
        ps[0].0 + seq!['='] + ps[0].1
    } else {
        query_text(ps.drop_last()) + seq!['&'] + ps.last().0 + seq!['='] + ps.last().1
    }
}

/// Appends the pair `name=value` where `value` is present.
pub open spec fn with_param(
    ps: Seq<(Seq<char>, Seq<char>)>,
    name: Seq<char>,
    value: Option<Seq<char>>,
) -> Seq<(Seq<char>, Seq<char>)> {
    match value {
        Some(v) => ps.push((name, v)),
        None => ps,
    }
}

pub open spec fn opt_str_view(o: Option<&str>) -> Option<Seq<char>> {
    match o {
        Some(s) => Some(s@),
        None => None,
    }
}

/// Joins the pairs into a query string.
pub fn join_query(ps: &Vec<(String, String)>) -> (r: String)
    ensures
        r@ == query_text(pairs_view(ps@)),
{
    let mut r = String::new();
    let mut i: usize = 0;
    while i < ps.len()
        invariant
            i <= ps@.len(),
            r@ == query_text(pairs_view(ps@.subrange(0, i as int))),
        decreases ps@.len() - i,
    {
        let ghost before = pairs_view(ps@.subrange(0, i as int));
        if i > 0 {
            r.append("&");
        }
        r.append(ps[i].0.as_str());
        r.append("=");
        r.append(ps[i].1.as_str());
        proof {
            reveal_strlit("&");
            reveal_strlit("=");
            let after = pairs_view(ps@.subrange(0, i + 1));
            assert(after.drop_last() =~= before);
            assert(after.last() == pair_view(ps@[i as int]));
        }
        i = i + 1;
    }
    assert(ps@.subrange(0, ps@.len() as int) =~= ps@);
    r
}

/// `base` followed by the query string of the pairs.
pub fn path_with_query(base: &str, ps: &Vec<(String, String)>) -> (r: String)
    ensures
        r@ == base@ + query_text(pairs_view(ps@)),
{
    let mut r = String::from_str(base);
    let q = join_query(ps);
    r.append(q.as_str());
    r
}

/// Pushes the pair `name=value` where `value` is present.
pub fn push_param(ps: &mut Vec<(String, String)>, name: &str, value: Option<&str>)
    ensures
        pairs_view(final(ps)@) == with_param(pairs_view(old(ps)@), name@, opt_str_view(value)),
{
    match value {
        Some(v) => {
            ps.push((String::from_str(name), String::from_str(v)));
            assert(pairs_view(final(ps)@) =~= pairs_view(old(ps)@).push((name@, v@)));
        },
        None => {},
    }
}

} // verus!
