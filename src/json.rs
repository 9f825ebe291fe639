//! A JSON document model on which response normalisation is stated and proved.
use vstd::prelude::*;

verus! {

/// A parsed JSON value. Integers that fit an `i64` are held as such; every
/// other number keeps its decimal text.
pub enum JsonValue {
    Null,
    Bool(bool),
    Int(i64),
    Decimal(String),
    Str(String),
    Array(Vec<JsonValue>),
    Object(Vec<(String, JsonValue)>),
}

/// A JSON number as the models keep it.
pub enum Numeric {
    Int(i64),
    Decimal(String),
}

/// Index of the first entry of `fields[0..n]` whose key is `key`.
pub open spec fn first_key_index(fields: Seq<(String, JsonValue)>, key: Seq<char>, n: int) -> Option<int>
    decreases n,
{
    if n <= 0 {
        None
    } else {
        match first_key_index(fields, key, n - 1) {
            Some(i) => Some(i),
            None => if fields[n - 1].0@ == key {
                Some(n - 1)
            } else {
                None
            },
        }
    }
}

/// A match found in a prefix stays the first match in every longer prefix.
pub proof fn lemma_first_key_index_stable(fields: Seq<(String, JsonValue)>, key: Seq<char>, m: int, n: int)
    requires
        m <= n,
        first_key_index(fields, key, m) is Some,
    ensures
        first_key_index(fields, key, n) == first_key_index(fields, key, m),
    decreases n - m,
{
    if m < n {
        lemma_first_key_index_stable(fields, key, m, n - 1);
    }
}

/// The value of member `key` of an object (the first one, if repeated).
pub open spec fn member(v: JsonValue, key: Seq<char>) -> Option<JsonValue> {
    match v {
        JsonValue::Object(fields) => match first_key_index(fields@, key, fields@.len() as int) {
            Some(i) => Some(fields@[i].1),
            None => None,
        },
        _ => None,
    }
}

pub open spec fn text_of(v: Option<JsonValue>) -> Option<Seq<char>> {
    match v {
        Some(JsonValue::Str(s)) => Some(s@),
        _ => None,
    }
}

pub open spec fn int_of(v: Option<JsonValue>) -> Option<i64> {
    match v {
        Some(JsonValue::Int(n)) => Some(n),
        _ => None,
    }
}

pub open spec fn bool_of(v: Option<JsonValue>) -> Option<bool> {
    match v {
        Some(JsonValue::Bool(b)) => Some(b),
        _ => None,
    }
}

pub open spec fn items_of(v: Option<JsonValue>) -> Option<Seq<JsonValue>> {
    match v {
        Some(JsonValue::Array(items)) => Some(items@),
        _ => None,
    }
}

/// Whether `n` is the number that `v` holds.
pub open spec fn numeric_matches(n: Numeric, v: JsonValue) -> bool {
    match (n, v) {
        (Numeric::Int(a), JsonValue::Int(b)) => a == b,
        (Numeric::Decimal(a), JsonValue::Decimal(b)) => a@ == b@,
        _ => false,
    }
}

pub open spec fn is_number(v: Option<JsonValue>) -> bool {
    match v {
        Some(JsonValue::Int(_)) | Some(JsonValue::Decimal(_)) => true,
        _ => false,
    }
}

/// Whether an optional member is absent or `null`.
pub open spec fn is_absent(v: Option<JsonValue>) -> bool {
    v is None || v == Some(JsonValue::Null)
}

/// An optional text member decodes: absent, `null`, or a string.
pub open spec fn opt_text_ok(v: Option<JsonValue>) -> bool {
    is_absent(v) || text_of(v) is Some
}

/// An optional integer member decodes into `i32`.
pub open spec fn opt_i32_ok(v: Option<JsonValue>) -> bool {
    is_absent(v) || (int_of(v) matches Some(n) && i32::MIN <= n <= i32::MAX)
}

pub open spec fn opt_i64_ok(v: Option<JsonValue>) -> bool {
    is_absent(v) || int_of(v) is Some
}

pub open spec fn opt_bool_ok(v: Option<JsonValue>) -> bool {
    is_absent(v) || bool_of(v) is Some
}

pub open spec fn i32_ok(v: Option<JsonValue>) -> bool {
    int_of(v) matches Some(n) && i32::MIN <= n <= i32::MAX
}

/// Whether a decoded optional text matches the member it came from.
pub open spec fn opt_text_matches(r: Option<String>, v: Option<JsonValue>) -> bool {
    match r {
        Some(s) => text_of(v) == Some(s@),
        None => is_absent(v),
    }
}

pub open spec fn opt_view(o: Option<String>) -> Option<Seq<char>> {
    match o {
        Some(s) => Some(s@),
        None => None,
    }
}

/// The text of a member read from the open bag, or `default`.
pub open spec fn text_or(v: Option<JsonValue>, default: Seq<char>) -> Seq<char> {
    match text_of(v) {
        Some(s) => s,
        None => default,
    }
}

/// An integer member read from the open bag that fits `i32`; a value out of
/// that range reads as absent.
pub open spec fn int_as_i32(v: Option<JsonValue>) -> Option<i32> {
    match int_of(v) {
        Some(n) => if i32::MIN <= n <= i32::MAX {
            Some(n as i32)
        } else {
            None
        },
        None => None,
    }
}

/// Whether `r` is the number read from the open bag member `v`.
pub open spec fn numeric_of(r: Option<Numeric>, v: Option<JsonValue>) -> bool {
    match r {
        Some(n) => v matches Some(x) && numeric_matches(n, x),
        None => !is_number(v),
    }
}

pub open spec fn i32_matches(r: i32, v: Option<JsonValue>) -> bool {
    int_of(v) == Some(r as i64)
}

pub open spec fn opt_i32_matches(r: Option<i32>, v: Option<JsonValue>) -> bool {
    match r {
        Some(n) => int_of(v) == Some(n as i64),
        None => is_absent(v),
    }
}

pub open spec fn opt_bool_matches(r: Option<bool>, v: Option<JsonValue>) -> bool {
    match r {
        Some(b) => bool_of(v) == Some(b),
        None => is_absent(v),
    }
}

pub open spec fn opt_i64_matches(r: Option<i64>, v: Option<JsonValue>) -> bool {
    match r {
        Some(n) => int_of(v) == Some(n),
        None => is_absent(v),
    }
}

/// An optional object member decodes: absent, `null`, or an object that
/// `ok` accepts.
pub open spec fn opt_object_ok(v: Option<JsonValue>, ok: spec_fn(JsonValue) -> bool) -> bool {
    is_absent(v) || (v matches Some(x) && x is Object && ok(x))
}

/// An optional number member decodes: absent, `null`, or a number.
pub open spec fn opt_numeric_ok(v: Option<JsonValue>) -> bool {
    is_absent(v) || is_number(v)
}

pub open spec fn opt_numeric_matches(r: Option<Numeric>, v: Option<JsonValue>) -> bool {
    match r {
        Some(n) => v matches Some(x) && numeric_matches(n, x),
        None => is_absent(v),
    }
}

/// Whether a member is an array of strings.
pub open spec fn text_list_decodes(v: Option<JsonValue>) -> bool {
    match v {
        Some(JsonValue::Array(xs)) => forall|i: int|
            0 <= i < xs@.len() ==> text_of(Some(#[trigger] xs@[i])) is Some,
        _ => false,
    }
}

/// Whether `r` holds, in order, the strings of the array member `v`.
pub open spec fn text_list_matches(r: Seq<String>, v: Option<JsonValue>) -> bool {
    match v {
        Some(JsonValue::Array(xs)) => r.len() == xs@.len() && forall|i: int|
            0 <= i < xs@.len() ==> text_of(Some(#[trigger] xs@[i])) == Some(r[i]@),
        _ => false,
    }
}

pub fn decode_text_list(xs: &Vec<JsonValue>) -> (r: Result<Vec<String>, String>)
    ensures
        r is Ok <==> forall|i: int| 0 <= i < xs@.len() ==> text_of(Some(#[trigger] xs@[i])) is Some,
        r matches Ok(ys) ==> ys@.len() == xs@.len() && forall|i: int|
            0 <= i < xs@.len() ==> text_of(Some(#[trigger] xs@[i])) == Some(ys@[i]@),
{
    let mut ys: Vec<String> = Vec::new();
    let mut i: usize = 0;
    while i < xs.len()
        invariant
            i <= xs@.len(),
            ys@.len() == i,
            forall|j: int| 0 <= j < i ==> text_of(Some(#[trigger] xs@[j])) == Some(ys@[j]@),
        decreases xs@.len() - i,
    {
        match &xs[i] {
            JsonValue::Str(s) => ys.push(s.clone()),
            _ => return Err(String::from_str("expected a string")),
        }
        i = i + 1;
    }
    Ok(ys)
}

/// Character-wise equality of two strings.
pub fn text_eq(a: &str, b: &str) -> (r: bool)
    ensures
        r == (a@ == b@),
{
    let n = a.unicode_len();
    if n != b.unicode_len() {
        return false;
    }
    let mut i: usize = 0;
    while i < n
        invariant
            n == a@.len(),
            n == b@.len(),
            i <= n,
            forall|j: int| 0 <= j < i ==> a@[j] == b@[j],
        decreases n - i,
    {
        if a.get_char(i) != b.get_char(i) {
            return false;
        }
        i = i + 1;
    }
    assert(a@ =~= b@);
    true
}

/// Diagnostic for a member that is missing or of the wrong type.
pub fn field_error(key: &str) -> (r: String)
    ensures
        r@ == "field "@ + key@ + ": missing or mistyped"@,
{
    let mut r = String::from_str("field ");
    r.append(key);
    r.append(": missing or mistyped");
    r
}

impl JsonValue {
    /// The member `key` of this value, if it is an object holding one.
    pub fn get(&self, key: &str) -> (r: Option<&JsonValue>)
        ensures
            match r {
                Some(x) => member(*self, key@) == Some(*x),
                None => member(*self, key@) is None,
            },
    {
        match self {
            JsonValue::Object(fields) => {
                let mut i: usize = 0;
                while i < fields.len()
                    invariant
                        *self == JsonValue::Object(*fields),
                        i <= fields@.len(),
                        first_key_index(fields@, key@, i as int) is None,
                    decreases fields@.len() - i,
                {
                    if text_eq(fields[i].0.as_str(), key) {
                        assert(first_key_index(fields@, key@, i + 1) == Some(i as int));
                        proof {
                            lemma_first_key_index_stable(fields@, key@, i + 1, fields@.len() as int);
                        }
                        return Some(&fields[i].1);
                    }
                    i = i + 1;
                }
                None
            },
            _ => None,
        }
    }

    /// A required text member `key`; the error names it.
    pub fn text_member(&self, key: &str) -> (r: Result<String, String>)
        ensures
            r is Ok <==> text_of(member(*self, key@)) is Some,
            r matches Ok(s) ==> text_of(member(*self, key@)) == Some(s@),
    {
        match self.get(key) {
            Some(JsonValue::Str(s)) => Ok(s.clone()),
            _ => Err(field_error(key)),
        }
    }

    /// An optional text member `key`: absent or `null` gives `None`.
    pub fn opt_text_member(&self, key: &str) -> (r: Result<Option<String>, String>)
        ensures
            r is Ok <==> opt_text_ok(member(*self, key@)),
            r matches Ok(o) ==> opt_text_matches(o, member(*self, key@)),
    {
        match self.get(key) {
            None => Ok(None),
            Some(JsonValue::Null) => Ok(None),
            Some(JsonValue::Str(s)) => Ok(Some(s.clone())),
            _ => Err(field_error(key)),
        }
    }

    /// A required integer member `key` that fits `i32`.
    pub fn i32_member(&self, key: &str) -> (r: Result<i32, String>)
        ensures
            r is Ok <==> i32_ok(member(*self, key@)),
            r matches Ok(n) ==> int_of(member(*self, key@)) == Some(n as i64),
    {
        match self.get(key) {
            Some(JsonValue::Int(n)) => if i32::MIN as i64 <= *n && *n <= i32::MAX as i64 {
                Ok(*n as i32)
            } else {
                Err(field_error(key))
            },
            _ => Err(field_error(key)),
        }
    }

    pub fn opt_i32_member(&self, key: &str) -> (r: Result<Option<i32>, String>)
        ensures
            r is Ok <==> opt_i32_ok(member(*self, key@)),
            r matches Ok(Some(n)) ==> int_of(member(*self, key@)) == Some(n as i64),
            r matches Ok(None) ==> is_absent(member(*self, key@)),
    {
        match self.get(key) {
            None => Ok(None),
            Some(JsonValue::Null) => Ok(None),
            Some(JsonValue::Int(n)) => if i32::MIN as i64 <= *n && *n <= i32::MAX as i64 {
                Ok(Some(*n as i32))
            } else {
                Err(field_error(key))
            },
            _ => Err(field_error(key)),
        }
    }

    pub fn i64_member(&self, key: &str) -> (r: Result<i64, String>)
        ensures
            r is Ok <==> int_of(member(*self, key@)) is Some,
            r matches Ok(n) ==> int_of(member(*self, key@)) == Some(n),
    {
        match self.get(key) {
            Some(JsonValue::Int(n)) => Ok(*n),
            _ => Err(field_error(key)),
        }
    }

    pub fn opt_i64_member(&self, key: &str) -> (r: Result<Option<i64>, String>)
        ensures
            r is Ok <==> opt_i64_ok(member(*self, key@)),
            r matches Ok(Some(n)) ==> int_of(member(*self, key@)) == Some(n),
            r matches Ok(None) ==> is_absent(member(*self, key@)),
    {
        match self.get(key) {
            None => Ok(None),
            Some(JsonValue::Null) => Ok(None),
            Some(JsonValue::Int(n)) => Ok(Some(*n)),
            _ => Err(field_error(key)),
        }
    }

    pub fn bool_member(&self, key: &str) -> (r: Result<bool, String>)
        ensures
            r is Ok <==> bool_of(member(*self, key@)) is Some,
            r matches Ok(b) ==> bool_of(member(*self, key@)) == Some(b),
    {
        match self.get(key) {
            Some(JsonValue::Bool(b)) => Ok(*b),
            _ => Err(field_error(key)),
        }
    }

    pub fn opt_bool_member(&self, key: &str) -> (r: Result<Option<bool>, String>)
        ensures
            r is Ok <==> opt_bool_ok(member(*self, key@)),
            r matches Ok(Some(b)) ==> bool_of(member(*self, key@)) == Some(b),
            r matches Ok(None) ==> is_absent(member(*self, key@)),
    {
        match self.get(key) {
            None => Ok(None),
            Some(JsonValue::Null) => Ok(None),
            Some(JsonValue::Bool(b)) => Ok(Some(*b)),
            _ => Err(field_error(key)),
        }
    }

    /// An optional number member `key`.
    pub fn opt_numeric_member(&self, key: &str) -> (r: Result<Option<Numeric>, String>)
        ensures
            r is Ok <==> opt_numeric_ok(member(*self, key@)),
            r matches Ok(o) ==> opt_numeric_matches(o, member(*self, key@)),
    {
        match self.get(key) {
            None => Ok(None),
            Some(JsonValue::Null) => Ok(None),
            Some(v) => match v.as_numeric() {
                Some(n) => Ok(Some(n)),
                None => Err(field_error(key)),
            },
        }
    }

    /// The text of open-bag member `key`, if it is a string.
    pub fn bag_text(&self, key: &str) -> (r: Option<String>)
        ensures
            opt_view(r) == text_of(member(*self, key@)),
    {
        match self.get(key) {
            Some(JsonValue::Str(s)) => Some(s.clone()),
            _ => None,
        }
    }

    /// The text of open-bag member `key`, or `default`.
    pub fn bag_text_or(&self, key: &str, default: &str) -> (r: String)
        ensures
            r@ == text_or(member(*self, key@), default@),
    {
        match self.get(key) {
            Some(JsonValue::Str(s)) => s.clone(),
            _ => String::from_str(default),
        }
    }

    pub fn bag_int(&self, key: &str) -> (r: Option<i64>)
        ensures
            r == int_of(member(*self, key@)),
    {
        match self.get(key) {
            Some(JsonValue::Int(n)) => Some(*n),
            _ => None,
        }
    }

    /// An open-bag integer member that fits `i32`; out of range reads as absent.
    pub fn bag_int_as_i32(&self, key: &str) -> (r: Option<i32>)
        ensures
            r == int_as_i32(member(*self, key@)),
    {
        match self.get(key) {
            Some(JsonValue::Int(n)) => if i32::MIN as i64 <= *n && *n <= i32::MAX as i64 {
                Some(*n as i32)
            } else {
                None
            },
            _ => None,
        }
    }

    pub fn bag_bool(&self, key: &str) -> (r: Option<bool>)
        ensures
            r == bool_of(member(*self, key@)),
    {
        match self.get(key) {
            Some(JsonValue::Bool(b)) => Some(*b),
            _ => None,
        }
    }

    pub fn bag_numeric(&self, key: &str) -> (r: Option<Numeric>)
        ensures
            numeric_of(r, member(*self, key@)),
    {
        match self.get(key) {
            Some(v) => v.as_numeric(),
            None => None,
        }
    }

    /// Takes member `key` out of this value, if it is an object holding one.
    pub fn into_member(self, key: &str) -> (r: Option<JsonValue>)
        ensures
            r == member(self, key@),
    {
        let ghost whole = self;
        match self {
            JsonValue::Object(mut fields) => {
                let ghost orig = fields@;
                let mut i: usize = 0;
                while i < fields.len()
                    invariant
                        fields@ == orig,
                        whole == JsonValue::Object(fields),
                        whole == self,
                        i <= fields@.len(),
                        first_key_index(orig, key@, i as int) is None,
                    decreases fields@.len() - i,
                {
                    if text_eq(fields[i].0.as_str(), key) {
                        assert(first_key_index(orig, key@, i + 1) == Some(i as int));
                        proof {
                            lemma_first_key_index_stable(orig, key@, i + 1, orig.len() as int);
                        }
                        assert(member(whole, key@) == Some(orig[i as int].1));
                        let pair = fields.remove(i);
                        return Some(pair.1);
                    }
                    i = i + 1;
                }
                None
            },
            _ => None,
        }
    }

    pub fn as_text(&self) -> (r: Option<&String>)
        ensures
            match r {
                Some(s) => text_of(Some(*self)) == Some(s@),
                None => text_of(Some(*self)) is None,
            },
    {
        match self {
            JsonValue::Str(s) => Some(s),
            _ => None,
        }
    }

    pub fn as_int(&self) -> (r: Option<i64>)
        ensures
            r == int_of(Some(*self)),
    {
        match self {
            JsonValue::Int(n) => Some(*n),
            _ => None,
        }
    }

    pub fn as_bool(&self) -> (r: Option<bool>)
        ensures
            r == bool_of(Some(*self)),
    {
        match self {
            JsonValue::Bool(b) => Some(*b),
            _ => None,
        }
    }

    pub fn as_numeric(&self) -> (r: Option<Numeric>)
        ensures
            r is Some <==> is_number(Some(*self)),
            r matches Some(n) ==> numeric_matches(n, *self),
    {
        match self {
            JsonValue::Int(n) => Some(Numeric::Int(*n)),
            JsonValue::Decimal(t) => Some(Numeric::Decimal(t.clone())),
            _ => None,
        }
    }
}

} // verus!
