//! Canonical messages and request signatures for the two signing schemes:
//! an HMAC scheme (`timestamp + METHOD + path + body`, base64 digest) and an
//! Ed25519 scheme (`METHOD + path + body + timestamp`, tagged hex signature).
use vstd::prelude::*;
use vstd::utf8::encode_utf8;
use crate::headers::{checked_header, fixed_header, is_entry, is_header_value, Header};
use crate::encoding::{
    base64_text, ed25519_signature, encode_base64, encode_hex, hex_text, hmac_sha256,
    hmac_sha256_tag, is_lower_hex_char, lemma_hex_text_digits,
    sign_ed25519, uppercase, uppercased,
};

verus! {

/// The path as signed: it always starts with `/`.
pub open spec fn normalized_path(path: Seq<char>) -> Seq<char> {
    if path.len() > 0 && path[0] == '/' {
        path
    } else {
        seq!['/'] + path
    }
}

/// Canonical message of the Ed25519 scheme.
pub open spec fn asymmetric_message(
    method: Seq<char>,
    path: Seq<char>,
    body: Seq<char>,
    timestamp: Seq<char>,
) -> Seq<char> {
    uppercased(method) + normalized_path(path) + body + timestamp
}

/// Canonical message of the HMAC scheme.
pub open spec fn hmac_message(
    method: Seq<char>,
    path: Seq<char>,
    body: Seq<char>,
    timestamp: Seq<char>,
) -> Seq<char> {
    timestamp + uppercased(method) + normalized_path(path) + body
}

/// Scheme tag that opens every Ed25519 request signature.
pub open spec fn ed25519_tag() -> Seq<char> {
    seq!['d', 'm', 'a', 'r', ' ', 'e', 'd', '2', '5', '5', '1', '9', ' ']
}

/// Whether `s` has the form of an Ed25519 request signature: the scheme tag
/// and then 128 lowercase hex digits (a 64-byte signature), 141 characters.
pub open spec fn is_tagged_hex_signature(s: Seq<char>) -> bool {
    &&& s.len() == 141
    &&& s.subrange(0, 13) == ed25519_tag()
    &&& forall|i: int| 13 <= i < 141 ==> #[trigger] is_lower_hex_char(s[i])
}

/// The `X-Request-Sign` value for a message signed with `seed`.
pub open spec fn ed25519_request_signature(seed: Seq<u8>, message: Seq<char>) -> Seq<char> {
    ed25519_tag() + hex_text(ed25519_signature(seed, encode_utf8(message)))
}

/// The `x-sign` value for a message under an HMAC key.
pub open spec fn hmac_request_signature(key: Seq<u8>, message: Seq<char>) -> Seq<char> {
    base64_text(hmac_sha256(key, encode_utf8(message)))
}

/// Whether two requests differ in exactly one of the four signed fields, as
/// the fields stand after normalisation (method case and a missing leading
/// `/` are not differences).
pub open spec fn differ_in_one_field(
    ma: Seq<char>, pa: Seq<char>, ba: Seq<char>, ta: Seq<char>,
    mb: Seq<char>, pb: Seq<char>, bb: Seq<char>, tb: Seq<char>,
) -> bool {
    let dm = uppercased(ma) != uppercased(mb);
    let dp = normalized_path(pa) != normalized_path(pb);
    let db = ba != bb;
    let dt = ta != tb;
    ||| (dm && !dp && !db && !dt)
    ||| (!dm && dp && !db && !dt)
    ||| (!dm && !dp && db && !dt)
    ||| (!dm && !dp && !db && dt)
}

proof fn lemma_cancel_right(x: Seq<char>, y: Seq<char>, z: Seq<char>)
    requires
        x + z == y + z,
    ensures
        x == y,
{
    assert((x + z).len() == x.len() + z.len());
    assert((y + z).len() == y.len() + z.len());
    assert(x.len() == y.len());
    assert(x =~= (x + z).subrange(0, x.len() as int));
    assert(y =~= (y + z).subrange(0, y.len() as int));
    assert(x =~= y);
}

proof fn lemma_cancel_left(x: Seq<char>, y: Seq<char>, z: Seq<char>)
    requires
        x + y == x + z,
    ensures
        y == z,
{
    assert(y =~= (x + y).subrange(x.len() as int, (x + y).len() as int));
    assert(z =~= (x + z).subrange(x.len() as int, (x + z).len() as int));
}

/// The HMAC signature is a function of the request: requests that agree in
/// every field (up to method case and the leading `/` of the path), under
/// one key, get one signature.
pub proof fn lemma_hmac_signature_deterministic(
    key: Seq<u8>,
    ma: Seq<char>, pa: Seq<char>, ba: Seq<char>, ta: Seq<char>,
    mb: Seq<char>, pb: Seq<char>, bb: Seq<char>, tb: Seq<char>,
)
    requires
        uppercased(ma) == uppercased(mb),
        normalized_path(pa) == normalized_path(pb),
        ba == bb,
        ta == tb,
    ensures
        hmac_request_signature(key, hmac_message(ma, pa, ba, ta)) == hmac_request_signature(
            key,
            hmac_message(mb, pb, bb, tb),
        ),
{
}

/// Changing exactly one field of a request changes the message that the HMAC
/// scheme signs.
pub proof fn lemma_hmac_message_field_sensitive(
    ma: Seq<char>, pa: Seq<char>, ba: Seq<char>, ta: Seq<char>,
    mb: Seq<char>, pb: Seq<char>, bb: Seq<char>, tb: Seq<char>,
)
    requires
        differ_in_one_field(ma, pa, ba, ta, mb, pb, bb, tb),
    ensures
        hmac_message(ma, pa, ba, ta) != hmac_message(mb, pb, bb, tb),
{
    let (ua, ub) = (uppercased(ma), uppercased(mb));
    let (na, nb) = (normalized_path(pa), normalized_path(pb));
    if hmac_message(ma, pa, ba, ta) == hmac_message(mb, pb, bb, tb) {
        if ba == bb {
            lemma_cancel_right(ta + ua + na, tb + ub + nb, ba);
            if na == nb {
                lemma_cancel_right(ta + ua, tb + ub, na);
                if ua == ub {
                    lemma_cancel_right(ta, tb, ua);
                } else {
                    lemma_cancel_left(ta, ua, ub);
                }
            } else {
                lemma_cancel_left(ta + ua, na, nb);
            }
        } else {
            lemma_cancel_left(ta + ua + na, ba, bb);
        }
    }
}

/// Changing exactly one field of a request changes the message that the
/// Ed25519 scheme signs.
pub proof fn lemma_asymmetric_message_field_sensitive(
    ma: Seq<char>, pa: Seq<char>, ba: Seq<char>, ta: Seq<char>,
    mb: Seq<char>, pb: Seq<char>, bb: Seq<char>, tb: Seq<char>,
)
    requires
        differ_in_one_field(ma, pa, ba, ta, mb, pb, bb, tb),
    ensures
        asymmetric_message(ma, pa, ba, ta) != asymmetric_message(mb, pb, bb, tb),
{
    let (ua, ub) = (uppercased(ma), uppercased(mb));
    let (na, nb) = (normalized_path(pa), normalized_path(pb));
    if asymmetric_message(ma, pa, ba, ta) == asymmetric_message(mb, pb, bb, tb) {
        if ta == tb {
            lemma_cancel_right(ua + na + ba, ub + nb + bb, ta);
            if ba == bb {
                lemma_cancel_right(ua + na, ub + nb, ba);
                if na == nb {
                    lemma_cancel_right(ua, ub, na);
                } else {
                    lemma_cancel_left(ua, na, nb);
                }
            } else {
                lemma_cancel_left(ua + na, ba, bb);
            }
        } else {
            lemma_cancel_left(ua + na + ba, ta, tb);
        }
    }
}

/// Prefixes `/` to a path that does not start with one.
pub fn normalize_path(path: &str) -> (r: String)
    ensures
        r@ == normalized_path(path@),
{
    if path.unicode_len() > 0 && path.get_char(0) == '/' {
        String::from_str(path)
    } else {
        let mut r = String::from_str("/");
        proof {
            reveal_strlit("/");
        }
        r.append(path);
        assert(r@ =~= normalized_path(path@));
        r
    }
}

/// The message that the Ed25519 scheme signs: `METHOD + path + body + timestamp`.
pub fn asymmetric_canonical_message(method: &str, path: &str, body: &str, timestamp: &str) -> (r:
    String)
    ensures
        r@ == asymmetric_message(method@, path@, body@, timestamp@),
{
    let mut r = uppercase(method);
    let p = normalize_path(path);
    r.append(p.as_str());
    r.append(body);
    r.append(timestamp);
    r
}

/// The message that the HMAC scheme signs: `timestamp + METHOD + path + body`.
pub fn hmac_canonical_message(method: &str, path: &str, body: &str, timestamp: &str) -> (r: String)
    ensures
        r@ == hmac_message(method@, path@, body@, timestamp@),
{
    let mut r = String::from_str(timestamp);
    let m = uppercase(method);
    let p = normalize_path(path);
    r.append(m.as_str());
    r.append(p.as_str());
    r.append(body);
    assert(r@ =~= hmac_message(method@, path@, body@, timestamp@));
    r
}

/// Signs requests with a shared secret (HMAC-SHA256, base64).
pub struct HmacSigner {
    pub key: Vec<u8>,
}

impl HmacSigner {
    pub fn new(key: Vec<u8>) -> (r: HmacSigner)
        ensures
            r.key@ == key@,
    {
        HmacSigner { key }
    }

    /// The `x-sign` header value of a request.
    pub fn sign(&self, method: &str, path: &str, body: &str, timestamp: &str) -> (r: String)
        ensures
            r@ == hmac_request_signature(self.key@, hmac_message(method@, path@, body@, timestamp@)),
    {
        let message = hmac_canonical_message(method, path, body, timestamp);
        let tag = hmac_sha256_tag(self.key.as_slice(), message.as_str().as_bytes());
        encode_base64(tag.as_slice())
    }
}

/// Whether `h` is the header set of the HMAC scheme.
pub open spec fn hmac_headers(
    h: Seq<Header>,
    api_key: Seq<char>,
    signature: Seq<char>,
    timestamp: Seq<char>,
) -> bool {
    h.len() == 5 && is_entry(h[0], "x-api-key"@, api_key) && is_entry(h[1], "x-sign"@, signature)
        && is_entry(h[2], "x-time"@, timestamp) && is_entry(
        h[3],
        "content-type"@,
        "application/json"@,
    ) && is_entry(h[4], "accept"@, "application/json"@)
}

/// The header set of the HMAC scheme, or the name of the first header whose
/// value is refused.
pub fn hmac_request_headers(api_key: &str, signature: &str, timestamp: &str) -> (r: Result<
    Vec<Header>,
    String,
>)
    ensures
        r is Ok <==> is_header_value(api_key@) && is_header_value(signature@) && is_header_value(
            timestamp@,
        ),
        r matches Ok(h) ==> hmac_headers(h@, api_key@, signature@, timestamp@),
{
    let key = match checked_header("x-api-key", api_key) {
        Some(h) => h,
        None => return Err(String::from_str("x-api-key")),
    };
    let sign = match checked_header("x-sign", signature) {
        Some(h) => h,
        None => return Err(String::from_str("x-sign")),
    };
    let time = match checked_header("x-time", timestamp) {
        Some(h) => h,
        None => return Err(String::from_str("x-time")),
    };
    let mut headers: Vec<Header> = Vec::new();
    headers.push(key);
    headers.push(sign);
    headers.push(time);
    headers.push(fixed_header("content-type", "application/json"));
    headers.push(fixed_header("accept", "application/json"));
    Ok(headers)
}

/// Signs requests with an Ed25519 secret seed.
pub struct Ed25519Signer {
    pub seed: [u8; 32],
}

impl Ed25519Signer {
    /// The `X-Request-Sign` header value of a request.
    pub fn sign(&self, method: &str, path: &str, body: &str, timestamp: &str) -> (r: String)
        ensures
            r@ == ed25519_request_signature(
                self.seed@,
                asymmetric_message(method@, path@, body@, timestamp@),
            ),
            is_tagged_hex_signature(r@),
    {
        let message = asymmetric_canonical_message(method, path, body, timestamp);
        let signature = sign_ed25519(&self.seed, message.as_str().as_bytes());
        let hex = encode_hex(signature.as_slice());
        let mut r = String::from_str("dmar ed25519 ");
        proof {
            reveal_strlit("dmar ed25519 ");
        }
        r.append(hex.as_str());
        proof {
            lemma_hex_text_digits(signature@);
        }
        assert(r@ =~= ed25519_request_signature(
            self.seed@,
            asymmetric_message(method@, path@, body@, timestamp@),
        ));
        proof {
            let h = hex_text(signature@);
            assert(r@ == ed25519_tag() + h);
            assert(r@.subrange(0, 13) =~= ed25519_tag());
            assert forall|i: int| 13 <= i < 141 implies #[trigger] is_lower_hex_char(r@[i]) by {
                assert(r@[i] == h[i - 13]);
            }
        }
        r
    }
}

} // verus!
