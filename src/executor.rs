//! Classification of a response: its status, its body kept as text, and the
//! outcome of decoding that text.
use vstd::prelude::*;
use crate::json::JsonValue;

verus! {

/// A response as the transport received it: status code and body text.
pub struct RawResponse {
    pub status: u16,
    pub body: String,
}

/// Why a response yields no value.
pub enum ResponseError {
    /// A status outside 2xx; the body is kept verbatim.
    Status { status: u16, body: String },
    /// The body did not decode into the expected shape; the decoder's
    /// diagnostic and the body it was given.
    Deserialization { diagnostic: String, raw: String },
}

pub open spec fn is_success(status: u16) -> bool {
    200 <= status < 300
}

/// Whether `r` is the status error for `status` and `body`.
pub open spec fn is_status_error(r: ResponseError, status: u16, body: Seq<char>) -> bool {
    r matches ResponseError::Status { status: s, body: b } && s == status && b@ == body
}

/// Whether `r` is the decode error with diagnostic `d` on text `raw`.
pub open spec fn is_decode_error(r: ResponseError, d: Seq<char>, raw: Seq<char>) -> bool {
    r matches ResponseError::Deserialization { diagnostic, raw: t } && diagnostic@ == d && t@ == raw
}

/// What a response yields: a status error for a non-2xx status, otherwise the
/// decoded document, or a decode error that carries the very text that was
/// decoded.
pub open spec fn response_outcome(
    response: RawResponse,
    decoded: Result<JsonValue, String>,
    r: Result<JsonValue, ResponseError>,
) -> bool {
    if !is_success(response.status) {
        r matches Err(e) && is_status_error(e, response.status, response.body@)
    } else {
        match decoded {
            Ok(v) => r == Ok::<JsonValue, ResponseError>(v),
            Err(d) => r matches Err(e) && is_decode_error(e, d@, response.body@),
        }
    }
}

impl RawResponse {
    /// Classifies the response; `decoded` is what decoding `self.body` gave.
    pub fn document(&self, decoded: Result<JsonValue, String>) -> (r: Result<
        JsonValue,
        ResponseError,
    >)
        ensures
            response_outcome(*self, decoded, r),
    {
        if !(200 <= self.status && self.status < 300) {
            return Err(ResponseError::Status { status: self.status, body: self.body.clone() });
        }
        match decoded {
            Ok(v) => Ok(v),
            Err(d) => Err(ResponseError::Deserialization { diagnostic: d, raw: self.body.clone() }),
        }
    }
}

/// The document that a response delivers: present only for a 2xx status
/// whose body decoded.
pub open spec fn delivered(response: RawResponse, decoded: Result<JsonValue, String>) -> Option<
    JsonValue,
> {
    if is_success(response.status) {
        match decoded {
            Ok(v) => Some(v),
            Err(_) => None,
        }
    } else {
        None
    }
}

/// The text that a decode error carries is the body that was captured before
/// decoding was attempted, next to the decoder's own diagnostic.
pub proof fn lemma_decode_error_keeps_raw_text(
    response: RawResponse,
    diagnostic: String,
    r: Result<JsonValue, ResponseError>,
)
    requires
        is_success(response.status),
        response_outcome(response, Err(diagnostic), r),
    ensures
        r matches Err(ResponseError::Deserialization { diagnostic: d, raw }) && raw@
            == response.body@ && d@ == diagnostic@,
{
}

} // verus!
