//! Errors of the DMarket client.
use vstd::prelude::*;
use crate::executor::{delivered, is_success, RawResponse, ResponseError};
use crate::json::JsonValue;

verus! {

pub enum DMarketError {
    /// A credential could not be read from the environment.
    EnvError(String),
    /// The transport failed.
    RequestError(String),
    /// The body did not decode; the decoder's diagnostic and the raw body.
    JsonError { diagnostic: String, raw: String },
    /// A value cannot be sent as a header value.
    HeaderError(String),
    /// A credential is missing, too short or malformed.
    ConfigError(String),
    /// A non-2xx status, with the body verbatim.
    ApiError { status: u16, body: String },
}

/// Whether `e` is the client error that stands for the response error `f`.
pub open spec fn stands_for(e: DMarketError, f: ResponseError) -> bool {
    match f {
        ResponseError::Status { status, body } => e matches DMarketError::ApiError {
            status: s,
            body: b,
        } && s == status && b@ == body@,
        ResponseError::Deserialization { diagnostic, raw } => e matches DMarketError::JsonError {
            diagnostic: d,
            raw: t,
        } && d@ == diagnostic@ && t@ == raw@,
    }
}

/// Whether `e` is the error for a response that delivers no document.
pub open spec fn undelivered(
    response: RawResponse,
    decoded: Result<JsonValue, String>,
    e: DMarketError,
) -> bool {
    if !is_success(response.status) {
        e matches DMarketError::ApiError { status, body } && status == response.status && body@
            == response.body@
    } else {
        decoded matches Err(d) && e matches DMarketError::JsonError { diagnostic, raw }
            && diagnostic@ == d@ && raw@ == response.body@
    }
}

/// Whether `e` is the decode error for a document of the wrong shape.
pub open spec fn misshapen(response: RawResponse, e: DMarketError) -> bool {
    e matches DMarketError::JsonError { raw, .. } && raw@ == response.body@
}

/// The document of a response, or the client error for it.
pub fn read_document(response: &RawResponse, decoded: Result<JsonValue, String>) -> (r: Result<
    JsonValue,
    DMarketError,
>)
    ensures
        match delivered(*response, decoded) {
            Some(doc) => r == Ok::<JsonValue, DMarketError>(doc),
            None => r matches Err(e) && undelivered(*response, decoded, e),
        },
{
    match response.document(decoded) {
        Ok(doc) => Ok(doc),
        Err(f) => {
            Err(DMarketError::from_response(f))
        },
    }
}

impl DMarketError {
    /// The client error for a failed response.
    pub fn from_response(e: ResponseError) -> (r: DMarketError)
        ensures
            stands_for(r, e),
    {
        match e {
            ResponseError::Status { status, body } => DMarketError::ApiError { status, body },
            ResponseError::Deserialization { diagnostic, raw } => DMarketError::JsonError {
                diagnostic,
                raw,
            },
        }
    }
}

} // verus!
