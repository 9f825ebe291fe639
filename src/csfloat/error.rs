//! Errors of the CSFloat client.
use vstd::prelude::*;

verus! {

pub enum CSFloatError {
    /// The API key is missing or empty.
    ApiError(String),
    /// The transport failed.
    HttpError(String),
    /// The API key could not be read from the environment.
    EnvVarError(String),
    /// The body did not decode; the decoder's diagnostic and the raw body.
    SerializationError { diagnostic: String, raw: String },
    /// The API key cannot be sent as a header value.
    InvalidHeaderValue(String),
    /// The listing query could not be encoded.
    UrlEncodingError(String),
    /// A non-2xx status, with the body verbatim.
    StatusError { status: u16, body: String },
}

} // verus!
