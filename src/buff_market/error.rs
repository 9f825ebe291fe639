//! Errors of the Buff Market client.
use vstd::prelude::*;

verus! {

pub enum BuffMarketError {
    /// The transport failed.
    HttpRequest(String),
    /// A non-2xx status, with the body verbatim.
    HttpStatus { status: u16, body: String },
    /// The body did not decode; the decoder's diagnostic and the raw body.
    JsonParse { diagnostic: String, raw: String },
    /// The envelope's code was not `OK`; its message.
    ApiError { message: String },
    /// A page carried no data although its code was not `OK`.
    MissingData(String),
    /// A credential cannot be sent as a header value.
    InvalidInput(String),
}

} // verus!
