//! The CSFloat client: API-key requests and response classification.
use vstd::prelude::*;
use crate::csfloat::error::CSFloatError;
use crate::executor::{delivered, is_success, RawResponse, ResponseError};
use crate::headers::{checked_header, fixed_header, is_entry, is_header_value, Header};
use crate::csfloat::decode::{
    decode_listing, decode_listing_page, listing_decodes, listing_matches, listing_page_decodes,
    listing_page_matches,
};
use crate::csfloat::models::{Listing, ListingResponse};
use crate::json::JsonValue;

verus! {

pub const API_BASE_URL: &'static str = "https://csfloat.com/api/v1";

pub struct CSFloatClient {
    pub api_key: String,
}

/// A request ready to send.
pub struct ApiRequest {
    pub method: String,
    pub url: String,
    pub body: String,
    pub headers: Vec<Header>,
}

/// Whether `h` is the CSFloat header set for `api_key`.
pub open spec fn csfloat_headers(h: Seq<Header>, api_key: Seq<char>) -> bool {
    h.len() == 3 && is_entry(h[0], "Authorization"@, api_key) && is_entry(
        h[1],
        "Content-Type"@,
        "application/json"@,
    ) && is_entry(h[2], "Accept"@, "application/json"@)
}

/// Whether `e` is the error for a response that delivers no document.
pub open spec fn undelivered(response: RawResponse, decoded: Result<JsonValue, String>, e: CSFloatError) -> bool {
    if !is_success(response.status) {
        e matches CSFloatError::StatusError { status, body } && status == response.status && body@
            == response.body@
    } else {
        decoded matches Err(d) && e matches CSFloatError::SerializationError { diagnostic, raw }
            && diagnostic@ == d@ && raw@ == response.body@
    }
}

/// The document of a response, or the client error for it.
pub fn read_document(response: &RawResponse, decoded: Result<JsonValue, String>) -> (r: Result<
    JsonValue,
    CSFloatError,
>)
    ensures
        match delivered(*response, decoded) {
            Some(doc) => r == Ok::<JsonValue, CSFloatError>(doc),
            None => r matches Err(e) && undelivered(*response, decoded, e),
        },
{
    match response.document(decoded) {
        Ok(doc) => Ok(doc),
        Err(ResponseError::Status { status, body }) => Err(CSFloatError::StatusError { status, body }),
        Err(ResponseError::Deserialization { diagnostic, raw }) => Err(
            CSFloatError::SerializationError { diagnostic, raw },
        ),
    }
}

/// Whether `e` is the decode error for a document of the wrong shape.
pub open spec fn misshapen(response: RawResponse, e: CSFloatError) -> bool {
    e matches CSFloatError::SerializationError { raw, .. } && raw@ == response.body@
}

/// The page of listings that a response carries, or the client error for it.
pub fn read_listings(response: RawResponse, decoded: Result<JsonValue, String>) -> (r: Result<
    ListingResponse,
    CSFloatError,
>)
    ensures
        match delivered(response, decoded) {
            Some(doc) => {
                &&& r is Ok <==> listing_page_decodes(doc)
                &&& r matches Ok(x) ==> listing_page_matches(x, doc)
                &&& r matches Err(e) ==> misshapen(response, e)
            },
            None => r matches Err(e) && undelivered(response, decoded, e),
        },
{
    let doc = read_document(&response, decoded)?;
    match decode_listing_page(&doc) {
        Ok(x) => Ok(x),
        Err(d) => Err(CSFloatError::SerializationError { diagnostic: d, raw: response.body }),
    }
}

/// The listing that a response carries, or the client error for it.
pub fn read_listing(response: RawResponse, decoded: Result<JsonValue, String>) -> (r: Result<
    Listing,
    CSFloatError,
>)
    ensures
        match delivered(response, decoded) {
            Some(doc) => {
                &&& r is Ok <==> listing_decodes(doc)
                &&& r matches Ok(x) ==> listing_matches(x, doc)
                &&& r matches Err(e) ==> misshapen(response, e)
            },
            None => r matches Err(e) && undelivered(response, decoded, e),
        },
{
    let doc = read_document(&response, decoded)?;
    match decode_listing(&doc) {
        Ok(x) => Ok(x),
        Err(d) => Err(CSFloatError::SerializationError { diagnostic: d, raw: response.body }),
    }
}

impl CSFloatClient {
    /// A client for the API key; an empty key is refused.
    pub fn new(api_key: &str) -> (r: Result<CSFloatClient, CSFloatError>)
        ensures
            r is Ok <==> api_key@.len() > 0,
            r matches Ok(c) ==> c.api_key@ == api_key@,
            r matches Err(e) ==> (e matches CSFloatError::ApiError(m) && m@
                == "API key cannot be empty"@),
    {
        if api_key.is_empty() {
            return Err(CSFloatError::ApiError(String::from_str("API key cannot be empty")));
        }
        Ok(CSFloatClient { api_key: String::from_str(api_key) })
    }

    /// The header set of every request.
    pub fn create_headers(&self) -> (r: Result<Vec<Header>, CSFloatError>)
        ensures
            r is Ok <==> is_header_value(self.api_key@),
            r matches Ok(h) ==> csfloat_headers(h@, self.api_key@),
            r matches Err(e) ==> (e matches CSFloatError::InvalidHeaderValue(m) && m@
                == "invalid Authorization"@),
    {
        let auth = match checked_header("Authorization", self.api_key.as_str()) {
            Some(h) => h,
            None => return Err(
                CSFloatError::InvalidHeaderValue(String::from_str("invalid Authorization")),
            ),
        };
        let mut headers: Vec<Header> = Vec::new();
        headers.push(auth);
        headers.push(fixed_header("Content-Type", "application/json"));
        headers.push(fixed_header("Accept", "application/json"));
        Ok(headers)
    }

    /// A request with `method` to the base URL followed by `endpoint`.
    pub fn request(&self, method: &str, endpoint: &str, body: &str) -> (r: Result<
        ApiRequest,
        CSFloatError,
    >)
        ensures
            r is Ok <==> is_header_value(self.api_key@),
            r matches Ok(q) ==> q.method@ == method@ && q.url@ == API_BASE_URL@ + endpoint@
                && q.body@ == body@ && csfloat_headers(q.headers@, self.api_key@),
            r matches Err(e) ==> e is InvalidHeaderValue,
    {
        let headers = self.create_headers()?;
        let mut url = String::from_str(API_BASE_URL);
        url.append(endpoint);
        Ok(ApiRequest {
            method: String::from_str(method),
            url,
            body: String::from_str(body),
            headers,
        })
    }

    pub fn listings(&self) -> (r: ListingsHandler<'_>)
        ensures
            r.client == self,
    {
        ListingsHandler { client: self }
    }
}

/// Listings endpoints.
pub struct ListingsHandler<'a> {
    pub client: &'a CSFloatClient,
}

impl<'a> ListingsHandler<'a> {
    pub fn new(client: &'a CSFloatClient) -> (r: Self)
        ensures
            r.client == client,
    {
        ListingsHandler { client }
    }

    /// The request for listings; `query` is the encoded query string, if any.
    pub fn get_listings_request(&self, query: Option<&str>) -> (r: Result<ApiRequest, CSFloatError>)
        ensures
            r is Ok <==> is_header_value(self.client.api_key@),
            r matches Ok(q) ==> q.method@ == "GET"@ && q.url@ == API_BASE_URL@ + "/listings"@
                + match query {
                Some(s) => "?"@ + s@,
                None => seq![],
            } && q.body@ == ""@ && csfloat_headers(q.headers@, self.client.api_key@),
    {
        let mut endpoint = String::from_str("/listings");
        match query {
            Some(s) => {
                endpoint.append("?");
                endpoint.append(s);
            },
            None => {},
        }
        proof {
            reveal_strlit("/listings");
            reveal_strlit("?");
        }
        let r = self.client.request("GET", endpoint.as_str(), "");
        proof {
            if r is Ok {
                assert(API_BASE_URL@ + endpoint@ =~= API_BASE_URL@ + "/listings"@ + match query {
                    Some(s) => "?"@ + s@,
                    None => seq![],
                });
            }
        }
        r
    }

    /// The request for one listing.
    pub fn get_listing_request(&self, id: &str) -> (r: Result<ApiRequest, CSFloatError>)
        ensures
            r is Ok <==> is_header_value(self.client.api_key@),
            r matches Ok(q) ==> q.method@ == "GET"@ && q.url@ == API_BASE_URL@ + "/listings/"@
                + id@ && q.body@ == ""@ && csfloat_headers(q.headers@, self.client.api_key@),
    {
        let mut endpoint = String::from_str("/listings/");
        endpoint.append(id);
        let r = self.client.request("GET", endpoint.as_str(), "");
        proof {
            if r is Ok {
                assert(API_BASE_URL@ + endpoint@ =~= API_BASE_URL@ + "/listings/"@ + id@);
            }
        }
        r
    }

    /// The request that creates a listing; `body` is its JSON text.
    pub fn create_listing_request(&self, body: &str) -> (r: Result<ApiRequest, CSFloatError>)
        ensures
            r is Ok <==> is_header_value(self.client.api_key@),
            r matches Ok(q) ==> q.method@ == "POST"@ && q.url@ == API_BASE_URL@ + "/listings"@
                && q.body@ == body@ && csfloat_headers(q.headers@, self.client.api_key@),
    {
        self.client.request("POST", "/listings", body)
    }
}

} // verus!
