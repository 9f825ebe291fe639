//! The DMarket client: credentials, request signing and header assembly.
use vstd::prelude::*;
use crate::dmarket::error::DMarketError;
use crate::encoding::{decode_hex, hex_bytes, is_hex_text};
use crate::headers::{checked_header, fixed_header, is_entry, is_header_value, Header};
use crate::signing::{
    asymmetric_message, ed25519_request_signature, is_tagged_hex_signature, Ed25519Signer,
};

verus! {

pub const API_BASE_URL: &'static str = "https://api.dmarket.com";

/// The signing seed that a hex private key gives: the key itself when it is
/// 32 bytes, its first 32 bytes when it is seed and public key (64 bytes).
pub open spec fn seed_of_key(private_key: Seq<char>) -> Option<Seq<u8>> {
    if !is_hex_text(private_key) {
        None
    } else {
        let b = hex_bytes(private_key);
        if b.len() == 32 {
            Some(b)
        } else if b.len() == 64 {
            Some(b.subrange(0, 32))
        } else {
            None
        }
    }
}

/// Whether a key pair is accepted: both keys at least 32 bytes long, and the
/// private key a hex seed as `seed_of_key` reads it.
pub open spec fn keys_accepted(private_key: &str, public_key: &str) -> bool {
    private_key.len() >= 32 && public_key.len() >= 32 && seed_of_key(private_key@) is Some
}

/// A request ready to send: every header is in place and signed.
pub struct SignedRequest {
    pub method: String,
    pub url: String,
    pub body: String,
    pub headers: Vec<Header>,
}

/// Whether `h` is the DMarket header set for the given values.
pub open spec fn dmarket_headers(
    h: Seq<Header>,
    public_key: Seq<char>,
    signature: Seq<char>,
    timestamp: Seq<char>,
) -> bool {
    h.len() == 5 && is_entry(h[0], "X-Api-Key"@, public_key) && is_entry(
        h[1],
        "X-Request-Sign"@,
        signature,
    ) && is_entry(h[2], "X-Sign-Date"@, timestamp) && is_entry(
        h[3],
        "Content-Type"@,
        "application/json"@,
    ) && is_entry(h[4], "Accept"@, "application/json"@)
}

/// Whether `r` is the request that `c` prepares: signed over the canonical
/// message, sent to the base URL followed by `path`; a header error where a
/// header value is refused.
pub open spec fn prepared(
    c: DMarketClient,
    method: Seq<char>,
    path: Seq<char>,
    body: Seq<char>,
    timestamp: Seq<char>,
    r: Result<SignedRequest, DMarketError>,
) -> bool {
    let sig = ed25519_request_signature(
        c.signer.seed@,
        asymmetric_message(method, path, body, timestamp),
    );
    &&& r is Ok <==> is_header_value(c.public_key@) && is_header_value(sig) && is_header_value(
        timestamp,
    )
    &&& r matches Ok(q) ==> q.method@ == method && q.url@ == API_BASE_URL@ + path && q.body@ == body
        && dmarket_headers(q.headers@, c.public_key@, sig, timestamp)
    &&& r matches Err(e) ==> e is HeaderError
}

pub struct DMarketClient {
    pub signer: Ed25519Signer,
    pub public_key: String,
}

impl DMarketClient {
    /// A client for the key pair, or a configuration error where
    /// `keys_accepted` does not hold.
    pub fn new(private_key: &str, public_key: &str) -> (r: Result<DMarketClient, DMarketError>)
        ensures
            r is Ok <==> keys_accepted(private_key, public_key),
            r matches Ok(c) ==> seed_of_key(private_key@) == Some(c.signer.seed@) && c.public_key@
                == public_key@,
            r matches Err(e) ==> e is ConfigError,
            private_key.len() < 32 ==> (r matches Err(DMarketError::ConfigError(m)) && m@
                == "Private key is too short"@),
            private_key.len() >= 32 && public_key.len() < 32 ==> (r matches Err(
                DMarketError::ConfigError(m),
            ) && m@ == "Public key is too short"@),
            private_key.len() >= 32 && public_key.len() >= 32 && !is_hex_text(private_key@) ==> (
            r matches Err(DMarketError::ConfigError(m)) && m@ == "Private key is not hexadecimal"@),
            private_key.len() >= 32 && public_key.len() >= 32 && is_hex_text(private_key@)
                && hex_bytes(private_key@).len() != 32 && hex_bytes(private_key@).len() != 64 ==> (
            r matches Err(DMarketError::ConfigError(m)) && m@
                == "Invalid private key length. Expected 32 or 64 bytes"@),
    {
        if private_key.len() < 32 {
            return Err(DMarketError::ConfigError(String::from_str("Private key is too short")));
        }
        if public_key.len() < 32 {
            return Err(DMarketError::ConfigError(String::from_str("Public key is too short")));
        }
        let bytes = match decode_hex(private_key) {
            Some(b) => b,
            None => {
                return Err(
                    DMarketError::ConfigError(String::from_str("Private key is not hexadecimal")),
                );
            },
        };
        if bytes.len() != 32 && bytes.len() != 64 {
            return Err(
                DMarketError::ConfigError(
                    String::from_str("Invalid private key length. Expected 32 or 64 bytes"),
                ),
            );
        }
        let mut seed = [0u8; 32];
        let mut i: usize = 0;
        while i < 32
            invariant
                32 <= bytes@.len(),
                seed@.len() == 32,
                forall|j: int| 0 <= j < i ==> seed@[j] == bytes@[j],
            decreases 32 - i,
        {
            seed[i] = bytes[i];
            i = i + 1;
        }
        assert(seed@ =~= bytes@.subrange(0, 32));
        Ok(DMarketClient { signer: Ed25519Signer { seed }, public_key: String::from_str(public_key) })
    }

    /// The `X-Request-Sign` value of a request.
    pub fn generate_signature(&self, timestamp: &str, method: &str, path: &str, body: &str) -> (r:
        Result<String, DMarketError>)
        ensures
            r matches Ok(s) && s@ == ed25519_request_signature(
                self.signer.seed@,
                asymmetric_message(method@, path@, body@, timestamp@),
            ) && is_tagged_hex_signature(s@),
    {
        Ok(self.signer.sign(method, path, body, timestamp))
    }

    /// The header set of a request, or a header error where the public key,
    /// the signature or the timestamp cannot be a header value.
    pub fn create_headers(&self, timestamp: &str, signature: &str) -> (r: Result<
        Vec<Header>,
        DMarketError,
    >)
        ensures
            r is Ok <==> is_header_value(self.public_key@) && is_header_value(signature@)
                && is_header_value(timestamp@),
            r matches Ok(h) ==> dmarket_headers(h@, self.public_key@, signature@, timestamp@),
            r matches Err(e) ==> e is HeaderError,
            !is_header_value(self.public_key@) ==> (r matches Err(DMarketError::HeaderError(m))
                && m@ == "invalid X-Api-Key"@),
            is_header_value(self.public_key@) && !is_header_value(signature@) ==> (r matches Err(
                DMarketError::HeaderError(m),
            ) && m@ == "invalid X-Request-Sign"@),
            is_header_value(self.public_key@) && is_header_value(signature@) && !is_header_value(
                timestamp@,
            ) ==> (r matches Err(DMarketError::HeaderError(m)) && m@ == "invalid X-Sign-Date"@),
    {
        let key = match checked_header("X-Api-Key", self.public_key.as_str()) {
            Some(h) => h,
            None => return Err(DMarketError::HeaderError(String::from_str("invalid X-Api-Key"))),
        };
        let sign = match checked_header("X-Request-Sign", signature) {
            Some(h) => h,
            None => return Err(
                DMarketError::HeaderError(String::from_str("invalid X-Request-Sign")),
            ),
        };
        let date = match checked_header("X-Sign-Date", timestamp) {
            Some(h) => h,
            None => return Err(DMarketError::HeaderError(String::from_str("invalid X-Sign-Date"))),
        };
        let mut headers: Vec<Header> = Vec::new();
        headers.push(key);
        headers.push(sign);
        headers.push(date);
        headers.push(fixed_header("Content-Type", "application/json"));
        headers.push(fixed_header("Accept", "application/json"));
        Ok(headers)
    }

    /// Signs a request to `path` and assembles it for sending.
    pub fn prepare(&self, method: &str, path: &str, body: &str, timestamp: &str) -> (r: Result<
        SignedRequest,
        DMarketError,
    >)
        ensures
            prepared(*self, method@, path@, body@, timestamp@, r),
    {
        let signature = match self.generate_signature(timestamp, method, path, body) {
            Ok(s) => s,
            Err(e) => return Err(e),
        };
        let headers = match self.create_headers(timestamp, signature.as_str()) {
            Ok(h) => h,
            Err(e) => return Err(e),
        };
        let mut url = String::from_str(API_BASE_URL);
        url.append(path);
        Ok(SignedRequest {
            method: String::from_str(method),
            url,
            body: String::from_str(body),
            headers,
        })
    }
}

} // verus!
