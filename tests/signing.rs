use base64::Engine;
use ed25519_dalek::Signer;
use hmac::Mac;
use market_api::dmarket::client::DMarketClient;
use market_api::signing::{
    asymmetric_canonical_message, hmac_canonical_message, hmac_request_headers, normalize_path,
    HmacSigner,
};
use market_api::DMarketError;

const SEED_HEX: &str = "9d61b19deffd5a60ba844af492ec2cc44449c5697b326919703bac031cae7f60";
const PUBLIC_HEX: &str = "d75a980182b10ab7d54bfed3c964073a0ee172f3daa62325af021a68f707511a";

#[test]
fn asymmetric_message_is_method_path_body_timestamp() {
    let m = asymmetric_canonical_message("get", "/account/v1/user", "{\"a\":1}", "1700000000");
    assert_eq!(m, "GET/account/v1/user{\"a\":1}1700000000");
    assert_ne!(m, hmac_canonical_message("get", "/account/v1/user", "{\"a\":1}", "1700000000"));
}

#[test]
fn hmac_message_is_timestamp_method_path_body() {
    let m = hmac_canonical_message("post", "orders", "{}", "42");
    assert_eq!(m, "42POST/orders{}");
}

#[test]
fn path_gets_leading_slash() {
    assert_eq!(normalize_path("a/b"), "/a/b");
    assert_eq!(normalize_path("/a/b"), "/a/b");
    assert_eq!(normalize_path(""), "/");
}

fn expected_hmac(key: &[u8], msg: &str) -> String {
    let mut mac = hmac::Hmac::<sha2::Sha256>::new_from_slice(key).unwrap();
    mac.update(msg.as_bytes());
    base64::engine::general_purpose::STANDARD.encode(mac.finalize().into_bytes())
}

#[test]
fn hmac_signature_is_base64_of_hmac_sha256() {
    let signer = HmacSigner::new(b"secret".to_vec());
    let sig = signer.sign("get", "/v1/items", "", "1700000000");
    assert_eq!(sig, expected_hmac(b"secret", "1700000000GET/v1/items"));
    assert_eq!(sig.len(), 44);
}

#[test]
fn hmac_signature_is_stable_and_field_sensitive() {
    let signer = HmacSigner::new(b"secret".to_vec());
    let base = signer.sign("GET", "/p", "b", "1");
    assert_eq!(base, signer.sign("GET", "/p", "b", "1"));
    assert_eq!(base, signer.sign("get", "p", "b", "1"));
    assert_ne!(base, signer.sign("POST", "/p", "b", "1"));
    assert_ne!(base, signer.sign("GET", "/q", "b", "1"));
    assert_ne!(base, signer.sign("GET", "/p", "c", "1"));
    assert_ne!(base, signer.sign("GET", "/p", "b", "2"));
    let other = HmacSigner::new(b"other".to_vec());
    assert_ne!(base, other.sign("GET", "/p", "b", "1"));
}

#[test]
fn hmac_headers_carry_key_signature_and_time() {
    let h = hmac_request_headers("key", "sig", "17").ok().unwrap();
    let pairs: Vec<(String, String)> = h.into_iter().map(|x| (x.name, x.value)).collect();
    assert_eq!(
        pairs,
        vec![
            ("x-api-key".to_string(), "key".to_string()),
            ("x-sign".to_string(), "sig".to_string()),
            ("x-time".to_string(), "17".to_string()),
            ("content-type".to_string(), "application/json".to_string()),
            ("accept".to_string(), "application/json".to_string()),
        ]
    );
    assert_eq!(hmac_request_headers("key", "bad\nsig", "17").err().unwrap(), "x-sign");
}

#[test]
fn ed25519_signature_is_tagged_hex_of_signature() {
    let client = DMarketClient::new(SEED_HEX, PUBLIC_HEX).ok().unwrap();
    let sig = client.generate_signature("1700000000", "get", "account/v1/user", "").ok().unwrap();
    let seed: [u8; 32] = hex::decode(SEED_HEX).unwrap().try_into().unwrap();
    let key = ed25519_dalek::SigningKey::from_bytes(&seed);
    let expected = key.sign(b"GET/account/v1/user1700000000");
    assert_eq!(sig, format!("dmar ed25519 {}", hex::encode(expected.to_bytes())));
    assert_eq!(sig.len(), 141);
    assert!(sig[13..].chars().all(|c| c.is_ascii_digit() || ('a'..='f').contains(&c)));
}

#[test]
fn key_of_seed_and_public_key_uses_seed() {
    let long = format!("{}{}", SEED_HEX, PUBLIC_HEX);
    let a = DMarketClient::new(&long, PUBLIC_HEX).ok().unwrap();
    let b = DMarketClient::new(SEED_HEX, PUBLIC_HEX).ok().unwrap();
    assert_eq!(a.signer.seed, b.signer.seed);
    assert_eq!(a.signer.seed.to_vec(), hex::decode(SEED_HEX).unwrap());
}

#[test]
fn key_of_other_length_is_refused() {
    let k33 = format!("{}ab", SEED_HEX);
    assert!(matches!(DMarketClient::new(&k33, PUBLIC_HEX), Err(DMarketError::ConfigError(_))));
    let k20 = &SEED_HEX[..40];
    assert!(matches!(DMarketClient::new(k20, PUBLIC_HEX), Err(DMarketError::ConfigError(_))));
    let k48 = format!("{}{}", SEED_HEX, &PUBLIC_HEX[..32]);
    assert!(matches!(DMarketClient::new(&k48, PUBLIC_HEX), Err(DMarketError::ConfigError(_))));
}

fn config_message(r: Result<DMarketClient, DMarketError>) -> String {
    match r {
        Err(DMarketError::ConfigError(m)) => m,
        _ => panic!("expected a configuration error"),
    }
}

#[test]
fn short_or_malformed_keys_are_refused() {
    assert_eq!(config_message(DMarketClient::new("abcd", PUBLIC_HEX)), "Private key is too short");
    assert_eq!(config_message(DMarketClient::new(SEED_HEX, "short")), "Public key is too short");
    let not_hex = "zz".repeat(32);
    assert_eq!(config_message(DMarketClient::new(&not_hex, PUBLIC_HEX)), "Private key is not hexadecimal");
    let odd = format!("{}a", SEED_HEX);
    assert_eq!(config_message(DMarketClient::new(&odd, PUBLIC_HEX)), "Private key is not hexadecimal");
    let k33 = format!("{}ab", SEED_HEX);
    assert_eq!(
        config_message(DMarketClient::new(&k33, PUBLIC_HEX)),
        "Invalid private key length. Expected 32 or 64 bytes"
    );
}

#[test]
fn dmarket_headers_in_order() {
    let client = DMarketClient::new(SEED_HEX, PUBLIC_HEX).ok().unwrap();
    let h = client.create_headers("17", "dmar ed25519 00").ok().unwrap();
    let names: Vec<String> = h.iter().map(|x| x.name.clone()).collect();
    assert_eq!(names, vec!["X-Api-Key", "X-Request-Sign", "X-Sign-Date", "Content-Type", "Accept"]);
    assert_eq!(h[0].value, PUBLIC_HEX);
    assert_eq!(h[1].value, "dmar ed25519 00");
    assert_eq!(h[2].value, "17");
    assert!(matches!(client.create_headers("1\r\n7", "x"), Err(DMarketError::HeaderError(_))));
    assert!(client.create_headers("17", "tab\tok").is_ok());
}

#[test]
fn prepared_request_is_signed_over_the_path() {
    let client = DMarketClient::new(SEED_HEX, PUBLIC_HEX).ok().unwrap();
    let q = client.prepare("GET", "/exchange/v1/games", "", "99").ok().unwrap();
    assert_eq!(q.url, "https://api.dmarket.com/exchange/v1/games");
    assert_eq!(q.method, "GET");
    assert_eq!(q.body, "");
    let sig = client.generate_signature("99", "GET", "/exchange/v1/games", "").ok().unwrap();
    assert_eq!(q.headers[1].value, sig);
}
