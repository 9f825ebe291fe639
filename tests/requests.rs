use market_api::buff_market::client::BuffMarketClient;
use market_api::csfloat::client::CSFloatClient;
use market_api::dmarket::handlers::{id_list_body, TradingHandler};
use market_api::json::JsonValue;
use market_api::{BuffMarketError, CSFloatError, DMarketClient, SellOfferPrice};

const SEED_HEX: &str = "9d61b19deffd5a60ba844af492ec2cc44449c5697b326919703bac031cae7f60";
const PUBLIC_HEX: &str = "d75a980182b10ab7d54bfed3c964073a0ee172f3daa62325af021a68f707511a";

fn client() -> DMarketClient {
    DMarketClient::new(SEED_HEX, PUBLIC_HEX).ok().unwrap()
}

#[test]
fn market_items_query_in_order_with_encoded_title() {
    let c = client();
    let q = c
        .exchange()
        .market_items_request(
            "7",
            "a8db",
            "USD",
            5,
            0,
            Some("title"),
            Some("desc"),
            Some("AK-47 | Redline"),
            None,
            Some(100),
            None,
            None,
            Some("abc"),
        )
        .ok()
        .unwrap();
    assert_eq!(
        q.url,
        "https://api.dmarket.com/exchange/v1/market/items?gameId=a8db&currency=USD&limit=5&offset=0&orderBy=title&orderDir=desc&title=AK-47%20%7C%20Redline&priceFrom=100&cursor=abc"
    );
    let path = &q.url["https://api.dmarket.com".len()..];
    let sig = c.generate_signature("7", "GET", path, "").ok().unwrap();
    assert_eq!(q.headers[1].value, sig);
}

#[test]
fn search_defaults_game() {
    let c = client();
    let q = c.exchange().search_market_items_request("1", "M4A1 S", "USD", 10, 20, None).ok().unwrap();
    assert_eq!(
        q.url,
        "https://api.dmarket.com/exchange/v1/market/items?currency=USD&limit=10&offset=20&title=M4A1%20S&gameId=a411"
    );
    let q = c.exchange().search_market_items_request("1", "x", "USD", 1, 0, Some("a8db")).ok().unwrap();
    assert!(q.url.ends_with("&gameId=a8db"));
}

#[test]
fn other_dmarket_paths() {
    let c = client();
    assert_eq!(
        c.inventory().inventory_request("1", 50, 100, Some("a8db")).ok().unwrap().url,
        "https://api.dmarket.com/exchange/v1/user/inventory?limit=50&offset=100&gameId=a8db"
    );
    assert_eq!(
        c.exchange().market_item_details_request("1", "cls", 3, 4, "USD").ok().unwrap().url,
        "https://api.dmarket.com/offers-search/v1/aggregated-class/cls/sell-offers?limit=3&offset=4&currency=USD"
    );
    assert_eq!(
        c.trading().user_sell_offers_request("1", 10, 0, None, Some("active")).ok().unwrap().url,
        "https://api.dmarket.com/offers-search/v1/user/sell-offers?limit=10&offset=0&status=active"
    );
    assert_eq!(
        c.target().get_targets_request("1", 4294967295, 0).ok().unwrap().url,
        "https://api.dmarket.com/target-predictor/v1/user/targets?limit=4294967295&offset=0"
    );
    let d = c.target().delete_targets_request("1", "{}").ok().unwrap();
    assert_eq!(d.method, "DELETE");
    assert_eq!(d.body, "{}");
    assert_eq!(c.account().account_balance_request("1").ok().unwrap().url, "https://api.dmarket.com/account/v1/balance");
}

fn keys(v: &JsonValue) -> Vec<String> {
    match v {
        JsonValue::Object(fields) => fields.iter().map(|(k, _)| k.clone()).collect(),
        _ => panic!("expected an object"),
    }
}

#[test]
fn price_update_body() {
    let price = SellOfferPrice { amount: "100".to_string(), currency: "USD".to_string() };
    let body = TradingHandler::update_offer_price_body("abc", &price);
    assert_eq!(keys(&body), vec!["offers"]);
    match body.get("offers").unwrap() {
        JsonValue::Array(xs) => {
            assert_eq!(xs.len(), 1);
            assert_eq!(keys(&xs[0]), vec!["offerId", "price"]);
            assert_eq!(xs[0].get("offerId").unwrap().as_text().unwrap(), "abc");
            let p = xs[0].get("price").unwrap();
            assert_eq!(keys(p), vec!["amount", "currency"]);
            assert_eq!(p.get("amount").unwrap().as_text().unwrap(), "100");
            assert_eq!(p.get("currency").unwrap().as_text().unwrap(), "USD");
        },
        _ => panic!("offers must be an array"),
    }
}

#[test]
fn id_list_body_keeps_order() {
    let ids = vec!["o1".to_string(), "o2".to_string()];
    let body = id_list_body("offers", &ids);
    assert_eq!(keys(&body), vec!["offers"]);
    match body.get("offers").unwrap() {
        JsonValue::Array(xs) => {
            let got: Vec<&String> = xs.iter().map(|x| x.as_text().unwrap()).collect();
            assert_eq!(got, vec!["o1", "o2"]);
        },
        _ => panic!("offers must be an array"),
    }
}

#[test]
fn title_encoding_covers_utf8_bytes() {
    let q = client().exchange().search_market_items_request("1", "Café~ 1", "USD", 1, 0, None).ok().unwrap();
    assert!(q.url.contains("&title=Caf%C3%A9~%201&"));
}

#[test]
fn negative_and_extreme_numerals() {
    let c = BuffMarketClient::new("s".to_string(), "t".to_string());
    let q = c.buy_orders_request("csgo", i64::MIN, -3, u64::MAX).ok().unwrap();
    assert!(q.url.ends_with("goods_id=-9223372036854775808&page_num=-3&_=18446744073709551615"));
}

#[test]
fn buff_listing_request() {
    let c = BuffMarketClient::new("session=abc".to_string(), "tok".to_string());
    let q = c.market_listings_request("csgo", 2, -1).ok().unwrap();
    assert_eq!(q.url, "https://api.buff.market/api/market/goods?game=csgo&page_num=2&page_size=-1");
    let pairs: Vec<(String, String)> = q.headers.into_iter().map(|h| (h.name, h.value)).collect();
    assert_eq!(
        pairs,
        vec![
            ("cookie".to_string(), "session=abc".to_string()),
            ("x-csrftoken".to_string(), "tok".to_string()),
            ("origin".to_string(), "https://buff.market".to_string()),
            ("referer".to_string(), "https://buff.market/".to_string()),
        ]
    );
    let q = c.buy_orders_request("csgo", 42, 1, 1700000000123).ok().unwrap();
    assert_eq!(
        q.url,
        "https://api.buff.market/api/market/goods/buy_order?game=csgo&goods_id=42&page_num=1&_=1700000000123"
    );
    assert_eq!(q.headers.len(), 1);
}

#[test]
fn buff_refuses_bad_credentials() {
    let c = BuffMarketClient::new("a\nb".to_string(), "t\n".to_string());
    match c.market_listings_request("csgo", 1, 20) {
        Err(BuffMarketError::InvalidInput(m)) => assert_eq!(m, "Invalid session cookie format"),
        _ => panic!("expected invalid input"),
    }
    assert!(matches!(c.buy_orders_request("csgo", 1, 1, 0), Err(BuffMarketError::InvalidInput(_))));
    let c = BuffMarketClient::new("ok".to_string(), "t\u{7f}".to_string());
    match c.market_listings_request("csgo", 1, 20) {
        Err(BuffMarketError::InvalidInput(m)) => assert_eq!(m, "Invalid CSRF token format"),
        _ => panic!("expected invalid input"),
    }
}

#[test]
fn csfloat_requests() {
    assert!(matches!(CSFloatClient::new(""), Err(CSFloatError::ApiError(_))));
    let c = CSFloatClient::new("key-1").ok().unwrap();
    let q = c.listings().get_listings_request(Some("page=2&limit=5")).ok().unwrap();
    assert_eq!(q.url, "https://csfloat.com/api/v1/listings?page=2&limit=5");
    assert_eq!(q.headers[0].name, "Authorization");
    assert_eq!(q.headers[0].value, "key-1");
    assert_eq!(c.listings().get_listings_request(None).ok().unwrap().url, "https://csfloat.com/api/v1/listings");
    assert_eq!(c.listings().get_listing_request("77").ok().unwrap().url, "https://csfloat.com/api/v1/listings/77");
    let p = c.listings().create_listing_request("{\"price\":1}").ok().unwrap();
    assert_eq!(p.method, "POST");
    assert_eq!(p.body, "{\"price\":1}");
    let bad = CSFloatClient::new("k\r").ok().unwrap();
    assert!(matches!(bad.create_headers(), Err(CSFloatError::InvalidHeaderValue(_))));
}
