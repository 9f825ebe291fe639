use market_api::csfloat::client::{read_listing, read_listings};
use market_api::csfloat::models::{ListingState, ListingType};
use market_api::executor::RawResponse;
use market_api::json::{JsonValue, Numeric};
use market_api::CSFloatError;

fn s(x: &str) -> JsonValue {
    JsonValue::Str(x.to_string())
}

fn obj(fields: Vec<(&str, JsonValue)>) -> JsonValue {
    JsonValue::Object(fields.into_iter().map(|(k, v)| (k.to_string(), v)).collect())
}

fn ok() -> RawResponse {
    RawResponse { status: 200, body: "{}".to_string() }
}

fn listing(kind: &str, state: &str) -> JsonValue {
    obj(vec![
        ("id", s("L1")),
        ("created_at", s("2024-01-01T00:00:00Z")),
        ("type", s(kind)),
        ("price", JsonValue::Int(1999)),
        ("state", s(state)),
        (
            "seller",
            obj(vec![
                ("flags", JsonValue::Int(0)),
                ("online", JsonValue::Bool(true)),
                ("stall_public", JsonValue::Bool(false)),
                (
                    "statistics",
                    obj(vec![
                        ("median_trade_time", JsonValue::Int(60)),
                        ("total_failed_trades", JsonValue::Int(0)),
                        ("total_trades", JsonValue::Int(12)),
                        ("total_verified_trades", JsonValue::Int(11)),
                    ]),
                ),
            ]),
        ),
        (
            "item",
            obj(vec![
                ("asset_id", s("A1")),
                ("float_value", JsonValue::Decimal("0.0312".to_string())),
                ("icon_url", s("icon")),
                ("market_hash_name", s("AWP | Asiimov")),
                (
                    "stickers",
                    JsonValue::Array(vec![obj(vec![
                        ("stickerId", JsonValue::Int(5)),
                        ("slot", JsonValue::Int(0)),
                        ("icon_url", s("st")),
                        ("name", s("Crown")),
                        ("scm", obj(vec![("amount", JsonValue::Int(300)), ("currency", s("USD"))])),
                    ])]),
                ),
                ("type_name", s("Skin")),
            ]),
        ),
        ("is_seller", JsonValue::Bool(false)),
        ("is_watchlisted", JsonValue::Bool(false)),
        ("watchers", JsonValue::Int(2)),
    ])
}

#[test]
fn listing_page_decodes() {
    let doc = obj(vec![
        ("data", JsonValue::Array(vec![listing("buy_now", "listed"), listing("auction", "sold")])),
        ("cursor", s("next")),
    ]);
    let page = read_listings(ok(), Ok(doc)).ok().unwrap();
    assert_eq!(page.data.len(), 2);
    assert_eq!(page.cursor, Some("next".to_string()));
    let first = &page.data[0];
    assert!(matches!(first.type_, ListingType::BuyNow));
    assert!(matches!(first.state, ListingState::Listed));
    assert!(matches!(page.data[1].type_, ListingType::Auction));
    assert!(matches!(page.data[1].state, ListingState::Sold));
    assert_eq!(first.price, 1999);
    assert_eq!(first.seller.statistics.total_trades, 12);
    assert_eq!(first.item.market_hash_name, "AWP | Asiimov");
    assert!(matches!(first.item.float_value, Some(Numeric::Decimal(ref t)) if t == "0.0312"));
    assert_eq!(first.item.stickers.len(), 1);
    assert_eq!(first.item.stickers[0].scm.as_ref().unwrap().amount, 300);
    assert_eq!(first.item.badges.len(), 0);
    assert_eq!(first.item.item_type_name, Some("Skin".to_string()));
}

#[test]
fn unknown_listing_state_is_a_decode_error() {
    let raw = RawResponse { status: 200, body: "{...}".to_string() };
    match read_listing(raw, Ok(listing("buy_now", "frozen"))) {
        Err(CSFloatError::SerializationError { raw, .. }) => assert_eq!(raw, "{...}"),
        _ => panic!("expected a decode error"),
    }
}
