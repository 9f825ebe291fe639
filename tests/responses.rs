use market_api::buff_market::client::{
    ends_ambiguously, read_buy_orders, read_market_listings, ListingPager,
};
use market_api::buff_market::models::MarketGoodsResponse;
use market_api::csfloat::client::read_document;
use market_api::dmarket::endpoints::{
    normalize_listing, normalize_market_item, read_balances, read_games, read_inventory,
    read_market_items,
};
use market_api::executor::{RawResponse, ResponseError};
use market_api::json::{JsonValue, Numeric};
use market_api::{BuffMarketError, CSFloatError, DMarketError};

fn s(x: &str) -> JsonValue {
    JsonValue::Str(x.to_string())
}

fn obj(fields: Vec<(&str, JsonValue)>) -> JsonValue {
    JsonValue::Object(fields.into_iter().map(|(k, v)| (k.to_string(), v)).collect())
}

fn ok(body: &str) -> RawResponse {
    RawResponse { status: 200, body: body.to_string() }
}

fn market_item(id: &str) -> JsonValue {
    obj(vec![
        ("itemId", s(id)),
        ("title", s("AK-47 | Redline")),
        ("gameId", s("a8db")),
        ("classId", s("c1")),
        ("price", obj(vec![("USD", s("1250")), ("DMC", s("1300"))])),
        ("discount", JsonValue::Decimal("0.15".to_string())),
        ("ownersCount", JsonValue::Int(3)),
        ("tradable", JsonValue::Bool(true)),
        ("locked", JsonValue::Bool(true)),
    ])
}

fn goods_item(id: i64) -> JsonValue {
    obj(vec![
        ("appid", JsonValue::Int(730)),
        ("id", JsonValue::Int(id)),
        ("name", s("name")),
        ("market_hash_name", s("hash")),
        ("sell_min_price", s("605")),
        ("icon_url", s("https://i/x.png")),
        ("sell_num", JsonValue::Int(4)),
    ])
}

fn goods_page(n: i64, total_count: i64, total_page: i64) -> JsonValue {
    obj(vec![
        ("code", s("OK")),
        (
            "data",
            obj(vec![
                ("items", JsonValue::Array((0..n).map(goods_item).collect())),
                ("page_num", JsonValue::Int(1)),
                ("page_size", JsonValue::Int(20)),
                ("total_count", JsonValue::Int(total_count)),
                ("total_page", JsonValue::Int(total_page)),
            ]),
        ),
        ("msg", JsonValue::Null),
    ])
}

#[test]
fn envelope_failure_is_an_application_error() {
    let doc = obj(vec![("code", s("FAIL")), ("msg", s("bad request"))]);
    let body = "{\"code\":\"FAIL\",\"msg\":\"bad request\"}";
    match read_market_listings(ok(body), Ok(doc)) {
        Err(BuffMarketError::ApiError { message }) => assert_eq!(message, "bad request"),
        _ => panic!("expected an application error"),
    }
}

#[test]
fn envelope_failure_without_message() {
    let doc = obj(vec![("code", s("FAIL"))]);
    match read_buy_orders(ok("{\"code\":\"FAIL\"}"), Ok(doc)) {
        Err(BuffMarketError::ApiError { message }) => assert_eq!(message, "Unknown API error"),
        _ => panic!("expected an application error"),
    }
}

#[test]
fn not_found_status_keeps_status_and_body() {
    let r = RawResponse { status: 404, body: "not found".to_string() };
    match read_market_listings(r, Err("expected value".to_string())) {
        Err(BuffMarketError::HttpStatus { status, body }) => {
            assert_eq!(status, 404);
            assert_eq!(body, "not found");
        },
        _ => panic!("expected a status error"),
    }
    let r = RawResponse { status: 404, body: "not found".to_string() };
    match read_market_items(r, Err("expected value".to_string())) {
        Err(DMarketError::ApiError { status, body }) => {
            assert_eq!(status, 404);
            assert_eq!(body, "not found");
        },
        _ => panic!("expected a status error"),
    }
    let r = RawResponse { status: 404, body: "not found".to_string() };
    match read_document(&r, Ok(JsonValue::Null)) {
        Err(CSFloatError::StatusError { status, body }) => {
            assert_eq!(status, 404);
            assert_eq!(body, "not found");
        },
        _ => panic!("expected a status error"),
    }
}

#[test]
fn executor_classifies_status_before_decoding() {
    let r = RawResponse { status: 500, body: "oops".to_string() };
    assert!(matches!(
        r.document(Ok(JsonValue::Null)),
        Err(ResponseError::Status { status: 500, .. })
    ));
    let r = RawResponse { status: 204, body: "null".to_string() };
    assert!(matches!(r.document(Ok(JsonValue::Null)), Ok(JsonValue::Null)));
}

#[test]
fn malformed_body_error_carries_raw_text() {
    let raw = "{\"objects\": [";
    let diag = "EOF while parsing a list at line 1 column 13".to_string();
    match read_market_items(ok(raw), Err(diag.clone())) {
        Err(DMarketError::JsonError { diagnostic, raw: text }) => {
            assert_eq!(diagnostic, diag);
            assert_eq!(text, raw);
        },
        _ => panic!("expected a decode error"),
    }
    match read_market_listings(ok(raw), Err(diag.clone())) {
        Err(BuffMarketError::JsonParse { diagnostic, raw: text }) => {
            assert_eq!(diagnostic, diag);
            assert_eq!(text, raw);
        },
        _ => panic!("expected a decode error"),
    }
}

#[test]
fn misshapen_document_error_carries_raw_text() {
    let raw = "{\"objects\":[],\"total\":[]}";
    let doc = obj(vec![("objects", JsonValue::Array(vec![])), ("total", JsonValue::Array(vec![]))]);
    match read_market_items(ok(raw), Ok(doc)) {
        Err(DMarketError::JsonError { raw: text, .. }) => assert_eq!(text, raw),
        _ => panic!("expected a decode error"),
    }
}

#[test]
fn single_full_page_ends_the_walk() {
    let mut pager = ListingPager::new();
    assert_eq!(pager.next_page(), Some(1));
    let page: MarketGoodsResponse = read_market_listings(ok("{}"), Ok(goods_page(20, 20, 1))).ok().unwrap();
    assert!(pager.accept(page).is_ok());
    assert_eq!(pager.next_page(), None);
    let items = pager.into_items();
    assert_eq!(items.len(), 20);
    assert_eq!(items[7].goods_internal_id, 7);
}

#[test]
fn walk_goes_on_until_the_last_page() {
    let mut pager = ListingPager::new();
    let first = read_market_listings(ok("{}"), Ok(goods_page(2, 3, 2))).ok().unwrap();
    assert!(pager.accept(first).is_ok());
    assert_eq!(pager.next_page(), Some(2));
    let second = read_market_listings(ok("{}"), Ok(goods_page(1, 3, 2))).ok().unwrap();
    assert!(pager.accept(second).is_ok());
    assert_eq!(pager.next_page(), None);
    assert_eq!(pager.into_items().len(), 3);
}

#[test]
fn empty_page_or_zero_total_ends_the_walk() {
    let mut pager = ListingPager::new();
    let p = read_market_listings(ok("{}"), Ok(goods_page(0, 40, 5))).ok().unwrap();
    assert!(pager.accept(p).is_ok());
    assert_eq!(pager.next_page(), None);
    let mut pager = ListingPager::new();
    let p = read_market_listings(ok("{}"), Ok(goods_page(3, 0, 5))).ok().unwrap();
    assert!(pager.accept(p).is_ok());
    assert_eq!(pager.next_page(), None);
    assert_eq!(pager.into_items().len(), 3);
}

#[test]
fn page_without_data() {
    let mut pager = ListingPager::new();
    let p = MarketGoodsResponse { code: "OK".to_string(), data: None, msg: None };
    assert!(pager.accept(p).is_ok());
    assert_eq!(pager.next_page(), None);
    let mut pager = ListingPager::new();
    let p = MarketGoodsResponse { code: "Pending".to_string(), data: None, msg: None };
    assert!(matches!(pager.accept(p), Err(BuffMarketError::MissingData(_))));
}

#[test]
fn items_fall_back_when_objects_absent() {
    let with_items = obj(vec![
        ("items", JsonValue::Array(vec![market_item("a"), market_item("b")])),
        ("total", s("2")),
    ]);
    let with_objects = obj(vec![
        ("objects", JsonValue::Array(vec![market_item("a"), market_item("b")])),
        ("total", s("2")),
    ]);
    let a = normalize_listing(&with_items).ok().unwrap();
    let b = normalize_listing(&with_objects).ok().unwrap();
    assert_eq!(a.len(), 2);
    assert_eq!(b.len(), 2);
    for (x, y) in a.iter().zip(b.iter()) {
        assert_eq!(x.item_id, y.item_id);
        assert_eq!(x.price.amount, y.price.amount);
    }
    let empty_objects = obj(vec![
        ("objects", JsonValue::Array(vec![])),
        ("items", JsonValue::Array(vec![market_item("c")])),
        ("total", JsonValue::Int(1)),
    ]);
    let c = normalize_listing(&empty_objects).ok().unwrap();
    assert_eq!(c[0].item_id, "c");
}

#[test]
fn market_item_defaults_and_typed_fields() {
    let item = normalize_market_item(&market_item("x1")).ok().unwrap();
    assert_eq!(item.item_id, "x1");
    assert_eq!(item.item_type, "offer");
    assert_eq!(item.status, "active");
    assert_eq!(item.slug, "");
    assert_eq!(item.price.amount, "1250");
    assert_eq!(item.price.currency, "USD");
    let sp = item.suggested_price.unwrap();
    assert_eq!(sp.amount, "1300");
    assert_eq!(sp.currency, "DMC");
    assert!(matches!(item.discount, Some(Numeric::Decimal(ref t)) if t == "0.15"));
    assert_eq!(item.ownersCount, Some(3));
    assert_eq!(item.extra.tradable, Some(true));
    assert_eq!(item.extra.gameId, Some("a8db".to_string()));
    assert!(item.locked);
    assert!(item.inMarket);
    assert!(item.withdrawable);
    assert_eq!(item.createdAt, 0);
    let missing = obj(vec![("itemId", s("x"))]);
    assert!(normalize_market_item(&missing).is_err());
}

#[test]
fn total_as_string_integer_or_counts() {
    let as_text = obj(vec![("objects", JsonValue::Array(vec![])), ("total", s("17"))]);
    assert_eq!(read_market_items(ok("{}"), Ok(as_text)).ok().unwrap().total, "17");
    let as_int = obj(vec![("total", JsonValue::Int(-5))]);
    assert_eq!(read_market_items(ok("{}"), Ok(as_int)).ok().unwrap().total, "-5");
    let counts = obj(vec![(
        "total",
        obj(vec![("offers", JsonValue::Int(120)), ("targets", JsonValue::Int(3))]),
    )]);
    assert_eq!(read_market_items(ok("{}"), Ok(counts)).ok().unwrap().total, "120");
    let no_offers = obj(vec![("total", obj(vec![("targets", JsonValue::Int(3))]))]);
    assert_eq!(read_market_items(ok("{}"), Ok(no_offers)).ok().unwrap().total, "0");
    let missing = obj(vec![("objects", JsonValue::Array(vec![]))]);
    assert!(matches!(
        read_market_items(ok("{}"), Ok(missing)),
        Err(DMarketError::JsonError { .. })
    ));
}

#[test]
fn inventory_items_are_normalised() {
    let doc = obj(vec![
        (
            "items",
            JsonValue::Array(vec![obj(vec![
                ("itemId", s("i1")),
                ("name", s("Knife")),
                ("classId", s("c9")),
                ("gameId", s("a8db")),
                ("inMarket", JsonValue::Bool(true)),
                ("floatValue", JsonValue::Decimal("0.07".to_string())),
            ])]),
        ),
        ("total", JsonValue::Int(1)),
    ]);
    let inv = read_inventory(ok("{}"), Ok(doc)).ok().unwrap();
    assert_eq!(inv.total, 1);
    assert_eq!(inv.objects.len(), 1);
    let it = &inv.objects[0];
    assert_eq!(it.title, "Knife");
    assert_eq!(it.game, "a8db");
    assert_eq!(it.status, "active");
    assert!(it.inMarket);
    assert!(!it.locked);
    assert!(matches!(it.extra.floatValue, Some(Numeric::Decimal(ref t)) if t == "0.07"));
    let empty = obj(vec![]);
    let inv = read_inventory(ok("{}"), Ok(empty)).ok().unwrap();
    assert_eq!(inv.total, 0);
    assert_eq!(inv.objects.len(), 0);
}

#[test]
fn games_are_normalised() {
    let doc = obj(vec![
        (
            "objects",
            JsonValue::Array(vec![
                obj(vec![("id", s("a8db")), ("title", s("CS2")), ("logoImageUrl", s("l.png"))]),
                obj(vec![("id", s("9a92")), ("title", s("Dota 2")), ("status", s("maintenance"))]),
            ]),
        ),
        ("total", JsonValue::Int(2)),
    ]);
    let games = read_games(ok("{}"), Ok(doc)).ok().unwrap();
    assert_eq!(games.len(), 2);
    assert_eq!(games[0].logo, "l.png");
    assert_eq!(games[0].slug, "");
    assert_eq!(games[0].status, "active");
    assert_eq!(games[1].status, "maintenance");
    let bad = obj(vec![("objects", JsonValue::Array(vec![obj(vec![("id", s("x"))])])), ("total", JsonValue::Int(1))]);
    assert!(read_games(ok("{}"), Ok(bad)).is_err());
}

#[test]
fn balances_in_usd_then_dmc() {
    let doc = obj(vec![("dmc", s("2.00")), ("usd", s("10.50")), ("usdAvailableToWithdraw", s("1"))]);
    let b = read_balances(ok("{}"), Ok(doc)).ok().unwrap();
    assert_eq!(b.len(), 2);
    assert_eq!((b[0].currency.as_str(), b[0].amount.as_str()), ("USD", "10.50"));
    assert_eq!((b[1].currency.as_str(), b[1].amount.as_str()), ("DMC", "2.00"));
    let only_dmc = obj(vec![("dmc", s("3")), ("usd", JsonValue::Int(4))]);
    let b = read_balances(ok("{}"), Ok(only_dmc)).ok().unwrap();
    assert_eq!(b.len(), 1);
    assert_eq!(b[0].currency, "DMC");
}

#[test]
fn buy_orders_decode() {
    let order = obj(vec![
        ("app_id", JsonValue::Int(730)),
        ("bookmarked", JsonValue::Bool(false)),
        ("buy_num", JsonValue::Int(1)),
        ("can_bargain", JsonValue::Bool(false)),
        ("can_search_intent", JsonValue::Bool(true)),
        ("created_at", JsonValue::Int(1)),
        ("goods_id", JsonValue::Int(99)),
        ("id", s("o1")),
        ("updated_at", JsonValue::Int(2)),
        ("user_id", JsonValue::Int(5)),
        ("price", s("12.5")),
        ("state", JsonValue::Int(1)),
        ("supported_pay_method", JsonValue::Int(3)),
    ]);
    let doc = obj(vec![
        ("code", s("OK")),
        (
            "data",
            obj(vec![
                ("items", JsonValue::Array(vec![order])),
                ("page_num", JsonValue::Int(1)),
                ("page_size", JsonValue::Int(10)),
                ("total_count", JsonValue::Int(1)),
                ("total_page", JsonValue::Int(1)),
            ]),
        ),
    ]);
    let r = read_buy_orders(ok("{}"), Ok(doc)).ok().unwrap();
    let data = r.data.unwrap();
    assert_eq!(data.items.len(), 1);
    assert_eq!(data.items[0].id, "o1");
    assert_eq!(data.items[0].goods_id, 99);
    assert!(data.items[0].asset_info.is_none());
}

#[test]
fn empty_page_with_reported_goods_is_ambiguous() {
    let p = read_market_listings(ok("{}"), Ok(goods_page(0, 40, 5))).ok().unwrap();
    assert!(ends_ambiguously(p.data.as_ref().unwrap()));
    let p = read_market_listings(ok("{}"), Ok(goods_page(0, 0, 0))).ok().unwrap();
    assert!(!ends_ambiguously(p.data.as_ref().unwrap()));
}

#[test]
fn out_of_range_counters_read_as_absent() {
    let v = obj(vec![
        ("itemId", s("x")),
        ("title", s("t")),
        ("gameId", s("g")),
        ("classId", s("c")),
        ("price", obj(vec![("USD", s("1"))])),
        ("ownersCount", JsonValue::Int(1 << 40)),
        ("tradeLock", JsonValue::Int(-7)),
    ]);
    let item = normalize_market_item(&v).ok().unwrap();
    assert_eq!(item.ownersCount, None);
    assert_eq!(item.tradeLock, Some(-7));
    assert!(item.suggested_price.is_none());
}
