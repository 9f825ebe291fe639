use market_api::dmarket::profile::{read_raw_text, read_user_profile};
use market_api::dmarket::responses::{read_sell_response, read_targets_page};
use market_api::executor::RawResponse;
use market_api::json::JsonValue;
use market_api::DMarketError;

fn s(x: &str) -> JsonValue {
    JsonValue::Str(x.to_string())
}

fn b(x: bool) -> JsonValue {
    JsonValue::Bool(x)
}

fn obj(fields: Vec<(&str, JsonValue)>) -> JsonValue {
    JsonValue::Object(fields.into_iter().map(|(k, v)| (k.to_string(), v)).collect())
}

fn ok() -> RawResponse {
    RawResponse { status: 200, body: "{}".to_string() }
}

#[test]
fn sell_offer_outcomes_decode() {
    let doc = obj(vec![
        (
            "Items",
            JsonValue::Array(vec![obj(vec![
                ("Status", s("Created")),
                ("AssetID", s("as1")),
                ("OfferID", s("of1")),
                ("ErrorCode", JsonValue::Null),
            ])]),
        ),
        ("HasErrors", b(false)),
        ("TotalSucceed", JsonValue::Int(1)),
        ("TotalFailed", JsonValue::Int(0)),
    ]);
    let r = read_sell_response(ok(), Ok(doc)).ok().unwrap();
    assert_eq!(r.Items.len(), 1);
    assert_eq!(r.Items[0].OfferID, Some("of1".to_string()));
    assert_eq!(r.Items[0].ErrorCode, None);
    assert_eq!(r.TotalSucceed, 1);
    let overflow = obj(vec![
        ("Items", JsonValue::Array(vec![])),
        ("HasErrors", b(false)),
        ("TotalSucceed", JsonValue::Int(1 << 40)),
        ("TotalFailed", JsonValue::Int(0)),
    ]);
    assert!(matches!(read_sell_response(ok(), Ok(overflow)), Err(DMarketError::JsonError { .. })));
}

#[test]
fn target_listing_decodes_prices() {
    let doc = obj(vec![
        (
            "objects",
            JsonValue::Array(vec![obj(vec![
                ("targetType", s("pair")),
                ("gameId", s("a8db")),
                ("classId", s("c1")),
                ("price", obj(vec![("amount", s("100")), ("currency", s("USD"))])),
                ("createdAt", JsonValue::Int(5)),
            ])]),
        ),
        ("total", JsonValue::Int(1)),
    ]);
    let r = read_targets_page(ok(), Ok(doc)).ok().unwrap();
    assert_eq!(r.total, 1);
    let t = &r.objects[0];
    assert_eq!(t.price.as_ref().unwrap().amount, "100");
    assert_eq!(t.created_at, Some(5));
    assert_eq!(t.id, None);
}

fn profile_doc(labels: JsonValue) -> JsonValue {
    obj(vec![
        ("id", s("u1")),
        ("publicKey", s("pk")),
        ("sagaPublicKey", s("spk")),
        ("username", s("trader")),
        ("email", s("t@example.com")),
        ("isEmailVerified", b(true)),
        ("isPasswordSet", b(true)),
        ("imageUrl", s("img")),
        ("level", JsonValue::Int(7)),
        ("countryCodeFromIP", s("DE")),
        ("countryCode", s("DE")),
        (
            "settings",
            obj(vec![
                ("enabledDeviceConfirmation", b(false)),
                ("tradingApiToken", s("tok")),
                ("isSubscribedToNewsletters", b(false)),
                ("targetsLimit", JsonValue::Int(100)),
            ]),
        ),
        (
            "steamAccount",
            obj(vec![
                ("steamId", s("76561")),
                ("icon", s("i")),
                ("tradeUrl", s("url")),
                ("isValidTradeURL", b(true)),
                ("username", s("steam")),
                ("isProfilePrivate", b(false)),
                ("tradingStatus", s("ok")),
                ("level", JsonValue::Int(10)),
                ("apiKey", s("k")),
                ("apiKeyStatus", s("valid")),
            ]),
        ),
        ("agreementsInfo", obj(vec![("isConfirmed", b(true)), ("updated", JsonValue::Int(1))])),
        ("regType", s("email")),
        ("hasHistoryEvents", b(false)),
        ("ga_client_id", s("ga")),
        ("migrated", b(true)),
        ("hasActiveSubscriptions", b(false)),
        ("linkedGames", JsonValue::Array(vec![s("a8db"), s("9a92")])),
        ("features", JsonValue::Array(vec![obj(vec![("name", s("f")), ("enabled", b(true))])])),
        ("restrictions", JsonValue::Array(vec![])),
        ("twitchAccount", obj(vec![("userId", s("")), ("icon", s("")), ("username", s(""))])),
        ("instagramAccount", obj(vec![("userId", s("")), ("username", s(""))])),
        ("twitterAccount", obj(vec![("userId", s("")), ("username", s(""))])),
        ("ethereumAccount", obj(vec![("address", s("0x0"))])),
        ("labels", labels),
        ("storefront", obj(vec![("disabled", b(false)), ("alias", s("shop"))])),
        ("tinNotRequired", b(true)),
        ("promoToken", s("promo")),
    ])
}

#[test]
fn user_profile_decodes() {
    let p = read_user_profile(ok(), Ok(profile_doc(JsonValue::Array(vec![s("vip")])))).ok().unwrap();
    assert_eq!(p.username, "trader");
    assert_eq!(p.settings.targets_limit, 100);
    assert_eq!(p.steam_account.level, 10);
    assert_eq!(p.linked_games, vec!["a8db".to_string(), "9a92".to_string()]);
    assert_eq!(p.features[0].name, "f");
    assert!(matches!(p.labels, Some(JsonValue::Array(ref xs)) if xs.len() == 1));
    let p = read_user_profile(ok(), Ok(profile_doc(JsonValue::Null))).ok().unwrap();
    assert!(p.labels.is_none());
    let broken = obj(vec![("id", s("u1"))]);
    assert!(read_user_profile(ok(), Ok(broken)).is_err());
}

#[test]
fn raw_profile_text() {
    let r = read_raw_text(RawResponse { status: 200, body: "{\"id\":1}".to_string() }).ok().unwrap();
    assert_eq!(r, "{\"id\":1}");
    match read_raw_text(RawResponse { status: 401, body: "denied".to_string() }) {
        Err(DMarketError::ApiError { status, body }) => {
            assert_eq!(status, 401);
            assert_eq!(body, "denied");
        },
        _ => panic!("expected a status error"),
    }
}
