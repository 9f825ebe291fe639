//! Decoding of the DMarket user profile.
use vstd::prelude::*;
use crate::dmarket::error::{misshapen, read_document, undelivered, DMarketError};
use crate::dmarket::models::{
    AgreementsInfo, EthereumAccount, Feature, InstagramAccount, SteamAccount, Storefront,
    TwitchAccount, TwitterAccount, UserProfile, UserSettings,
};
use crate::executor::{delivered, is_success, RawResponse};
use crate::json::{
    bool_of, decode_text_list, field_error, i32_matches, i32_ok, int_of, is_absent, member,
    text_list_decodes, text_list_matches, text_of, JsonValue,
};

verus! {

/// Whether a feature flag decodes.
pub open spec fn feature_decodes(v: JsonValue) -> bool {
    &&& text_of(member(v, "name"@)) is Some
    &&& bool_of(member(v, "enabled"@)) is Some
}

/// Whether `r` is a feature flag `v`.
pub open spec fn feature_matches(r: Feature, v: JsonValue) -> bool {
    &&& text_of(member(v, "name"@)) == Some(r.name@)
    &&& bool_of(member(v, "enabled"@)) == Some(r.enabled)
}

pub fn decode_feature(v: &JsonValue) -> (r: Result<Feature, String>)
    ensures
        r is Ok <==> feature_decodes(*v),
        r matches Ok(x) ==> feature_matches(x, *v),
{
    Ok(Feature {
        name: v.text_member("name")?,
        enabled: v.bool_member("enabled")?,
    })
}

pub open spec fn feature_list_decodes(v: Option<JsonValue>) -> bool {
    match v {
        Some(JsonValue::Array(xs)) => forall|i: int|
            0 <= i < xs@.len() ==> #[trigger] feature_decodes(xs@[i]),
        _ => false,
    }
}

pub fn decode_feature_list(xs: &Vec<JsonValue>) -> (r: Result<Vec<Feature>, String>)
    ensures
        r is Ok <==> forall|i: int| 0 <= i < xs@.len() ==> #[trigger] feature_decodes(xs@[i]),
        r matches Ok(ys) ==> ys@.len() == xs@.len() && forall|i: int|
            0 <= i < xs@.len() ==> #[trigger] feature_matches(ys@[i], xs@[i]),
{
    let mut ys: Vec<Feature> = Vec::new();
    let mut i: usize = 0;
    while i < xs.len()
        invariant
            i <= xs@.len(),
            forall|j: int| 0 <= j < i ==> #[trigger] feature_decodes(xs@[j]),
            ys@.len() == i,
            forall|j: int| 0 <= j < i ==> #[trigger] feature_matches(ys@[j], xs@[j]),
        decreases xs@.len() - i,
    {
        let y = decode_feature(&xs[i])?;
        ys.push(y);
        i = i + 1;
    }
    Ok(ys)
}

/// Whether the user settings decodes.
pub open spec fn user_settings_decodes(v: JsonValue) -> bool {
    &&& bool_of(member(v, "enabledDeviceConfirmation"@)) is Some
    &&& text_of(member(v, "tradingApiToken"@)) is Some
    &&& bool_of(member(v, "isSubscribedToNewsletters"@)) is Some
    &&& i32_ok(member(v, "targetsLimit"@))
}

/// Whether `r` is the user settings `v`.
pub open spec fn user_settings_matches(r: UserSettings, v: JsonValue) -> bool {
    &&& bool_of(member(v, "enabledDeviceConfirmation"@)) == Some(r.enabled_device_confirmation)
    &&& text_of(member(v, "tradingApiToken"@)) == Some(r.trading_api_token@)
    &&& bool_of(member(v, "isSubscribedToNewsletters"@)) == Some(r.is_subscribed_to_newsletters)
    &&& i32_matches(r.targets_limit, member(v, "targetsLimit"@))
}

pub fn decode_user_settings(v: &JsonValue) -> (r: Result<UserSettings, String>)
    ensures
        r is Ok <==> user_settings_decodes(*v),
        r matches Ok(x) ==> user_settings_matches(x, *v),
{
    Ok(UserSettings {
        enabled_device_confirmation: v.bool_member("enabledDeviceConfirmation")?,
        trading_api_token: v.text_member("tradingApiToken")?,
        is_subscribed_to_newsletters: v.bool_member("isSubscribedToNewsletters")?,
        targets_limit: v.i32_member("targetsLimit")?,
    })
}

/// Whether the Steam account decodes.
pub open spec fn steam_account_decodes(v: JsonValue) -> bool {
    &&& text_of(member(v, "steamId"@)) is Some
    &&& text_of(member(v, "icon"@)) is Some
    &&& text_of(member(v, "tradeUrl"@)) is Some
    &&& bool_of(member(v, "isValidTradeURL"@)) is Some
    &&& text_of(member(v, "username"@)) is Some
    &&& bool_of(member(v, "isProfilePrivate"@)) is Some
    &&& text_of(member(v, "tradingStatus"@)) is Some
    &&& i32_ok(member(v, "level"@))
    &&& text_of(member(v, "apiKey"@)) is Some
    &&& text_of(member(v, "apiKeyStatus"@)) is Some
}

/// Whether `r` is the Steam account `v`.
pub open spec fn steam_account_matches(r: SteamAccount, v: JsonValue) -> bool {
    &&& text_of(member(v, "steamId"@)) == Some(r.steam_id@)
    &&& text_of(member(v, "icon"@)) == Some(r.icon@)
    &&& text_of(member(v, "tradeUrl"@)) == Some(r.trade_url@)
    &&& bool_of(member(v, "isValidTradeURL"@)) == Some(r.is_valid_trade_url)
    &&& text_of(member(v, "username"@)) == Some(r.username@)
    &&& bool_of(member(v, "isProfilePrivate"@)) == Some(r.is_profile_private)
    &&& text_of(member(v, "tradingStatus"@)) == Some(r.trading_status@)
    &&& i32_matches(r.level, member(v, "level"@))
    &&& text_of(member(v, "apiKey"@)) == Some(r.api_key@)
    &&& text_of(member(v, "apiKeyStatus"@)) == Some(r.api_key_status@)
}

pub fn decode_steam_account(v: &JsonValue) -> (r: Result<SteamAccount, String>)
    ensures
        r is Ok <==> steam_account_decodes(*v),
        r matches Ok(x) ==> steam_account_matches(x, *v),
{
    Ok(SteamAccount {
        steam_id: v.text_member("steamId")?,
        icon: v.text_member("icon")?,
        trade_url: v.text_member("tradeUrl")?,
        is_valid_trade_url: v.bool_member("isValidTradeURL")?,
        username: v.text_member("username")?,
        is_profile_private: v.bool_member("isProfilePrivate")?,
        trading_status: v.text_member("tradingStatus")?,
        level: v.i32_member("level")?,
        api_key: v.text_member("apiKey")?,
        api_key_status: v.text_member("apiKeyStatus")?,
    })
}

/// Whether the agreements record decodes.
pub open spec fn agreements_decodes(v: JsonValue) -> bool {
    &&& bool_of(member(v, "isConfirmed"@)) is Some
    &&& int_of(member(v, "updated"@)) is Some
}

/// Whether `r` is the agreements record `v`.
pub open spec fn agreements_matches(r: AgreementsInfo, v: JsonValue) -> bool {
    &&& bool_of(member(v, "isConfirmed"@)) == Some(r.is_confirmed)
    &&& int_of(member(v, "updated"@)) == Some(r.updated)
}

pub fn decode_agreements(v: &JsonValue) -> (r: Result<AgreementsInfo, String>)
    ensures
        r is Ok <==> agreements_decodes(*v),
        r matches Ok(x) ==> agreements_matches(x, *v),
{
    Ok(AgreementsInfo {
        is_confirmed: v.bool_member("isConfirmed")?,
        updated: v.i64_member("updated")?,
    })
}

/// Whether the Twitch account decodes.
pub open spec fn twitch_decodes(v: JsonValue) -> bool {
    &&& text_of(member(v, "userId"@)) is Some
    &&& text_of(member(v, "icon"@)) is Some
    &&& text_of(member(v, "username"@)) is Some
}

/// Whether `r` is the Twitch account `v`.
pub open spec fn twitch_matches(r: TwitchAccount, v: JsonValue) -> bool {
    &&& text_of(member(v, "userId"@)) == Some(r.user_id@)
    &&& text_of(member(v, "icon"@)) == Some(r.icon@)
    &&& text_of(member(v, "username"@)) == Some(r.username@)
}

pub fn decode_twitch(v: &JsonValue) -> (r: Result<TwitchAccount, String>)
    ensures
        r is Ok <==> twitch_decodes(*v),
        r matches Ok(x) ==> twitch_matches(x, *v),
{
    Ok(TwitchAccount {
        user_id: v.text_member("userId")?,
        icon: v.text_member("icon")?,
        username: v.text_member("username")?,
    })
}

/// Whether the Instagram account decodes.
pub open spec fn instagram_decodes(v: JsonValue) -> bool {
    &&& text_of(member(v, "userId"@)) is Some
    &&& text_of(member(v, "username"@)) is Some
}

/// Whether `r` is the Instagram account `v`.
pub open spec fn instagram_matches(r: InstagramAccount, v: JsonValue) -> bool {
    &&& text_of(member(v, "userId"@)) == Some(r.user_id@)
    &&& text_of(member(v, "username"@)) == Some(r.username@)
}

pub fn decode_instagram(v: &JsonValue) -> (r: Result<InstagramAccount, String>)
    ensures
        r is Ok <==> instagram_decodes(*v),
        r matches Ok(x) ==> instagram_matches(x, *v),
{
    Ok(InstagramAccount {
        user_id: v.text_member("userId")?,
        username: v.text_member("username")?,
    })
}

/// Whether the Twitter account decodes.
pub open spec fn twitter_decodes(v: JsonValue) -> bool {
    &&& text_of(member(v, "userId"@)) is Some
    &&& text_of(member(v, "username"@)) is Some
}

/// Whether `r` is the Twitter account `v`.
pub open spec fn twitter_matches(r: TwitterAccount, v: JsonValue) -> bool {
    &&& text_of(member(v, "userId"@)) == Some(r.user_id@)
    &&& text_of(member(v, "username"@)) == Some(r.username@)
}

pub fn decode_twitter(v: &JsonValue) -> (r: Result<TwitterAccount, String>)
    ensures
        r is Ok <==> twitter_decodes(*v),
        r matches Ok(x) ==> twitter_matches(x, *v),
{
    Ok(TwitterAccount {
        user_id: v.text_member("userId")?,
        username: v.text_member("username")?,
    })
}

/// Whether the Ethereum account decodes.
pub open spec fn ethereum_decodes(v: JsonValue) -> bool {
    &&& text_of(member(v, "address"@)) is Some
}

/// Whether `r` is the Ethereum account `v`.
pub open spec fn ethereum_matches(r: EthereumAccount, v: JsonValue) -> bool {
    &&& text_of(member(v, "address"@)) == Some(r.address@)
}

pub fn decode_ethereum(v: &JsonValue) -> (r: Result<EthereumAccount, String>)
    ensures
        r is Ok <==> ethereum_decodes(*v),
        r matches Ok(x) ==> ethereum_matches(x, *v),
{
    Ok(EthereumAccount {
        address: v.text_member("address")?,
    })
}

/// Whether the storefront decodes.
pub open spec fn storefront_decodes(v: JsonValue) -> bool {
    &&& bool_of(member(v, "disabled"@)) is Some
    &&& text_of(member(v, "alias"@)) is Some
}

/// Whether `r` is the storefront `v`.
pub open spec fn storefront_matches(r: Storefront, v: JsonValue) -> bool {
    &&& bool_of(member(v, "disabled"@)) == Some(r.disabled)
    &&& text_of(member(v, "alias"@)) == Some(r.alias@)
}

pub fn decode_storefront(v: &JsonValue) -> (r: Result<Storefront, String>)
    ensures
        r is Ok <==> storefront_decodes(*v),
        r matches Ok(x) ==> storefront_matches(x, *v),
{
    Ok(Storefront {
        disabled: v.bool_member("disabled")?,
        alias: v.text_member("alias")?,
    })
}

/// Whether a user profile decodes.
pub open spec fn user_profile_decodes(v: JsonValue) -> bool {
    &&& text_of(member(v, "id"@)) is Some
    &&& text_of(member(v, "publicKey"@)) is Some
    &&& text_of(member(v, "sagaPublicKey"@)) is Some
    &&& text_of(member(v, "username"@)) is Some
    &&& text_of(member(v, "email"@)) is Some
    &&& bool_of(member(v, "isEmailVerified"@)) is Some
    &&& bool_of(member(v, "isPasswordSet"@)) is Some
    &&& text_of(member(v, "imageUrl"@)) is Some
    &&& i32_ok(member(v, "level"@))
    &&& text_of(member(v, "countryCodeFromIP"@)) is Some
    &&& text_of(member(v, "countryCode"@)) is Some
    &&& text_of(member(v, "regType"@)) is Some
    &&& bool_of(member(v, "hasHistoryEvents"@)) is Some
    &&& text_of(member(v, "ga_client_id"@)) is Some
    &&& bool_of(member(v, "migrated"@)) is Some
    &&& bool_of(member(v, "hasActiveSubscriptions"@)) is Some
    &&& bool_of(member(v, "tinNotRequired"@)) is Some
    &&& text_of(member(v, "promoToken"@)) is Some
    &&& member(v, "settings"@) matches Some(x) && x is Object && user_settings_decodes(x)
    &&& member(v, "steamAccount"@) matches Some(x) && x is Object && steam_account_decodes(x)
    &&& member(v, "agreementsInfo"@) matches Some(x) && x is Object && agreements_decodes(x)
    &&& text_list_decodes(member(v, "linkedGames"@))
    &&& feature_list_decodes(member(v, "features"@))
    &&& text_list_decodes(member(v, "restrictions"@))
    &&& member(v, "twitchAccount"@) matches Some(x) && x is Object && twitch_decodes(x)
    &&& member(v, "instagramAccount"@) matches Some(x) && x is Object && instagram_decodes(x)
    &&& member(v, "twitterAccount"@) matches Some(x) && x is Object && twitter_decodes(x)
    &&& member(v, "ethereumAccount"@) matches Some(x) && x is Object && ethereum_decodes(x)
    &&& member(v, "storefront"@) matches Some(x) && x is Object && storefront_decodes(x)
}

/// Whether `r` is a user profile `v`.
pub open spec fn user_profile_matches(r: UserProfile, v: JsonValue) -> bool {
    &&& text_of(member(v, "id"@)) == Some(r.id@)
    &&& text_of(member(v, "publicKey"@)) == Some(r.public_key@)
    &&& text_of(member(v, "sagaPublicKey"@)) == Some(r.saga_public_key@)
    &&& text_of(member(v, "username"@)) == Some(r.username@)
    &&& text_of(member(v, "email"@)) == Some(r.email@)
    &&& bool_of(member(v, "isEmailVerified"@)) == Some(r.is_email_verified)
    &&& bool_of(member(v, "isPasswordSet"@)) == Some(r.is_password_set)
    &&& text_of(member(v, "imageUrl"@)) == Some(r.image_url@)
    &&& i32_matches(r.level, member(v, "level"@))
    &&& text_of(member(v, "countryCodeFromIP"@)) == Some(r.country_code_from_ip@)
    &&& text_of(member(v, "countryCode"@)) == Some(r.country_code@)
    &&& text_of(member(v, "regType"@)) == Some(r.reg_type@)
    &&& bool_of(member(v, "hasHistoryEvents"@)) == Some(r.has_history_events)
    &&& text_of(member(v, "ga_client_id"@)) == Some(r.ga_client_id@)
    &&& bool_of(member(v, "migrated"@)) == Some(r.migrated)
    &&& bool_of(member(v, "hasActiveSubscriptions"@)) == Some(r.has_active_subscriptions)
    &&& bool_of(member(v, "tinNotRequired"@)) == Some(r.tin_not_required)
    &&& text_of(member(v, "promoToken"@)) == Some(r.promo_token@)
    &&& member(v, "settings"@) matches Some(x) && user_settings_matches(r.settings, x)
    &&& member(v, "steamAccount"@) matches Some(x) && steam_account_matches(r.steam_account, x)
    &&& member(v, "agreementsInfo"@) matches Some(x) && agreements_matches(r.agreements_info, x)
    &&& text_list_matches(r.linked_games@, member(v, "linkedGames"@))
    &&& member(v, "features"@) matches Some(JsonValue::Array(xs)) && r.features@.len() == xs@.len()
        && forall|i: int| 0 <= i < xs@.len() ==> #[trigger] feature_matches(r.features@[i], xs@[i])
    &&& text_list_matches(r.restrictions@, member(v, "restrictions"@))
    &&& member(v, "twitchAccount"@) matches Some(x) && twitch_matches(r.twitch_account, x)
    &&& member(v, "instagramAccount"@) matches Some(x) && instagram_matches(r.instagram_account, x)
    &&& member(v, "twitterAccount"@) matches Some(x) && twitter_matches(r.twitter_account, x)
    &&& member(v, "ethereumAccount"@) matches Some(x) && ethereum_matches(r.ethereum_account, x)
    &&& r.labels == if is_absent(member(v, "labels"@)) {
        None
    } else {
        member(v, "labels"@)
    }
    &&& member(v, "storefront"@) matches Some(x) && storefront_matches(r.storefront, x)
}

pub fn decode_user_profile(v: JsonValue) -> (r: Result<UserProfile, String>)
    ensures
        r is Ok <==> user_profile_decodes(v),
        r matches Ok(x) ==> user_profile_matches(x, v),
{
    let settings_value = match v.get("settings") {
        Some(x) => match x {
            JsonValue::Object(_) => decode_user_settings(x)?,
            _ => return Err(field_error("settings")),
        },
        None => return Err(field_error("settings")),
    };
    let steam_account_value = match v.get("steamAccount") {
        Some(x) => match x {
            JsonValue::Object(_) => decode_steam_account(x)?,
            _ => return Err(field_error("steamAccount")),
        },
        None => return Err(field_error("steamAccount")),
    };
    let agreements_info_value = match v.get("agreementsInfo") {
        Some(x) => match x {
            JsonValue::Object(_) => decode_agreements(x)?,
            _ => return Err(field_error("agreementsInfo")),
        },
        None => return Err(field_error("agreementsInfo")),
    };
    let linked_games_value = match v.get("linkedGames") {
        Some(JsonValue::Array(xs)) => decode_text_list(xs)?,
        _ => return Err(field_error("linkedGames")),
    };
    let features_list = match v.get("features") {
        Some(JsonValue::Array(xs)) => decode_feature_list(xs)?,
        _ => return Err(field_error("features")),
    };
    let restrictions_value = match v.get("restrictions") {
        Some(JsonValue::Array(xs)) => decode_text_list(xs)?,
        _ => return Err(field_error("restrictions")),
    };
    let twitch_account_value = match v.get("twitchAccount") {
        Some(x) => match x {
            JsonValue::Object(_) => decode_twitch(x)?,
            _ => return Err(field_error("twitchAccount")),
        },
        None => return Err(field_error("twitchAccount")),
    };
    let instagram_account_value = match v.get("instagramAccount") {
        Some(x) => match x {
            JsonValue::Object(_) => decode_instagram(x)?,
            _ => return Err(field_error("instagramAccount")),
        },
        None => return Err(field_error("instagramAccount")),
    };
    let twitter_account_value = match v.get("twitterAccount") {
        Some(x) => match x {
            JsonValue::Object(_) => decode_twitter(x)?,
            _ => return Err(field_error("twitterAccount")),
        },
        None => return Err(field_error("twitterAccount")),
    };
    let ethereum_account_value = match v.get("ethereumAccount") {
        Some(x) => match x {
            JsonValue::Object(_) => decode_ethereum(x)?,
            _ => return Err(field_error("ethereumAccount")),
        },
        None => return Err(field_error("ethereumAccount")),
    };
    let storefront_value = match v.get("storefront") {
        Some(x) => match x {
            JsonValue::Object(_) => decode_storefront(x)?,
            _ => return Err(field_error("storefront")),
        },
        None => return Err(field_error("storefront")),
    };
    let id_value = v.text_member("id")?;
    let public_key_value = v.text_member("publicKey")?;
    let saga_public_key_value = v.text_member("sagaPublicKey")?;
    let username_value = v.text_member("username")?;
    let email_value = v.text_member("email")?;
    let is_email_verified_value = v.bool_member("isEmailVerified")?;
    let is_password_set_value = v.bool_member("isPasswordSet")?;
    let image_url_value = v.text_member("imageUrl")?;
    let level_value = v.i32_member("level")?;
    let country_code_from_ip_value = v.text_member("countryCodeFromIP")?;
    let country_code_value = v.text_member("countryCode")?;
    let reg_type_value = v.text_member("regType")?;
    let has_history_events_value = v.bool_member("hasHistoryEvents")?;
    let ga_client_id_value = v.text_member("ga_client_id")?;
    let migrated_value = v.bool_member("migrated")?;
    let has_active_subscriptions_value = v.bool_member("hasActiveSubscriptions")?;
    let features_value = features_list;
    let tin_not_required_value = v.bool_member("tinNotRequired")?;
    let promo_token_value = v.text_member("promoToken")?;
    let labels_value = match v.into_member("labels") {
        None => None,
        Some(JsonValue::Null) => None,
        Some(x) => Some(x),
    };
    Ok(UserProfile {
        id: id_value,
        public_key: public_key_value,
        saga_public_key: saga_public_key_value,
        username: username_value,
        email: email_value,
        is_email_verified: is_email_verified_value,
        is_password_set: is_password_set_value,
        image_url: image_url_value,
        level: level_value,
        country_code_from_ip: country_code_from_ip_value,
        country_code: country_code_value,
        settings: settings_value,
        steam_account: steam_account_value,
        agreements_info: agreements_info_value,
        reg_type: reg_type_value,
        has_history_events: has_history_events_value,
        ga_client_id: ga_client_id_value,
        migrated: migrated_value,
        has_active_subscriptions: has_active_subscriptions_value,
        linked_games: linked_games_value,
        features: features_value,
        restrictions: restrictions_value,
        twitch_account: twitch_account_value,
        instagram_account: instagram_account_value,
        twitter_account: twitter_account_value,
        ethereum_account: ethereum_account_value,
        labels: labels_value,
        storefront: storefront_value,
        tin_not_required: tin_not_required_value,
        promo_token: promo_token_value,
    })
}

/// The user profile that a response carries, or the client error for it.
pub fn read_user_profile(response: RawResponse, decoded: Result<JsonValue, String>) -> (r: Result<
    UserProfile,
    DMarketError,
>)
    ensures
        match delivered(response, decoded) {
            Some(doc) => {
                &&& r is Ok <==> user_profile_decodes(doc)
                &&& r matches Ok(x) ==> user_profile_matches(x, doc)
                &&& r matches Err(e) ==> misshapen(response, e)
            },
            None => r matches Err(e) && undelivered(response, decoded, e),
        },
{
    let doc = read_document(&response, decoded)?;
    match decode_user_profile(doc) {
        Ok(x) => Ok(x),
        Err(d) => Err(DMarketError::JsonError { diagnostic: d, raw: response.body }),
    }
}

/// The body of a 2xx response as text, kept verbatim; a status error
/// otherwise.
pub fn read_raw_text(response: RawResponse) -> (r: Result<String, DMarketError>)
    ensures
        is_success(response.status) ==> (r matches Ok(t) && t@ == response.body@),
        !is_success(response.status) ==> (r matches Err(DMarketError::ApiError { status, body })
            && status == response.status && body@ == response.body@),
{
    if 200 <= response.status && response.status < 300 {
        Ok(response.body)
    } else {
        Err(DMarketError::ApiError { status: response.status, body: response.body })
    }
}

} // verus!
