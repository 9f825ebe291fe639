//! Decoding of CSFloat listing documents into the typed models.
use vstd::prelude::*;
use crate::csfloat::models::{
    Item, Listing, ListingResponse, ListingState, ListingType, Price, Reference, Seller,
    SellerStatistics, Sticker, StickerReference,
};
use crate::json::{
    bool_of, decode_text_list, field_error, i32_matches, i32_ok, int_of, is_absent, member,
    opt_bool_matches, opt_bool_ok, opt_i32_matches, opt_i32_ok, opt_i64_matches, opt_i64_ok,
    opt_numeric_matches, opt_numeric_ok, opt_object_ok, opt_text_matches, opt_text_ok,
    text_eq, text_list_decodes, text_list_matches, text_of, JsonValue,
};

verus! {

/// The listing type that a member names: `buy_now` or `auction`.
pub open spec fn listing_type_of(v: Option<JsonValue>) -> Option<ListingType> {
    match text_of(v) {
        Some(t) => if t == "buy_now"@ {
            Some(ListingType::BuyNow)
        } else if t == "auction"@ {
            Some(ListingType::Auction)
        } else {
            None
        },
        None => None,
    }
}

/// The listing state that a member names.
pub open spec fn listing_state_of(v: Option<JsonValue>) -> Option<ListingState> {
    match text_of(v) {
        Some(t) => if t == "listed"@ {
            Some(ListingState::Listed)
        } else if t == "sold"@ {
            Some(ListingState::Sold)
        } else if t == "cancelled"@ {
            Some(ListingState::Cancelled)
        } else if t == "expired"@ {
            Some(ListingState::Expired)
        } else {
            None
        },
        None => None,
    }
}

pub fn decode_listing_type(v: &JsonValue, key: &str) -> (r: Result<ListingType, String>)
    ensures
        r is Ok <==> listing_type_of(member(*v, key@)) is Some,
        r matches Ok(t) ==> listing_type_of(member(*v, key@)) == Some(t),
{
    match v.get(key) {
        Some(JsonValue::Str(s)) => if text_eq(s.as_str(), "buy_now") {
            Ok(ListingType::BuyNow)
        } else if text_eq(s.as_str(), "auction") {
            Ok(ListingType::Auction)
        } else {
            Err(field_error(key))
        },
        _ => Err(field_error(key)),
    }
}

pub fn decode_listing_state(v: &JsonValue, key: &str) -> (r: Result<ListingState, String>)
    ensures
        r is Ok <==> listing_state_of(member(*v, key@)) is Some,
        r matches Ok(t) ==> listing_state_of(member(*v, key@)) == Some(t),
{
    match v.get(key) {
        Some(JsonValue::Str(s)) => if text_eq(s.as_str(), "listed") {
            Ok(ListingState::Listed)
        } else if text_eq(s.as_str(), "sold") {
            Ok(ListingState::Sold)
        } else if text_eq(s.as_str(), "cancelled") {
            Ok(ListingState::Cancelled)
        } else if text_eq(s.as_str(), "expired") {
            Ok(ListingState::Expired)
        } else {
            Err(field_error(key))
        },
        _ => Err(field_error(key)),
    }
}

/// Whether a price decodes.
pub open spec fn price_decodes(v: JsonValue) -> bool {
    &&& int_of(member(v, "amount"@)) is Some
    &&& text_of(member(v, "currency"@)) is Some
}

/// Whether `r` is a price `v`.
pub open spec fn price_matches(r: Price, v: JsonValue) -> bool {
    &&& int_of(member(v, "amount"@)) == Some(r.amount)
    &&& text_of(member(v, "currency"@)) == Some(r.currency@)
}

pub fn decode_price(v: &JsonValue) -> (r: Result<Price, String>)
    ensures
        r is Ok <==> price_decodes(*v),
        r matches Ok(x) ==> price_matches(x, *v),
{
    Ok(Price {
        amount: v.i64_member("amount")?,
        currency: v.text_member("currency")?,
    })
}

/// Whether a sticker reference decodes.
pub open spec fn sticker_reference_decodes(v: JsonValue) -> bool {
    &&& opt_i64_ok(member(v, "price"@))
    &&& opt_i64_ok(member(v, "quantity"@))
    &&& opt_text_ok(member(v, "updated_at"@))
}

/// Whether `r` is a sticker reference `v`.
pub open spec fn sticker_reference_matches(r: StickerReference, v: JsonValue) -> bool {
    &&& opt_i64_matches(r.price, member(v, "price"@))
    &&& opt_i64_matches(r.quantity, member(v, "quantity"@))
    &&& opt_text_matches(r.updated_at, member(v, "updated_at"@))
}

pub fn decode_sticker_reference(v: &JsonValue) -> (r: Result<StickerReference, String>)
    ensures
        r is Ok <==> sticker_reference_decodes(*v),
        r matches Ok(x) ==> sticker_reference_matches(x, *v),
{
    Ok(StickerReference {
        price: v.opt_i64_member("price")?,
        quantity: v.opt_i64_member("quantity")?,
        updated_at: v.opt_text_member("updated_at")?,
    })
}

/// Whether a sticker decodes.
pub open spec fn sticker_decodes(v: JsonValue) -> bool {
    &&& i32_ok(member(v, "stickerId"@))
    &&& i32_ok(member(v, "slot"@))
    &&& opt_numeric_ok(member(v, "wear"@))
    &&& text_of(member(v, "icon_url"@)) is Some
    &&& text_of(member(v, "name"@)) is Some
    &&& opt_object_ok(member(v, "scm"@), |x: JsonValue| price_decodes(x))
    &&& opt_object_ok(member(v, "reference"@), |x: JsonValue| sticker_reference_decodes(x))
}

/// Whether `r` is a sticker `v`.
pub open spec fn sticker_matches(r: Sticker, v: JsonValue) -> bool {
    &&& i32_matches(r.sticker_id, member(v, "stickerId"@))
    &&& i32_matches(r.slot, member(v, "slot"@))
    &&& opt_numeric_matches(r.wear, member(v, "wear"@))
    &&& text_of(member(v, "icon_url"@)) == Some(r.icon_url@)
    &&& text_of(member(v, "name"@)) == Some(r.name@)
    &&& match r.scm {
        Some(p) => member(v, "scm"@) matches Some(x) && price_matches(p, x),
        None => is_absent(member(v, "scm"@)),
    }
    &&& match r.reference {
        Some(p) => member(v, "reference"@) matches Some(x) && sticker_reference_matches(p, x),
        None => is_absent(member(v, "reference"@)),
    }
}

pub fn decode_sticker(v: &JsonValue) -> (r: Result<Sticker, String>)
    ensures
        r is Ok <==> sticker_decodes(*v),
        r matches Ok(x) ==> sticker_matches(x, *v),
{
    let scm_value = match v.get("scm") {
        None => None,
        Some(JsonValue::Null) => None,
        Some(x) => match x {
            JsonValue::Object(_) => Some(decode_price(x)?),
            _ => return Err(field_error("scm")),
        },
    };
    let reference_value = match v.get("reference") {
        None => None,
        Some(JsonValue::Null) => None,
        Some(x) => match x {
            JsonValue::Object(_) => Some(decode_sticker_reference(x)?),
            _ => return Err(field_error("reference")),
        },
    };
    Ok(Sticker {
        sticker_id: v.i32_member("stickerId")?,
        slot: v.i32_member("slot")?,
        wear: v.opt_numeric_member("wear")?,
        icon_url: v.text_member("icon_url")?,
        name: v.text_member("name")?,
        scm: scm_value,
        reference: reference_value,
    })
}

pub open spec fn sticker_list_decodes(v: Option<JsonValue>) -> bool {
    match v {
        Some(JsonValue::Array(xs)) => forall|i: int|
            0 <= i < xs@.len() ==> #[trigger] sticker_decodes(xs@[i]),
        _ => false,
    }
}

pub fn decode_sticker_list(xs: &Vec<JsonValue>) -> (r: Result<Vec<Sticker>, String>)
    ensures
        r is Ok <==> forall|i: int| 0 <= i < xs@.len() ==> #[trigger] sticker_decodes(xs@[i]),
        r matches Ok(ys) ==> ys@.len() == xs@.len() && forall|i: int|
            0 <= i < xs@.len() ==> #[trigger] sticker_matches(ys@[i], xs@[i]),
{
    let mut ys: Vec<Sticker> = Vec::new();
    let mut i: usize = 0;
    while i < xs.len()
        invariant
            i <= xs@.len(),
            forall|j: int| 0 <= j < i ==> #[trigger] sticker_decodes(xs@[j]),
            ys@.len() == i,
            forall|j: int| 0 <= j < i ==> #[trigger] sticker_matches(ys@[j], xs@[j]),
        decreases xs@.len() - i,
    {
        let y = decode_sticker(&xs[i])?;
        ys.push(y);
        i = i + 1;
    }
    Ok(ys)
}

/// Whether a listed item decodes.
pub open spec fn item_decodes(v: JsonValue) -> bool {
    &&& text_of(member(v, "asset_id"@)) is Some
    &&& opt_i32_ok(member(v, "def_index"@))
    &&& opt_i32_ok(member(v, "paint_index"@))
    &&& opt_i32_ok(member(v, "paint_seed"@))
    &&& opt_numeric_ok(member(v, "float_value"@))
    &&& text_of(member(v, "icon_url"@)) is Some
    &&& opt_text_ok(member(v, "d_param"@))
    &&& opt_bool_ok(member(v, "is_stattrak"@))
    &&& opt_bool_ok(member(v, "is_souvenir"@))
    &&& opt_i32_ok(member(v, "rarity"@))
    &&& opt_i32_ok(member(v, "quality"@))
    &&& text_of(member(v, "market_hash_name"@)) is Some
    &&& opt_i32_ok(member(v, "tradable"@))
    &&& opt_text_ok(member(v, "inspect_link"@))
    &&& opt_bool_ok(member(v, "has_screenshot"@))
    &&& opt_text_ok(member(v, "item_name"@))
    &&& opt_text_ok(member(v, "wear_name"@))
    &&& opt_text_ok(member(v, "description"@))
    &&& opt_text_ok(member(v, "collection"@))
    &&& opt_bool_ok(member(v, "is_commodity"@))
    &&& opt_text_ok(member(v, "type_"@))
    &&& opt_text_ok(member(v, "rarity_name"@))
    &&& opt_text_ok(member(v, "type_name"@))
    &&& (member(v, "stickers"@) is None || sticker_list_decodes(member(v, "stickers"@)))
    &&& opt_object_ok(member(v, "scm"@), |x: JsonValue| price_decodes(x))
    &&& (member(v, "badges"@) is None || text_list_decodes(member(v, "badges"@)))
}

/// Whether `r` is a listed item `v`.
pub open spec fn item_matches(r: Item, v: JsonValue) -> bool {
    &&& text_of(member(v, "asset_id"@)) == Some(r.asset_id@)
    &&& opt_i32_matches(r.def_index, member(v, "def_index"@))
    &&& opt_i32_matches(r.paint_index, member(v, "paint_index"@))
    &&& opt_i32_matches(r.paint_seed, member(v, "paint_seed"@))
    &&& opt_numeric_matches(r.float_value, member(v, "float_value"@))
    &&& text_of(member(v, "icon_url"@)) == Some(r.icon_url@)
    &&& opt_text_matches(r.d_param, member(v, "d_param"@))
    &&& opt_bool_matches(r.is_stattrak, member(v, "is_stattrak"@))
    &&& opt_bool_matches(r.is_souvenir, member(v, "is_souvenir"@))
    &&& opt_i32_matches(r.rarity, member(v, "rarity"@))
    &&& opt_i32_matches(r.quality, member(v, "quality"@))
    &&& text_of(member(v, "market_hash_name"@)) == Some(r.market_hash_name@)
    &&& opt_i32_matches(r.tradable, member(v, "tradable"@))
    &&& opt_text_matches(r.inspect_link, member(v, "inspect_link"@))
    &&& opt_bool_matches(r.has_screenshot, member(v, "has_screenshot"@))
    &&& opt_text_matches(r.item_name, member(v, "item_name"@))
    &&& opt_text_matches(r.wear_name, member(v, "wear_name"@))
    &&& opt_text_matches(r.description, member(v, "description"@))
    &&& opt_text_matches(r.collection, member(v, "collection"@))
    &&& opt_bool_matches(r.is_commodity, member(v, "is_commodity"@))
    &&& opt_text_matches(r.type_, member(v, "type_"@))
    &&& opt_text_matches(r.rarity_name, member(v, "rarity_name"@))
    &&& opt_text_matches(r.item_type_name, member(v, "type_name"@))
    &&& match member(v, "stickers"@) {
        None => r.stickers@.len() == 0,
        Some(JsonValue::Array(xs)) => r.stickers@.len() == xs@.len() && forall|i: int|
            0 <= i < xs@.len() ==> #[trigger] sticker_matches(r.stickers@[i], xs@[i]),
        _ => false,
    }
    &&& match r.scm {
        Some(p) => member(v, "scm"@) matches Some(x) && price_matches(p, x),
        None => is_absent(member(v, "scm"@)),
    }
    &&& if member(v, "badges"@) is None {
        r.badges@.len() == 0
    } else {
        text_list_matches(r.badges@, member(v, "badges"@))
    }
}

pub fn decode_item(v: &JsonValue) -> (r: Result<Item, String>)
    ensures
        r is Ok <==> item_decodes(*v),
        r matches Ok(x) ==> item_matches(x, *v),
{
    let stickers_value = match v.get("stickers") {
        None => Vec::new(),
        Some(JsonValue::Array(xs)) => decode_sticker_list(xs)?,
        Some(_) => return Err(field_error("stickers")),
    };
    let scm_value = match v.get("scm") {
        None => None,
        Some(JsonValue::Null) => None,
        Some(x) => match x {
            JsonValue::Object(_) => Some(decode_price(x)?),
            _ => return Err(field_error("scm")),
        },
    };
    let badges_value = match v.get("badges") {
        None => Vec::new(),
        Some(JsonValue::Array(xs)) => decode_text_list(xs)?,
        Some(_) => return Err(field_error("badges")),
    };
    Ok(Item {
        asset_id: v.text_member("asset_id")?,
        def_index: v.opt_i32_member("def_index")?,
        paint_index: v.opt_i32_member("paint_index")?,
        paint_seed: v.opt_i32_member("paint_seed")?,
        float_value: v.opt_numeric_member("float_value")?,
        icon_url: v.text_member("icon_url")?,
        d_param: v.opt_text_member("d_param")?,
        is_stattrak: v.opt_bool_member("is_stattrak")?,
        is_souvenir: v.opt_bool_member("is_souvenir")?,
        rarity: v.opt_i32_member("rarity")?,
        quality: v.opt_i32_member("quality")?,
        market_hash_name: v.text_member("market_hash_name")?,
        stickers: stickers_value,
        tradable: v.opt_i32_member("tradable")?,
        inspect_link: v.opt_text_member("inspect_link")?,
        has_screenshot: v.opt_bool_member("has_screenshot")?,
        scm: scm_value,
        item_name: v.opt_text_member("item_name")?,
        wear_name: v.opt_text_member("wear_name")?,
        description: v.opt_text_member("description")?,
        collection: v.opt_text_member("collection")?,
        badges: badges_value,
        is_commodity: v.opt_bool_member("is_commodity")?,
        type_: v.opt_text_member("type_")?,
        rarity_name: v.opt_text_member("rarity_name")?,
        item_type_name: v.opt_text_member("type_name")?,
    })
}

/// Whether the seller statistics decodes.
pub open spec fn seller_statistics_decodes(v: JsonValue) -> bool {
    &&& i32_ok(member(v, "median_trade_time"@))
    &&& i32_ok(member(v, "total_failed_trades"@))
    &&& i32_ok(member(v, "total_trades"@))
    &&& i32_ok(member(v, "total_verified_trades"@))
    &&& opt_i32_ok(member(v, "total_avoided_trades"@))
}

/// Whether `r` is the seller statistics `v`.
pub open spec fn seller_statistics_matches(r: SellerStatistics, v: JsonValue) -> bool {
    &&& i32_matches(r.median_trade_time, member(v, "median_trade_time"@))
    &&& i32_matches(r.total_failed_trades, member(v, "total_failed_trades"@))
    &&& i32_matches(r.total_trades, member(v, "total_trades"@))
    &&& i32_matches(r.total_verified_trades, member(v, "total_verified_trades"@))
    &&& opt_i32_matches(r.total_avoided_trades, member(v, "total_avoided_trades"@))
}

pub fn decode_seller_statistics(v: &JsonValue) -> (r: Result<SellerStatistics, String>)
    ensures
        r is Ok <==> seller_statistics_decodes(*v),
        r matches Ok(x) ==> seller_statistics_matches(x, *v),
{
    Ok(SellerStatistics {
        median_trade_time: v.i32_member("median_trade_time")?,
        total_failed_trades: v.i32_member("total_failed_trades")?,
        total_trades: v.i32_member("total_trades")?,
        total_verified_trades: v.i32_member("total_verified_trades")?,
        total_avoided_trades: v.opt_i32_member("total_avoided_trades")?,
    })
}

/// Whether a seller decodes.
pub open spec fn seller_decodes(v: JsonValue) -> bool {
    &&& opt_text_ok(member(v, "avatar"@))
    &&& i32_ok(member(v, "flags"@))
    &&& bool_of(member(v, "online"@)) is Some
    &&& bool_of(member(v, "stall_public"@)) is Some
    &&& opt_text_ok(member(v, "steam_id"@))
    &&& opt_text_ok(member(v, "username"@))
    &&& opt_bool_ok(member(v, "away"@))
    &&& opt_bool_ok(member(v, "has_valid_steam_api_key"@))
    &&& opt_text_ok(member(v, "obfuscated_id"@))
    &&& member(v, "statistics"@) matches Some(x) && x is Object && seller_statistics_decodes(x)
}

/// Whether `r` is a seller `v`.
pub open spec fn seller_matches(r: Seller, v: JsonValue) -> bool {
    &&& opt_text_matches(r.avatar, member(v, "avatar"@))
    &&& i32_matches(r.flags, member(v, "flags"@))
    &&& bool_of(member(v, "online"@)) == Some(r.online)
    &&& bool_of(member(v, "stall_public"@)) == Some(r.stall_public)
    &&& opt_text_matches(r.steam_id, member(v, "steam_id"@))
    &&& opt_text_matches(r.username, member(v, "username"@))
    &&& opt_bool_matches(r.away, member(v, "away"@))
    &&& opt_bool_matches(r.has_valid_steam_api_key, member(v, "has_valid_steam_api_key"@))
    &&& opt_text_matches(r.obfuscated_id, member(v, "obfuscated_id"@))
    &&& member(v, "statistics"@) matches Some(x) && seller_statistics_matches(r.statistics, x)
}

pub fn decode_seller(v: &JsonValue) -> (r: Result<Seller, String>)
    ensures
        r is Ok <==> seller_decodes(*v),
        r matches Ok(x) ==> seller_matches(x, *v),
{
    let statistics_value = match v.get("statistics") {
        Some(x) => match x {
            JsonValue::Object(_) => decode_seller_statistics(x)?,
            _ => return Err(field_error("statistics")),
        },
        None => return Err(field_error("statistics")),
    };
    Ok(Seller {
        avatar: v.opt_text_member("avatar")?,
        flags: v.i32_member("flags")?,
        online: v.bool_member("online")?,
        stall_public: v.bool_member("stall_public")?,
        statistics: statistics_value,
        steam_id: v.opt_text_member("steam_id")?,
        username: v.opt_text_member("username")?,
        away: v.opt_bool_member("away")?,
        has_valid_steam_api_key: v.opt_bool_member("has_valid_steam_api_key")?,
        obfuscated_id: v.opt_text_member("obfuscated_id")?,
    })
}

/// Whether a price reference decodes.
pub open spec fn reference_decodes(v: JsonValue) -> bool {
    &&& opt_i64_ok(member(v, "base_price"@))
    &&& opt_i64_ok(member(v, "predicted_price"@))
    &&& opt_i64_ok(member(v, "quantity"@))
    &&& opt_text_ok(member(v, "last_updated"@))
    &&& opt_numeric_ok(member(v, "float_factor"@))
}

/// Whether `r` is a price reference `v`.
pub open spec fn reference_matches(r: Reference, v: JsonValue) -> bool {
    &&& opt_i64_matches(r.base_price, member(v, "base_price"@))
    &&& opt_i64_matches(r.predicted_price, member(v, "predicted_price"@))
    &&& opt_i64_matches(r.quantity, member(v, "quantity"@))
    &&& opt_text_matches(r.last_updated, member(v, "last_updated"@))
    &&& opt_numeric_matches(r.float_factor, member(v, "float_factor"@))
}

pub fn decode_reference(v: &JsonValue) -> (r: Result<Reference, String>)
    ensures
        r is Ok <==> reference_decodes(*v),
        r matches Ok(x) ==> reference_matches(x, *v),
{
    Ok(Reference {
        base_price: v.opt_i64_member("base_price")?,
        predicted_price: v.opt_i64_member("predicted_price")?,
        quantity: v.opt_i64_member("quantity")?,
        last_updated: v.opt_text_member("last_updated")?,
        float_factor: v.opt_numeric_member("float_factor")?,
    })
}

/// Whether a listing decodes.
pub open spec fn listing_decodes(v: JsonValue) -> bool {
    &&& text_of(member(v, "id"@)) is Some
    &&& text_of(member(v, "created_at"@)) is Some
    &&& int_of(member(v, "price"@)) is Some
    &&& bool_of(member(v, "is_seller"@)) is Some
    &&& opt_i64_ok(member(v, "min_offer_price"@))
    &&& opt_i64_ok(member(v, "max_offer_discount"@))
    &&& bool_of(member(v, "is_watchlisted"@)) is Some
    &&& i32_ok(member(v, "watchers"@))
    &&& opt_text_ok(member(v, "description"@))
    &&& listing_type_of(member(v, "type"@)) is Some
    &&& listing_state_of(member(v, "state"@)) is Some
    &&& member(v, "seller"@) matches Some(x) && x is Object && seller_decodes(x)
    &&& member(v, "item"@) matches Some(x) && x is Object && item_decodes(x)
    &&& opt_object_ok(member(v, "reference"@), |x: JsonValue| reference_decodes(x))
}

/// Whether `r` is a listing `v`.
pub open spec fn listing_matches(r: Listing, v: JsonValue) -> bool {
    &&& text_of(member(v, "id"@)) == Some(r.id@)
    &&& text_of(member(v, "created_at"@)) == Some(r.created_at@)
    &&& int_of(member(v, "price"@)) == Some(r.price)
    &&& bool_of(member(v, "is_seller"@)) == Some(r.is_seller)
    &&& opt_i64_matches(r.min_offer_price, member(v, "min_offer_price"@))
    &&& opt_i64_matches(r.max_offer_discount, member(v, "max_offer_discount"@))
    &&& bool_of(member(v, "is_watchlisted"@)) == Some(r.is_watchlisted)
    &&& i32_matches(r.watchers, member(v, "watchers"@))
    &&& opt_text_matches(r.description, member(v, "description"@))
    &&& listing_type_of(member(v, "type"@)) == Some(r.type_)
    &&& listing_state_of(member(v, "state"@)) == Some(r.state)
    &&& member(v, "seller"@) matches Some(x) && seller_matches(r.seller, x)
    &&& member(v, "item"@) matches Some(x) && item_matches(r.item, x)
    &&& match r.reference {
        Some(p) => member(v, "reference"@) matches Some(x) && reference_matches(p, x),
        None => is_absent(member(v, "reference"@)),
    }
}

pub fn decode_listing(v: &JsonValue) -> (r: Result<Listing, String>)
    ensures
        r is Ok <==> listing_decodes(*v),
        r matches Ok(x) ==> listing_matches(x, *v),
{
    let type__value = decode_listing_type(v, "type")?;
    let state_value = decode_listing_state(v, "state")?;
    let seller_value = match v.get("seller") {
        Some(x) => match x {
            JsonValue::Object(_) => decode_seller(x)?,
            _ => return Err(field_error("seller")),
        },
        None => return Err(field_error("seller")),
    };
    let item_value = match v.get("item") {
        Some(x) => match x {
            JsonValue::Object(_) => decode_item(x)?,
            _ => return Err(field_error("item")),
        },
        None => return Err(field_error("item")),
    };
    let reference_value = match v.get("reference") {
        None => None,
        Some(JsonValue::Null) => None,
        Some(x) => match x {
            JsonValue::Object(_) => Some(decode_reference(x)?),
            _ => return Err(field_error("reference")),
        },
    };
    Ok(Listing {
        id: v.text_member("id")?,
        created_at: v.text_member("created_at")?,
        type_: type__value,
        price: v.i64_member("price")?,
        state: state_value,
        seller: seller_value,
        item: item_value,
        is_seller: v.bool_member("is_seller")?,
        min_offer_price: v.opt_i64_member("min_offer_price")?,
        max_offer_discount: v.opt_i64_member("max_offer_discount")?,
        is_watchlisted: v.bool_member("is_watchlisted")?,
        watchers: v.i32_member("watchers")?,
        description: v.opt_text_member("description")?,
        reference: reference_value,
    })
}

pub open spec fn listing_list_decodes(v: Option<JsonValue>) -> bool {
    match v {
        Some(JsonValue::Array(xs)) => forall|i: int|
            0 <= i < xs@.len() ==> #[trigger] listing_decodes(xs@[i]),
        _ => false,
    }
}

pub fn decode_listing_list(xs: &Vec<JsonValue>) -> (r: Result<Vec<Listing>, String>)
    ensures
        r is Ok <==> forall|i: int| 0 <= i < xs@.len() ==> #[trigger] listing_decodes(xs@[i]),
        r matches Ok(ys) ==> ys@.len() == xs@.len() && forall|i: int|
            0 <= i < xs@.len() ==> #[trigger] listing_matches(ys@[i], xs@[i]),
{
    let mut ys: Vec<Listing> = Vec::new();
    let mut i: usize = 0;
    while i < xs.len()
        invariant
            i <= xs@.len(),
            forall|j: int| 0 <= j < i ==> #[trigger] listing_decodes(xs@[j]),
            ys@.len() == i,
            forall|j: int| 0 <= j < i ==> #[trigger] listing_matches(ys@[j], xs@[j]),
        decreases xs@.len() - i,
    {
        let y = decode_listing(&xs[i])?;
        ys.push(y);
        i = i + 1;
    }
    Ok(ys)
}

/// Whether a page of listings decodes.
pub open spec fn listing_page_decodes(v: JsonValue) -> bool {
    &&& opt_text_ok(member(v, "cursor"@))
    &&& listing_list_decodes(member(v, "data"@))
}

/// Whether `r` is a page of listings `v`.
pub open spec fn listing_page_matches(r: ListingResponse, v: JsonValue) -> bool {
    &&& opt_text_matches(r.cursor, member(v, "cursor"@))
    &&& member(v, "data"@) matches Some(JsonValue::Array(xs)) && r.data@.len() == xs@.len()
        && forall|i: int| 0 <= i < xs@.len() ==> #[trigger] listing_matches(r.data@[i], xs@[i])
}

pub fn decode_listing_page(v: &JsonValue) -> (r: Result<ListingResponse, String>)
    ensures
        r is Ok <==> listing_page_decodes(*v),
        r matches Ok(x) ==> listing_page_matches(x, *v),
{
    let data_list = match v.get("data") {
        Some(JsonValue::Array(xs)) => decode_listing_list(xs)?,
        _ => return Err(field_error("data")),
    };
    Ok(ListingResponse {
        data: data_list,
        cursor: v.opt_text_member("cursor")?,
    })
}

} // verus!
