//! Decoding of Buff Market response documents into the typed models.
use vstd::prelude::*;
use crate::buff_market::models::{
    AssetInfo, GoodsBuyOrderData, GoodsBuyOrderResponse, GoodsInfo, Item, ItemInfoContainer,
    ItemTags, MarketGoodsData, MarketGoodsItem, MarketGoodsResponse, TagDetails,
};
use crate::json::{
    bool_of, field_error, i32_matches, i32_ok, int_of, is_absent, member, opt_bool_matches,
    opt_bool_ok, opt_i32_matches, opt_i32_ok, opt_object_ok, opt_text_matches, opt_text_ok,
    text_of, JsonValue,
};

verus! {

pub open spec fn tag_decodes(v: JsonValue) -> bool {
    &&& text_of(member(v, "category"@)) is Some
    &&& int_of(member(v, "id"@)) is Some
    &&& text_of(member(v, "internal_name"@)) is Some
    &&& text_of(member(v, "localized_name"@)) is Some
}

pub open spec fn tag_matches(r: TagDetails, v: JsonValue) -> bool {
    &&& text_of(member(v, "category"@)) == Some(r.category@)
    &&& int_of(member(v, "id"@)) == Some(r.id)
    &&& text_of(member(v, "internal_name"@)) == Some(r.internal_name@)
    &&& text_of(member(v, "localized_name"@)) == Some(r.localized_name@)
}

pub open spec fn opt_tag_matches(r: Option<TagDetails>, v: Option<JsonValue>) -> bool {
    match r {
        Some(t) => v matches Some(x) && tag_matches(t, x),
        None => is_absent(v),
    }
}

fn is_object(v: &JsonValue) -> (r: bool)
    ensures
        r == (*v is Object),
{
    match v {
        JsonValue::Object(_) => true,
        _ => false,
    }
}

pub fn decode_tag(v: &JsonValue) -> (r: Result<TagDetails, String>)
    ensures
        r is Ok <==> tag_decodes(*v),
        r matches Ok(t) ==> tag_matches(t, *v),
{
    Ok(TagDetails {
        category: v.text_member("category")?,
        id: v.i64_member("id")?,
        internal_name: v.text_member("internal_name")?,
        localized_name: v.text_member("localized_name")?,
    })
}

fn opt_tag(v: &JsonValue, key: &str) -> (r: Result<Option<TagDetails>, String>)
    ensures
        r is Ok <==> opt_object_ok(member(*v, key@), |x: JsonValue| tag_decodes(x)),
        r matches Ok(t) ==> opt_tag_matches(t, member(*v, key@)),
{
    match v.get(key) {
        None => Ok(None),
        Some(JsonValue::Null) => Ok(None),
        Some(x) => if is_object(x) {
            Ok(Some(decode_tag(x)?))
        } else {
            Err(field_error(key))
        },
    }
}

pub open spec fn tags_decode(v: JsonValue) -> bool {
    &&& opt_object_ok(member(v, "category"@), |x: JsonValue| tag_decodes(x))
    &&& opt_object_ok(member(v, "exterior"@), |x: JsonValue| tag_decodes(x))
    &&& opt_object_ok(member(v, "quality"@), |x: JsonValue| tag_decodes(x))
    &&& opt_object_ok(member(v, "rarity"@), |x: JsonValue| tag_decodes(x))
    &&& opt_object_ok(member(v, "type"@), |x: JsonValue| tag_decodes(x))
}

pub open spec fn tags_match(r: ItemTags, v: JsonValue) -> bool {
    &&& opt_tag_matches(r.category, member(v, "category"@))
    &&& opt_tag_matches(r.exterior, member(v, "exterior"@))
    &&& opt_tag_matches(r.quality, member(v, "quality"@))
    &&& opt_tag_matches(r.rarity, member(v, "rarity"@))
    &&& opt_tag_matches(r.type_tag, member(v, "type"@))
}

pub fn decode_tags(v: &JsonValue) -> (r: Result<ItemTags, String>)
    ensures
        r is Ok <==> tags_decode(*v),
        r matches Ok(t) ==> tags_match(t, *v),
{
    Ok(ItemTags {
        category: opt_tag(v, "category")?,
        exterior: opt_tag(v, "exterior")?,
        quality: opt_tag(v, "quality")?,
        rarity: opt_tag(v, "rarity")?,
        type_tag: opt_tag(v, "type")?,
    })
}

pub open spec fn info_decodes(v: JsonValue) -> bool {
    opt_object_ok(member(v, "tags"@), |x: JsonValue| tags_decode(x))
}

pub open spec fn info_matches(r: ItemInfoContainer, v: JsonValue) -> bool {
    match r.tags {
        Some(t) => member(v, "tags"@) matches Some(x) && tags_match(t, x),
        None => is_absent(member(v, "tags"@)),
    }
}

pub fn decode_info(v: &JsonValue) -> (r: Result<ItemInfoContainer, String>)
    ensures
        r is Ok <==> info_decodes(*v),
        r matches Ok(i) ==> info_matches(i, *v),
{
    let tags = match v.get("tags") {
        None => None,
        Some(JsonValue::Null) => None,
        Some(x) => if is_object(x) {
            Some(decode_tags(x)?)
        } else {
            return Err(field_error("tags"));
        },
    };
    Ok(ItemInfoContainer { tags })
}

pub open spec fn goods_info_decodes(v: JsonValue) -> bool {
    &&& opt_text_ok(member(v, "icon_url"@))
    &&& opt_text_ok(member(v, "original_icon_url"@))
    &&& opt_text_ok(member(v, "steam_price"@))
    &&& opt_text_ok(member(v, "steam_price_cny"@))
}

pub open spec fn goods_info_matches(r: GoodsInfo, v: JsonValue) -> bool {
    &&& opt_text_matches(r.icon_url, member(v, "icon_url"@))
    &&& opt_text_matches(r.original_icon_url, member(v, "original_icon_url"@))
    &&& opt_text_matches(r.steam_price, member(v, "steam_price"@))
    &&& opt_text_matches(r.steam_price_cny, member(v, "steam_price_cny"@))
}

pub fn decode_goods_info(v: &JsonValue) -> (r: Result<GoodsInfo, String>)
    ensures
        r is Ok <==> goods_info_decodes(*v),
        r matches Ok(g) ==> goods_info_matches(g, *v),
{
    Ok(GoodsInfo {
        icon_url: v.opt_text_member("icon_url")?,
        original_icon_url: v.opt_text_member("original_icon_url")?,
        steam_price: v.opt_text_member("steam_price")?,
        steam_price_cny: v.opt_text_member("steam_price_cny")?,
    })
}

/// Whether a listed goods entry decodes.
pub open spec fn goods_item_decodes(v: JsonValue) -> bool {
    &&& i32_ok(member(v, "appid"@))
    &&& int_of(member(v, "id"@)) is Some
    &&& text_of(member(v, "name"@)) is Some
    &&& text_of(member(v, "market_hash_name"@)) is Some
    &&& text_of(member(v, "sell_min_price"@)) is Some
    &&& opt_text_ok(member(v, "steam_price"@))
    &&& opt_text_ok(member(v, "steam_price_cny"@))
    &&& text_of(member(v, "icon_url"@)) is Some
    &&& opt_text_ok(member(v, "original_icon_url"@))
    &&& opt_object_ok(member(v, "goods_info"@), |x: JsonValue| goods_info_decodes(x))
    &&& opt_object_ok(member(v, "info"@), |x: JsonValue| info_decodes(x))
    &&& opt_bool_ok(member(v, "bookmarked"@))
    &&& opt_text_ok(member(v, "buy_max_price"@))
    &&& opt_i32_ok(member(v, "buy_num"@))
    &&& opt_bool_ok(member(v, "can_bargain"@))
    &&& opt_i32_ok(member(v, "sell_num"@))
    &&& opt_text_ok(member(v, "steam_market_url"@))
    &&& opt_i32_ok(member(v, "transacted_num"@))
    &&& opt_text_ok(member(v, "short_name"@))
    &&& opt_bool_ok(member(v, "has_buff_price_history"@))
}

/// Whether `r` is the goods entry `v`.
pub open spec fn goods_item_matches(r: MarketGoodsItem, v: JsonValue) -> bool {
    &&& i32_matches(r.appid, member(v, "appid"@))
    &&& int_of(member(v, "id"@)) == Some(r.goods_internal_id)
    &&& text_of(member(v, "name"@)) == Some(r.name@)
    &&& text_of(member(v, "market_hash_name"@)) == Some(r.market_hash_name@)
    &&& text_of(member(v, "sell_min_price"@)) == Some(r.sell_min_price@)
    &&& opt_text_matches(r.steam_price, member(v, "steam_price"@))
    &&& opt_text_matches(r.steam_price_cny, member(v, "steam_price_cny"@))
    &&& text_of(member(v, "icon_url"@)) == Some(r.icon_url@)
    &&& opt_text_matches(r.original_icon_url, member(v, "original_icon_url"@))
    &&& match r.goods_info {
        Some(g) => member(v, "goods_info"@) matches Some(x) && goods_info_matches(g, x),
        None => is_absent(member(v, "goods_info"@)),
    }
    &&& match r.info {
        Some(i) => member(v, "info"@) matches Some(x) && info_matches(i, x),
        None => is_absent(member(v, "info"@)),
    }
    &&& opt_bool_matches(r.bookmarked, member(v, "bookmarked"@))
    &&& opt_text_matches(r.buy_max_price, member(v, "buy_max_price"@))
    &&& opt_i32_matches(r.buy_num, member(v, "buy_num"@))
    &&& opt_bool_matches(r.can_bargain, member(v, "can_bargain"@))
    &&& opt_i32_matches(r.sell_num, member(v, "sell_num"@))
    &&& opt_text_matches(r.steam_market_url, member(v, "steam_market_url"@))
    &&& opt_i32_matches(r.transacted_num, member(v, "transacted_num"@))
    &&& opt_text_matches(r.short_name, member(v, "short_name"@))
    &&& opt_bool_matches(r.has_buff_price_history, member(v, "has_buff_price_history"@))
}

pub fn decode_goods_item(v: &JsonValue) -> (r: Result<MarketGoodsItem, String>)
    ensures
        r is Ok <==> goods_item_decodes(*v),
        r matches Ok(g) ==> goods_item_matches(g, *v),
{
    let appid = v.i32_member("appid")?;
    let goods_internal_id = v.i64_member("id")?;
    let name = v.text_member("name")?;
    let market_hash_name = v.text_member("market_hash_name")?;
    let sell_min_price = v.text_member("sell_min_price")?;
    let steam_price = v.opt_text_member("steam_price")?;
    let steam_price_cny = v.opt_text_member("steam_price_cny")?;
    let icon_url = v.text_member("icon_url")?;
    let original_icon_url = v.opt_text_member("original_icon_url")?;
    let goods_info = match v.get("goods_info") {
        None => None,
        Some(JsonValue::Null) => None,
        Some(x) => if is_object(x) {
            Some(decode_goods_info(x)?)
        } else {
            return Err(field_error("goods_info"));
        },
    };
    let info = match v.get("info") {
        None => None,
        Some(JsonValue::Null) => None,
        Some(x) => if is_object(x) {
            Some(decode_info(x)?)
        } else {
            return Err(field_error("info"));
        },
    };
    Ok(MarketGoodsItem {
        appid,
        goods_internal_id,
        name,
        market_hash_name,
        sell_min_price,
        steam_price,
        steam_price_cny,
        icon_url,
        original_icon_url,
        goods_info,
        info,
        bookmarked: v.opt_bool_member("bookmarked")?,
        buy_max_price: v.opt_text_member("buy_max_price")?,
        buy_num: v.opt_i32_member("buy_num")?,
        can_bargain: v.opt_bool_member("can_bargain")?,
        sell_num: v.opt_i32_member("sell_num")?,
        steam_market_url: v.opt_text_member("steam_market_url")?,
        transacted_num: v.opt_i32_member("transacted_num")?,
        short_name: v.opt_text_member("short_name")?,
        has_buff_price_history: v.opt_bool_member("has_buff_price_history")?,
    })
}

/// Whether every entry of a list decodes as a goods entry.
pub open spec fn goods_list_decodes(v: Option<JsonValue>) -> bool {
    match v {
        Some(JsonValue::Array(xs)) => forall|i: int|
            0 <= i < xs@.len() ==> #[trigger] goods_item_decodes(xs@[i]),
        _ => false,
    }
}

pub fn decode_goods_items(xs: &Vec<JsonValue>) -> (r: Result<Vec<MarketGoodsItem>, String>)
    ensures
        r is Ok <==> forall|i: int| 0 <= i < xs@.len() ==> #[trigger] goods_item_decodes(xs@[i]),
        r matches Ok(items) ==> items@.len() == xs@.len() && forall|i: int|
            0 <= i < xs@.len() ==> #[trigger] goods_item_matches(items@[i], xs@[i]),
{
    let mut items: Vec<MarketGoodsItem> = Vec::new();
    let mut i: usize = 0;
    while i < xs.len()
        invariant
            i <= xs@.len(),
            forall|j: int| 0 <= j < i ==> #[trigger] goods_item_decodes(xs@[j]),
            items@.len() == i,
            forall|j: int| 0 <= j < i ==> #[trigger] goods_item_matches(items@[j], xs@[j]),
        decreases xs@.len() - i,
    {
        let item = decode_goods_item(&xs[i])?;
        items.push(item);
        i = i + 1;
    }
    Ok(items)
}

/// Whether the `data` object of a goods listing decodes.
pub open spec fn goods_data_decodes(v: JsonValue) -> bool {
    &&& goods_list_decodes(member(v, "items"@))
    &&& i32_ok(member(v, "page_num"@))
    &&& i32_ok(member(v, "page_size"@))
    &&& i32_ok(member(v, "total_count"@))
    &&& i32_ok(member(v, "total_page"@))
}

pub open spec fn goods_data_matches(r: MarketGoodsData, v: JsonValue) -> bool {
    &&& member(v, "items"@) matches Some(JsonValue::Array(xs)) && r.items@.len() == xs@.len()
        && forall|i: int| 0 <= i < xs@.len() ==> #[trigger] goods_item_matches(r.items@[i], xs@[i])
    &&& i32_matches(r.page_num, member(v, "page_num"@))
    &&& i32_matches(r.page_size, member(v, "page_size"@))
    &&& i32_matches(r.total_count, member(v, "total_count"@))
    &&& i32_matches(r.total_page, member(v, "total_page"@))
}

pub fn decode_goods_data(v: &JsonValue) -> (r: Result<MarketGoodsData, String>)
    ensures
        r is Ok <==> goods_data_decodes(*v),
        r matches Ok(d) ==> goods_data_matches(d, *v),
{
    let items = match v.get("items") {
        Some(JsonValue::Array(xs)) => decode_goods_items(xs)?,
        _ => return Err(field_error("items")),
    };
    Ok(MarketGoodsData {
        items,
        page_num: v.i32_member("page_num")?,
        page_size: v.i32_member("page_size")?,
        total_count: v.i32_member("total_count")?,
        total_page: v.i32_member("total_page")?,
    })
}

/// Whether a goods listing document decodes: an envelope with a `code`, an
/// optional `msg` and optional `data`.
pub open spec fn goods_response_decodes(v: JsonValue) -> bool {
    &&& text_of(member(v, "code"@)) is Some
    &&& opt_object_ok(member(v, "data"@), |x: JsonValue| goods_data_decodes(x))
    &&& opt_text_ok(member(v, "msg"@))
}

pub open spec fn goods_response_matches(r: MarketGoodsResponse, v: JsonValue) -> bool {
    &&& text_of(member(v, "code"@)) == Some(r.code@)
    &&& match r.data {
        Some(d) => member(v, "data"@) matches Some(x) && goods_data_matches(d, x),
        None => is_absent(member(v, "data"@)),
    }
    &&& opt_text_matches(r.msg, member(v, "msg"@))
}

pub fn decode_goods_response(v: &JsonValue) -> (r: Result<MarketGoodsResponse, String>)
    ensures
        r is Ok <==> goods_response_decodes(*v),
        r matches Ok(g) ==> goods_response_matches(g, *v),
{
    let code = v.text_member("code")?;
    let data = match v.get("data") {
        None => None,
        Some(JsonValue::Null) => None,
        Some(x) => if is_object(x) {
            Some(decode_goods_data(x)?)
        } else {
            return Err(field_error("data"));
        },
    };
    let msg = v.opt_text_member("msg")?;
    Ok(MarketGoodsResponse { code, data, msg })
}

pub open spec fn asset_decodes(v: JsonValue) -> bool {
    &&& i32_ok(member(v, "appid"@))
    &&& text_of(member(v, "assetid"@)) is Some
    &&& text_of(member(v, "classid"@)) is Some
    &&& int_of(member(v, "goods_id"@)) is Some
    &&& text_of(member(v, "instanceid"@)) is Some
    &&& text_of(member(v, "market_hash_name"@)) is Some
}

pub open spec fn asset_matches(r: AssetInfo, v: JsonValue) -> bool {
    &&& i32_matches(r.appid, member(v, "appid"@))
    &&& text_of(member(v, "assetid"@)) == Some(r.assetid@)
    &&& text_of(member(v, "classid"@)) == Some(r.classid@)
    &&& int_of(member(v, "goods_id"@)) == Some(r.goods_id)
    &&& text_of(member(v, "instanceid"@)) == Some(r.instanceid@)
    &&& text_of(member(v, "market_hash_name"@)) == Some(r.market_hash_name@)
}

pub fn decode_asset(v: &JsonValue) -> (r: Result<AssetInfo, String>)
    ensures
        r is Ok <==> asset_decodes(*v),
        r matches Ok(a) ==> asset_matches(a, *v),
{
    Ok(AssetInfo {
        appid: v.i32_member("appid")?,
        assetid: v.text_member("assetid")?,
        classid: v.text_member("classid")?,
        goods_id: v.i64_member("goods_id")?,
        instanceid: v.text_member("instanceid")?,
        market_hash_name: v.text_member("market_hash_name")?,
    })
}

/// Whether a buy order entry decodes.
pub open spec fn order_decodes(v: JsonValue) -> bool {
    &&& i32_ok(member(v, "app_id"@))
    &&& opt_object_ok(member(v, "asset_info"@), |x: JsonValue| asset_decodes(x))
    &&& bool_of(member(v, "bookmarked"@)) is Some
    &&& opt_text_ok(member(v, "buy_max_price"@))
    &&& i32_ok(member(v, "buy_num"@))
    &&& bool_of(member(v, "can_bargain"@)) is Some
    &&& bool_of(member(v, "can_search_intent"@)) is Some
    &&& int_of(member(v, "created_at"@)) is Some
    &&& int_of(member(v, "goods_id"@)) is Some
    &&& text_of(member(v, "id"@)) is Some
    &&& int_of(member(v, "updated_at"@)) is Some
    &&& int_of(member(v, "user_id"@)) is Some
    &&& text_of(member(v, "price"@)) is Some
    &&& i32_ok(member(v, "state"@))
    &&& i32_ok(member(v, "supported_pay_method"@))
    &&& opt_text_ok(member(v, "trade_max_price"@))
}

pub open spec fn order_matches(r: Item, v: JsonValue) -> bool {
    &&& i32_matches(r.app_id, member(v, "app_id"@))
    &&& match r.asset_info {
        Some(a) => member(v, "asset_info"@) matches Some(x) && asset_matches(a, x),
        None => is_absent(member(v, "asset_info"@)),
    }
    &&& bool_of(member(v, "bookmarked"@)) == Some(r.bookmarked)
    &&& opt_text_matches(r.buy_max_price, member(v, "buy_max_price"@))
    &&& i32_matches(r.buy_num, member(v, "buy_num"@))
    &&& bool_of(member(v, "can_bargain"@)) == Some(r.can_bargain)
    &&& bool_of(member(v, "can_search_intent"@)) == Some(r.can_search_intent)
    &&& int_of(member(v, "created_at"@)) == Some(r.created_at)
    &&& int_of(member(v, "goods_id"@)) == Some(r.goods_id)
    &&& text_of(member(v, "id"@)) == Some(r.id@)
    &&& int_of(member(v, "updated_at"@)) == Some(r.updated_at)
    &&& int_of(member(v, "user_id"@)) == Some(r.user_id)
    &&& text_of(member(v, "price"@)) == Some(r.price@)
    &&& i32_matches(r.state, member(v, "state"@))
    &&& i32_matches(r.supported_pay_method, member(v, "supported_pay_method"@))
    &&& opt_text_matches(r.trade_max_price, member(v, "trade_max_price"@))
}

pub fn decode_order(v: &JsonValue) -> (r: Result<Item, String>)
    ensures
        r is Ok <==> order_decodes(*v),
        r matches Ok(o) ==> order_matches(o, *v),
{
    let app_id = v.i32_member("app_id")?;
    let asset_info = match v.get("asset_info") {
        None => None,
        Some(JsonValue::Null) => None,
        Some(x) => if is_object(x) {
            Some(decode_asset(x)?)
        } else {
            return Err(field_error("asset_info"));
        },
    };
    Ok(Item {
        app_id,
        asset_info,
        bookmarked: v.bool_member("bookmarked")?,
        buy_max_price: v.opt_text_member("buy_max_price")?,
        buy_num: v.i32_member("buy_num")?,
        can_bargain: v.bool_member("can_bargain")?,
        can_search_intent: v.bool_member("can_search_intent")?,
        created_at: v.i64_member("created_at")?,
        goods_id: v.i64_member("goods_id")?,
        id: v.text_member("id")?,
        updated_at: v.i64_member("updated_at")?,
        user_id: v.i64_member("user_id")?,
        price: v.text_member("price")?,
        state: v.i32_member("state")?,
        supported_pay_method: v.i32_member("supported_pay_method")?,
        trade_max_price: v.opt_text_member("trade_max_price")?,
    })
}

pub fn decode_orders(xs: &Vec<JsonValue>) -> (r: Result<Vec<Item>, String>)
    ensures
        r is Ok <==> forall|i: int| 0 <= i < xs@.len() ==> #[trigger] order_decodes(xs@[i]),
        r matches Ok(items) ==> items@.len() == xs@.len() && forall|i: int|
            0 <= i < xs@.len() ==> #[trigger] order_matches(items@[i], xs@[i]),
{
    let mut items: Vec<Item> = Vec::new();
    let mut i: usize = 0;
    while i < xs.len()
        invariant
            i <= xs@.len(),
            forall|j: int| 0 <= j < i ==> #[trigger] order_decodes(xs@[j]),
            items@.len() == i,
            forall|j: int| 0 <= j < i ==> #[trigger] order_matches(items@[j], xs@[j]),
        decreases xs@.len() - i,
    {
        let item = decode_order(&xs[i])?;
        items.push(item);
        i = i + 1;
    }
    Ok(items)
}

pub open spec fn order_list_decodes(v: Option<JsonValue>) -> bool {
    match v {
        Some(JsonValue::Array(xs)) => forall|i: int|
            0 <= i < xs@.len() ==> #[trigger] order_decodes(xs@[i]),
        _ => false,
    }
}

pub open spec fn orders_data_decodes(v: JsonValue) -> bool {
    &&& order_list_decodes(member(v, "items"@))
    &&& i32_ok(member(v, "page_num"@))
    &&& i32_ok(member(v, "page_size"@))
    &&& i32_ok(member(v, "total_count"@))
    &&& i32_ok(member(v, "total_page"@))
}

pub open spec fn orders_data_matches(r: GoodsBuyOrderData, v: JsonValue) -> bool {
    &&& member(v, "items"@) matches Some(JsonValue::Array(xs)) && r.items@.len() == xs@.len()
        && forall|i: int| 0 <= i < xs@.len() ==> #[trigger] order_matches(r.items@[i], xs@[i])
    &&& i32_matches(r.page_num, member(v, "page_num"@))
    &&& i32_matches(r.page_size, member(v, "page_size"@))
    &&& i32_matches(r.total_count, member(v, "total_count"@))
    &&& i32_matches(r.total_page, member(v, "total_page"@))
}

pub fn decode_orders_data(v: &JsonValue) -> (r: Result<GoodsBuyOrderData, String>)
    ensures
        r is Ok <==> orders_data_decodes(*v),
        r matches Ok(d) ==> orders_data_matches(d, *v),
{
    let items = match v.get("items") {
        Some(JsonValue::Array(xs)) => decode_orders(xs)?,
        _ => return Err(field_error("items")),
    };
    Ok(GoodsBuyOrderData {
        items,
        page_num: v.i32_member("page_num")?,
        page_size: v.i32_member("page_size")?,
        total_count: v.i32_member("total_count")?,
        total_page: v.i32_member("total_page")?,
    })
}

pub open spec fn orders_response_decodes(v: JsonValue) -> bool {
    &&& text_of(member(v, "code"@)) is Some
    &&& opt_object_ok(member(v, "data"@), |x: JsonValue| orders_data_decodes(x))
    &&& opt_text_ok(member(v, "msg"@))
}

pub open spec fn orders_response_matches(r: GoodsBuyOrderResponse, v: JsonValue) -> bool {
    &&& text_of(member(v, "code"@)) == Some(r.code@)
    &&& match r.data {
        Some(d) => member(v, "data"@) matches Some(x) && orders_data_matches(d, x),
        None => is_absent(member(v, "data"@)),
    }
    &&& opt_text_matches(r.msg, member(v, "msg"@))
}

pub fn decode_orders_response(v: &JsonValue) -> (r: Result<GoodsBuyOrderResponse, String>)
    ensures
        r is Ok <==> orders_response_decodes(*v),
        r matches Ok(g) ==> orders_response_matches(g, *v),
{
    let code = v.text_member("code")?;
    let data = match v.get("data") {
        None => None,
        Some(JsonValue::Null) => None,
        Some(x) => if is_object(x) {
            Some(decode_orders_data(x)?)
        } else {
            return Err(field_error("data"));
        },
    };
    let msg = v.opt_text_member("msg")?;
    Ok(GoodsBuyOrderResponse { code, data, msg })
}

} // verus!
