//! Typed models of the Buff Market API.
use vstd::prelude::*;

verus! {

pub struct GoodsBuyOrderResponse {
    pub code: String,
    pub data: Option<GoodsBuyOrderData>,
    pub msg: Option<String>,

}

pub struct GoodsBuyOrderData {
    pub items: Vec<Item>,
    pub page_num: i32,
    pub page_size: i32,
    pub total_count: i32,
    pub total_page: i32,

}

pub struct Item {
    pub app_id: i32,
    pub asset_info: Option<AssetInfo>,
    pub bookmarked: bool,
    pub buy_max_price: Option<String>,
    pub buy_num: i32,
    pub can_bargain: bool,
    pub can_search_intent: bool,
    pub created_at: i64,
    pub goods_id: i64,
    pub id: String,
    pub updated_at: i64,
    pub user_id: i64,
    pub price: String, 
    pub state: i32,    
    pub supported_pay_method: i32,
    pub trade_max_price: Option<String>,
}

pub struct AssetInfo {
    pub appid: i32,
    pub assetid: String,
    pub classid: String,
    pub goods_id: i64, 
    pub instanceid: String,
    pub market_hash_name: String,

}

pub struct MarketGoodsResponse {
    pub code: String,
    pub data: Option<MarketGoodsData>,
    pub msg: Option<String>,
}

pub struct MarketGoodsData {
    pub items: Vec<MarketGoodsItem>,
    pub page_num: i32,
    pub page_size: i32,
    pub total_count: i32,
    pub total_page: i32,
}

pub struct MarketGoodsItem {
    pub appid: i32,
    pub goods_internal_id: i64, 
    pub name: String,
    pub market_hash_name: String,
    pub sell_min_price: String, 
    pub steam_price: Option<String>,
    pub steam_price_cny: Option<String>,
    pub icon_url: String,
    pub original_icon_url: Option<String>,
    pub goods_info: Option<GoodsInfo>, 
    pub info: Option<ItemInfoContainer>, 
    pub bookmarked: Option<bool>,
    pub buy_max_price: Option<String>,
    pub buy_num: Option<i32>,
    pub can_bargain: Option<bool>,
    pub sell_num: Option<i32>,
    pub steam_market_url: Option<String>,
    pub transacted_num: Option<i32>, 
    pub short_name: Option<String>,
    pub has_buff_price_history: Option<bool>,

}

pub struct GoodsInfo {

    pub icon_url: Option<String>,
    pub original_icon_url: Option<String>,
    pub steam_price: Option<String>,
    pub steam_price_cny: Option<String>,

}

pub struct ItemInfoContainer {
    pub tags: Option<ItemTags>,
}

pub struct ItemTags {
    pub category: Option<TagDetails>,
    pub exterior: Option<TagDetails>,
    pub quality: Option<TagDetails>,
    pub rarity: Option<TagDetails>,
    pub type_tag: Option<TagDetails>, 
}

pub struct TagDetails {
    pub category: String,
    pub id: i64, 
    pub internal_name: String,
    pub localized_name: String,
}

} // verus!
