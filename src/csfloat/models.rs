//! Typed models of the CSFloat API.
use vstd::prelude::*;
use crate::json::Numeric;

verus! {

pub struct Listing {
    pub id: String,
    pub created_at: String,
    pub type_: ListingType,
    pub price: i64,
    pub state: ListingState,
    pub seller: Seller,
    pub item: Item,
    pub is_seller: bool,
    pub min_offer_price: Option<i64>,
    pub max_offer_discount: Option<i64>,
    pub is_watchlisted: bool,
    pub watchers: i32,
    pub description: Option<String>,
    pub reference: Option<Reference>,
}

pub struct ListingResponse {
    pub data: Vec<Listing>,
    pub cursor: Option<String>,
}

pub struct Price {
    pub amount: i64,
    pub currency: String,
}

pub struct Reference {
    pub base_price: Option<i64>,
    pub predicted_price: Option<i64>,
    pub quantity: Option<i64>,
    pub last_updated: Option<String>,
    pub float_factor: Option<Numeric>,
}

pub struct Item {
    pub asset_id: String,
    pub def_index: Option<i32>,
    pub paint_index: Option<i32>,
    pub paint_seed: Option<i32>,
    pub float_value: Option<Numeric>,
    pub icon_url: String,
    pub d_param: Option<String>,
    pub is_stattrak: Option<bool>,
    pub is_souvenir: Option<bool>,
    pub rarity: Option<i32>,
    pub quality: Option<i32>,
    pub market_hash_name: String,
    pub stickers: Vec<Sticker>,
    pub tradable: Option<i32>,
    pub inspect_link: Option<String>,
    pub has_screenshot: Option<bool>,
    pub scm: Option<Price>,
    pub item_name: Option<String>,
    pub wear_name: Option<String>,
    pub description: Option<String>,
    pub collection: Option<String>,
    pub badges: Vec<String>,
    pub is_commodity: Option<bool>,
    pub type_: Option<String>,
    pub rarity_name: Option<String>,
    pub item_type_name: Option<String>,
}

pub struct Seller {
    pub avatar: Option<String>,
    pub flags: i32,
    pub online: bool,
    pub stall_public: bool,
    pub statistics: SellerStatistics,
    pub steam_id: Option<String>,
    pub username: Option<String>,
    pub away: Option<bool>,
    pub has_valid_steam_api_key: Option<bool>,
    pub obfuscated_id: Option<String>,
}

pub struct SellerStatistics {
    pub median_trade_time: i32,
    pub total_failed_trades: i32,
    pub total_trades: i32,
    pub total_verified_trades: i32,
    pub total_avoided_trades: Option<i32>,
}

pub struct Sticker {
    pub sticker_id: i32,
    pub slot: i32,
    pub wear: Option<Numeric>,
    pub icon_url: String,
    pub name: String,
    pub scm: Option<Price>,
    pub reference: Option<StickerReference>,
}

pub struct StickerReference {
    pub price: Option<i64>,
    pub quantity: Option<i64>,
    pub updated_at: Option<String>,
}

pub enum ListingType {
    BuyNow,
    Auction,
}

pub enum ListingState {
    Listed,
    Sold,
    Cancelled,
    Expired,
}

/// Body of a request that creates a listing.
pub struct CreateListingRequest {
    pub asset_id: i64,
    pub type_: String,
    pub price: i64,
    pub max_offer_discount: Option<i64>,
    pub reserve_price: Option<i64>,
    pub duration_days: Option<i32>,
    pub description: Option<String>,
    pub private: Option<bool>,
}

} // verus!
