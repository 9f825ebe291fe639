//! Typed models of the DMarket API.
use vstd::prelude::*;
use crate::json::{JsonValue, Numeric};

verus! {

#[allow(non_snake_case)]
pub struct UserProfile {
    pub id: String,
    pub public_key: String,
    pub saga_public_key: String,
    pub username: String,
    pub email: String,
    pub is_email_verified: bool,
    pub is_password_set: bool,
    pub image_url: String,
    pub level: i32,
    pub country_code_from_ip: String,
    pub country_code: String,
    pub settings: UserSettings,
    pub steam_account: SteamAccount,
    pub agreements_info: AgreementsInfo,
    pub reg_type: String,
    pub has_history_events: bool,
    pub ga_client_id: String,
    pub migrated: bool,
    pub has_active_subscriptions: bool,
    pub linked_games: Vec<String>,
    pub features: Vec<Feature>,
    pub restrictions: Vec<String>,
    pub twitch_account: TwitchAccount,
    pub instagram_account: InstagramAccount,
    pub twitter_account: TwitterAccount,
    pub ethereum_account: EthereumAccount,
    pub labels: Option<JsonValue>,
    pub storefront: Storefront,
    pub tin_not_required: bool,
    pub promo_token: String,
}

#[allow(non_snake_case)]
pub struct UserSettings {
    pub enabled_device_confirmation: bool,
    pub trading_api_token: String,
    pub is_subscribed_to_newsletters: bool,
    pub targets_limit: i32,
}

#[allow(non_snake_case)]
pub struct SteamAccount {
    pub steam_id: String,
    pub icon: String,
    pub trade_url: String,
    pub is_valid_trade_url: bool,
    pub username: String,
    pub is_profile_private: bool,
    pub trading_status: String,
    pub level: i32,
    pub api_key: String,
    pub api_key_status: String,
}

#[allow(non_snake_case)]
pub struct AgreementsInfo {
    pub is_confirmed: bool,
    pub updated: i64,
}

#[allow(non_snake_case)]
pub struct Feature {
    pub name: String,
    pub enabled: bool,
}

#[allow(non_snake_case)]
pub struct TwitchAccount {
    pub user_id: String,
    pub icon: String,
    pub username: String,
}

#[allow(non_snake_case)]
pub struct InstagramAccount {
    pub user_id: String,
    pub username: String,
}

#[allow(non_snake_case)]
pub struct TwitterAccount {
    pub user_id: String,
    pub username: String,
}

#[allow(non_snake_case)]
pub struct EthereumAccount {
    pub address: String,
}

#[allow(non_snake_case)]
pub struct Storefront {
    pub disabled: bool,
    pub alias: String,
}

#[allow(non_snake_case)]
pub struct Price {
    pub amount: String,
    pub currency: String,
}

#[allow(non_snake_case)]
pub struct Balance {
    pub currency: String,
    pub amount: String,
}

#[allow(non_snake_case)]
pub struct ApiResponse<T> {
    pub status: Option<String>,
    pub data: Option<T>,
    pub error: Option<ApiError>,
    pub code: Option<String>,
    pub message: Option<String>,
}

#[allow(non_snake_case)]
pub struct ApiError {
    pub code: String,
    pub message: String,
}

#[allow(non_snake_case)]
pub struct MarketItemsResponse {
    pub objects: Vec<MarketItem>,
    pub total: String,
}

#[allow(non_snake_case)]
pub struct MarketItem {
    pub item_id: String,
    pub item_type: String,
    pub title: String,
    pub description: Option<String>,
    pub slug: String,
    pub status: String,
    pub ownersCount: Option<i32>,
    pub image: String,
    pub class_id: String,
    pub game: String,
    pub price: Price,
    pub suggested_price: Option<Price>,
    pub discount: Option<Numeric>,
    pub extra: MarketItemExtra,
    pub attributes: Vec<MarketItemAttribute>,
    pub locked: bool,
    pub createdAt: i64,
    pub updatedAt: i64,
    pub inMarket: bool,
    pub gameId: String,
    pub withdrawable: bool,
    pub tradeLock: Option<i32>,
    pub offer_type: Option<String>,
    pub asset_id: Option<String>,
}

#[allow(non_snake_case)]
pub struct MarketItemExtra {
    pub name_color: Option<String>,
    pub background_color: Option<String>,
    pub category: Option<String>,
    pub exterior: Option<String>,
    pub category_path: Option<String>,
    pub tradable: Option<bool>,
    pub daysBeforeTrade: Option<i32>,
    pub floatValue: Option<Numeric>,
    pub gameId: Option<String>,
}

#[allow(non_snake_case)]
pub struct MarketItemAttribute {
    pub name: String,
    pub category: String,
    pub value: String,
    pub display_value: Option<String>,
}

#[allow(non_snake_case)]
pub struct Game {
    pub id: String,
    pub title: String,
    pub logo: String,
    pub slug: String,
    pub status: String,
}

#[allow(non_snake_case)]
pub struct InventoryResponse {
    pub objects: Vec<InventoryItem>,
    pub total: i32,
}

#[allow(non_snake_case)]
pub struct InventoryItem {
    pub item_id: String,
    pub title: String,
    pub status: String,
    pub image: String,
    pub game: String,
    pub class_id: String,
    pub extra: InventoryItemExtra,
    pub inMarket: bool,
    pub locked: bool,
}

#[allow(non_snake_case)]
pub struct InventoryItemExtra {
    pub exterior: Option<String>,
    pub category: Option<String>,
    pub category_path: Option<String>,
    pub name_color: Option<String>,
    pub background_color: Option<String>,
    pub tradable: Option<bool>,
    pub daysBeforeTrade: Option<i32>,
    pub floatValue: Option<Numeric>,
}

#[allow(non_snake_case)]
pub struct SellOfferRequest {
    pub items: Vec<SellOfferItem>,
}

#[allow(non_snake_case)]
pub struct SellOfferItem {
    pub asset_id: String,
    pub price: SellOfferPrice,
}

#[allow(non_snake_case)]
pub struct SellOfferPrice {
    pub amount: String,
    pub currency: String,
}

#[allow(non_snake_case)]
pub struct SellOfferResponse {
    pub Items: Vec<SellOfferResponseItem>,
    pub HasErrors: bool,
    pub TotalSucceed: i32,
    pub TotalFailed: i32,
}

#[allow(non_snake_case)]
pub struct SellOfferResponseItem {
    pub Status: String,
    pub AssetID: String,
    pub OfferID: Option<String>,
    pub ErrorCode: Option<String>,
    pub ErrorMessage: Option<String>,
}

#[allow(non_snake_case)]
pub struct BuyOfferRequest {
    pub offers: Vec<String>, 
    pub currency: String,    
}

#[allow(non_snake_case)]
pub struct BuyOfferResponse {
    pub Items: Vec<BuyOfferResponseItem>,
    pub HasErrors: bool,
    pub TotalSucceed: i32,
    pub TotalFailed: i32,
}

#[allow(non_snake_case)]
pub struct BuyOfferResponseItem {
    pub Status: String,
    pub OfferID: String,
    pub ErrorCode: Option<String>,
    pub ErrorMessage: Option<String>,
}

#[allow(non_snake_case)]
pub struct ImportRequest {
    pub gameId: String,
    pub items: Vec<ImportItem>,
}

#[allow(non_snake_case)]
pub struct ImportItem {
    pub appId: String,
    pub contextId: String,
    pub assetId: String,
}

#[allow(non_snake_case)]
pub struct ImportResponse {
    pub OperationID: String,
    pub SteamTradeID: String,
    pub SteamTradeState: String,
    pub Items: Vec<ImportedItem>,
}

#[allow(non_snake_case)]
pub struct ImportedItem {
    pub DMarketAssetID: String,
    pub SteamAppID: String,
    pub SteamContextID: String,
    pub SteamAssetID: String,
}

#[allow(non_snake_case)]
pub struct ExportRequest {
    pub gameId: String,
    pub assetIds: Vec<String>,
}

#[allow(non_snake_case)]
pub struct ExportResponse {
    pub OperationID: String,
    pub SteamTradeID: String,
    pub State: String,
    pub Assets: Vec<ExportedItem>,
    pub ErrorMessage: String,
}

#[allow(non_snake_case)]
pub struct ExportedItem {
    pub DMarketAssetID: String,
    pub Title: String,
}

#[allow(non_snake_case)]
pub struct Target {
    pub id: Option<String>,
    pub target_type: String,
    pub game_id: String,
    pub class_id: String,
    pub title: Option<String>,
    pub price: Option<Price>,
    pub status: Option<String>,
    pub created_at: Option<i64>,
    pub updated_at: Option<i64>,

    pub phase: Option<String>,
    pub float_part_value: Option<String>,
    pub paint_seed: Option<String>,
}

#[allow(non_snake_case)]
pub struct CreateTargetRequest {
    pub targets: Vec<Target>,
}

#[allow(non_snake_case)]
pub struct CreateTargetResponse {
    pub Items: Vec<CreateTargetResponseItem>,
    pub HasErrors: bool,
    pub TotalSucceed: i32,
    pub TotalFailed: i32,
}

#[allow(non_snake_case)]
pub struct CreateTargetResponseItem {
    pub Status: String,
    pub TargetID: Option<String>,
    pub ErrorCode: Option<String>,
    pub ErrorMessage: Option<String>,
}

#[allow(non_snake_case)]
pub struct TargetListResponse {
    pub objects: Vec<Target>,
    pub total: i32,
}

#[allow(non_snake_case)]
pub struct DeleteTargetRequest {
    pub targets: Vec<String>,
}

} // verus!
