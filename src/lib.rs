//! Authenticated request construction and response normalisation for three
//! marketplace HTTP APIs (DMarket, CSFloat, Buff Market).
//!
//! The library builds signed requests and turns raw responses into typed
//! values; the transport and the JSON text parser stand outside it and hand
//! their results in as plain values.
use vstd::prelude::*;

pub mod buff_market;
pub mod csfloat;
pub mod dmarket;
pub mod encoding;
pub mod executor;
pub mod headers;
pub mod json;
pub mod query;
pub mod signing;

pub use crate::buff_market::client::BuffMarketClient;
pub use crate::buff_market::error::BuffMarketError;
pub use crate::csfloat::client::CSFloatClient;
pub use crate::csfloat::error::CSFloatError;
pub use crate::csfloat::models::{CreateListingRequest, Listing, ListingResponse};
pub use crate::dmarket::client::DMarketClient;
pub use crate::dmarket::error::DMarketError;
pub use crate::dmarket::models::{
    AgreementsInfo, ApiError, ApiResponse, Balance, BuyOfferRequest, BuyOfferResponse,
    BuyOfferResponseItem, CreateTargetRequest, CreateTargetResponse, CreateTargetResponseItem,
    DeleteTargetRequest, EthereumAccount, ExportRequest, ExportResponse, ExportedItem, Feature,
    Game, ImportItem, ImportRequest, ImportResponse, ImportedItem, InstagramAccount,
    InventoryItem, InventoryItemExtra, InventoryResponse, MarketItem, MarketItemAttribute,
    MarketItemExtra, MarketItemsResponse, Price, SellOfferItem, SellOfferPrice, SellOfferRequest,
    SellOfferResponse, SellOfferResponseItem, SteamAccount, Storefront, Target,
    TargetListResponse, TwitchAccount, TwitterAccount, UserProfile, UserSettings,
};

verus! {

} // verus!
