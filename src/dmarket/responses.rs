//! Decoding of the DMarket trading and target responses into their models.
use vstd::prelude::*;
use crate::dmarket::error::{misshapen, read_document, undelivered, DMarketError};
use crate::dmarket::models::{
    BuyOfferResponse, BuyOfferResponseItem, CreateTargetResponse, CreateTargetResponseItem,
    ExportResponse, ExportedItem, ImportResponse, ImportedItem, Price, SellOfferResponse,
    SellOfferResponseItem, Target, TargetListResponse,
};
use crate::executor::{delivered, RawResponse};
use crate::json::{
    bool_of, field_error, i32_matches, i32_ok, is_absent, member, opt_i64_matches, opt_i64_ok,
    opt_object_ok, opt_text_matches, opt_text_ok, text_of, JsonValue,
};

verus! {

/// Whether a price decodes.
pub open spec fn price_decodes(v: JsonValue) -> bool {
    &&& text_of(member(v, "amount"@)) is Some
    &&& text_of(member(v, "currency"@)) is Some
}

/// Whether `r` is a price `v`.
pub open spec fn price_matches(r: Price, v: JsonValue) -> bool {
    &&& text_of(member(v, "amount"@)) == Some(r.amount@)
    &&& text_of(member(v, "currency"@)) == Some(r.currency@)
}

pub fn decode_price(v: &JsonValue) -> (r: Result<Price, String>)
    ensures
        r is Ok <==> price_decodes(*v),
        r matches Ok(x) ==> price_matches(x, *v),
{
    Ok(Price {
        amount: v.text_member("amount")?,
        currency: v.text_member("currency")?,
    })
}

/// Whether the outcome of one sell offer decodes.
pub open spec fn sell_result_decodes(v: JsonValue) -> bool {
    &&& text_of(member(v, "Status"@)) is Some
    &&& text_of(member(v, "AssetID"@)) is Some
    &&& opt_text_ok(member(v, "OfferID"@))
    &&& opt_text_ok(member(v, "ErrorCode"@))
    &&& opt_text_ok(member(v, "ErrorMessage"@))
}

/// Whether `r` is the outcome of one sell offer `v`.
pub open spec fn sell_result_matches(r: SellOfferResponseItem, v: JsonValue) -> bool {
    &&& text_of(member(v, "Status"@)) == Some(r.Status@)
    &&& text_of(member(v, "AssetID"@)) == Some(r.AssetID@)
    &&& opt_text_matches(r.OfferID, member(v, "OfferID"@))
    &&& opt_text_matches(r.ErrorCode, member(v, "ErrorCode"@))
    &&& opt_text_matches(r.ErrorMessage, member(v, "ErrorMessage"@))
}

pub fn decode_sell_result(v: &JsonValue) -> (r: Result<SellOfferResponseItem, String>)
    ensures
        r is Ok <==> sell_result_decodes(*v),
        r matches Ok(x) ==> sell_result_matches(x, *v),
{
    Ok(SellOfferResponseItem {
        Status: v.text_member("Status")?,
        AssetID: v.text_member("AssetID")?,
        OfferID: v.opt_text_member("OfferID")?,
        ErrorCode: v.opt_text_member("ErrorCode")?,
        ErrorMessage: v.opt_text_member("ErrorMessage")?,
    })
}

pub open spec fn sell_result_list_decodes(v: Option<JsonValue>) -> bool {
    match v {
        Some(JsonValue::Array(xs)) => forall|i: int|
            0 <= i < xs@.len() ==> #[trigger] sell_result_decodes(xs@[i]),
        _ => false,
    }
}

pub fn decode_sell_result_list(xs: &Vec<JsonValue>) -> (r: Result<Vec<SellOfferResponseItem>, String>)
    ensures
        r is Ok <==> forall|i: int| 0 <= i < xs@.len() ==> #[trigger] sell_result_decodes(xs@[i]),
        r matches Ok(ys) ==> ys@.len() == xs@.len() && forall|i: int|
            0 <= i < xs@.len() ==> #[trigger] sell_result_matches(ys@[i], xs@[i]),
{
    let mut ys: Vec<SellOfferResponseItem> = Vec::new();
    let mut i: usize = 0;
    while i < xs.len()
        invariant
            i <= xs@.len(),
            forall|j: int| 0 <= j < i ==> #[trigger] sell_result_decodes(xs@[j]),
            ys@.len() == i,
            forall|j: int| 0 <= j < i ==> #[trigger] sell_result_matches(ys@[j], xs@[j]),
        decreases xs@.len() - i,
    {
        let y = decode_sell_result(&xs[i])?;
        ys.push(y);
        i = i + 1;
    }
    Ok(ys)
}

/// Whether a sell offer response decodes.
pub open spec fn sell_response_decodes(v: JsonValue) -> bool {
    &&& bool_of(member(v, "HasErrors"@)) is Some
    &&& i32_ok(member(v, "TotalSucceed"@))
    &&& i32_ok(member(v, "TotalFailed"@))
    &&& sell_result_list_decodes(member(v, "Items"@))
}

/// Whether `r` is a sell offer response `v`.
pub open spec fn sell_response_matches(r: SellOfferResponse, v: JsonValue) -> bool {
    &&& bool_of(member(v, "HasErrors"@)) == Some(r.HasErrors)
    &&& i32_matches(r.TotalSucceed, member(v, "TotalSucceed"@))
    &&& i32_matches(r.TotalFailed, member(v, "TotalFailed"@))
    &&& member(v, "Items"@) matches Some(JsonValue::Array(xs)) && r.Items@.len() == xs@.len()
        && forall|i: int| 0 <= i < xs@.len() ==> #[trigger] sell_result_matches(r.Items@[i], xs@[i])
}

pub fn decode_sell_response(v: &JsonValue) -> (r: Result<SellOfferResponse, String>)
    ensures
        r is Ok <==> sell_response_decodes(*v),
        r matches Ok(x) ==> sell_response_matches(x, *v),
{
    let items_list = match v.get("Items") {
        Some(JsonValue::Array(xs)) => decode_sell_result_list(xs)?,
        _ => return Err(field_error("Items")),
    };
    Ok(SellOfferResponse {
        Items: items_list,
        HasErrors: v.bool_member("HasErrors")?,
        TotalSucceed: v.i32_member("TotalSucceed")?,
        TotalFailed: v.i32_member("TotalFailed")?,
    })
}

/// Whether the outcome of one purchase decodes.
pub open spec fn buy_result_decodes(v: JsonValue) -> bool {
    &&& text_of(member(v, "Status"@)) is Some
    &&& text_of(member(v, "OfferID"@)) is Some
    &&& opt_text_ok(member(v, "ErrorCode"@))
    &&& opt_text_ok(member(v, "ErrorMessage"@))
}

/// Whether `r` is the outcome of one purchase `v`.
pub open spec fn buy_result_matches(r: BuyOfferResponseItem, v: JsonValue) -> bool {
    &&& text_of(member(v, "Status"@)) == Some(r.Status@)
    &&& text_of(member(v, "OfferID"@)) == Some(r.OfferID@)
    &&& opt_text_matches(r.ErrorCode, member(v, "ErrorCode"@))
    &&& opt_text_matches(r.ErrorMessage, member(v, "ErrorMessage"@))
}

pub fn decode_buy_result(v: &JsonValue) -> (r: Result<BuyOfferResponseItem, String>)
    ensures
        r is Ok <==> buy_result_decodes(*v),
        r matches Ok(x) ==> buy_result_matches(x, *v),
{
    Ok(BuyOfferResponseItem {
        Status: v.text_member("Status")?,
        OfferID: v.text_member("OfferID")?,
        ErrorCode: v.opt_text_member("ErrorCode")?,
        ErrorMessage: v.opt_text_member("ErrorMessage")?,
    })
}

pub open spec fn buy_result_list_decodes(v: Option<JsonValue>) -> bool {
    match v {
        Some(JsonValue::Array(xs)) => forall|i: int|
            0 <= i < xs@.len() ==> #[trigger] buy_result_decodes(xs@[i]),
        _ => false,
    }
}

pub fn decode_buy_result_list(xs: &Vec<JsonValue>) -> (r: Result<Vec<BuyOfferResponseItem>, String>)
    ensures
        r is Ok <==> forall|i: int| 0 <= i < xs@.len() ==> #[trigger] buy_result_decodes(xs@[i]),
        r matches Ok(ys) ==> ys@.len() == xs@.len() && forall|i: int|
            0 <= i < xs@.len() ==> #[trigger] buy_result_matches(ys@[i], xs@[i]),
{
    let mut ys: Vec<BuyOfferResponseItem> = Vec::new();
    let mut i: usize = 0;
    while i < xs.len()
        invariant
            i <= xs@.len(),
            forall|j: int| 0 <= j < i ==> #[trigger] buy_result_decodes(xs@[j]),
            ys@.len() == i,
            forall|j: int| 0 <= j < i ==> #[trigger] buy_result_matches(ys@[j], xs@[j]),
        decreases xs@.len() - i,
    {
        let y = decode_buy_result(&xs[i])?;
        ys.push(y);
        i = i + 1;
    }
    Ok(ys)
}

/// Whether a purchase response decodes.
pub open spec fn buy_response_decodes(v: JsonValue) -> bool {
    &&& bool_of(member(v, "HasErrors"@)) is Some
    &&& i32_ok(member(v, "TotalSucceed"@))
    &&& i32_ok(member(v, "TotalFailed"@))
    &&& buy_result_list_decodes(member(v, "Items"@))
}

/// Whether `r` is a purchase response `v`.
pub open spec fn buy_response_matches(r: BuyOfferResponse, v: JsonValue) -> bool {
    &&& bool_of(member(v, "HasErrors"@)) == Some(r.HasErrors)
    &&& i32_matches(r.TotalSucceed, member(v, "TotalSucceed"@))
    &&& i32_matches(r.TotalFailed, member(v, "TotalFailed"@))
    &&& member(v, "Items"@) matches Some(JsonValue::Array(xs)) && r.Items@.len() == xs@.len()
        && forall|i: int| 0 <= i < xs@.len() ==> #[trigger] buy_result_matches(r.Items@[i], xs@[i])
}

pub fn decode_buy_response(v: &JsonValue) -> (r: Result<BuyOfferResponse, String>)
    ensures
        r is Ok <==> buy_response_decodes(*v),
        r matches Ok(x) ==> buy_response_matches(x, *v),
{
    let items_list = match v.get("Items") {
        Some(JsonValue::Array(xs)) => decode_buy_result_list(xs)?,
        _ => return Err(field_error("Items")),
    };
    Ok(BuyOfferResponse {
        Items: items_list,
        HasErrors: v.bool_member("HasErrors")?,
        TotalSucceed: v.i32_member("TotalSucceed")?,
        TotalFailed: v.i32_member("TotalFailed")?,
    })
}

/// Whether the outcome of one target decodes.
pub open spec fn target_result_decodes(v: JsonValue) -> bool {
    &&& text_of(member(v, "Status"@)) is Some
    &&& opt_text_ok(member(v, "TargetID"@))
    &&& opt_text_ok(member(v, "ErrorCode"@))
    &&& opt_text_ok(member(v, "ErrorMessage"@))
}

/// Whether `r` is the outcome of one target `v`.
pub open spec fn target_result_matches(r: CreateTargetResponseItem, v: JsonValue) -> bool {
    &&& text_of(member(v, "Status"@)) == Some(r.Status@)
    &&& opt_text_matches(r.TargetID, member(v, "TargetID"@))
    &&& opt_text_matches(r.ErrorCode, member(v, "ErrorCode"@))
    &&& opt_text_matches(r.ErrorMessage, member(v, "ErrorMessage"@))
}

pub fn decode_target_result(v: &JsonValue) -> (r: Result<CreateTargetResponseItem, String>)
    ensures
        r is Ok <==> target_result_decodes(*v),
        r matches Ok(x) ==> target_result_matches(x, *v),
{
    Ok(CreateTargetResponseItem {
        Status: v.text_member("Status")?,
        TargetID: v.opt_text_member("TargetID")?,
        ErrorCode: v.opt_text_member("ErrorCode")?,
        ErrorMessage: v.opt_text_member("ErrorMessage")?,
    })
}

pub open spec fn target_result_list_decodes(v: Option<JsonValue>) -> bool {
    match v {
        Some(JsonValue::Array(xs)) => forall|i: int|
            0 <= i < xs@.len() ==> #[trigger] target_result_decodes(xs@[i]),
        _ => false,
    }
}

pub fn decode_target_result_list(xs: &Vec<JsonValue>) -> (r: Result<Vec<CreateTargetResponseItem>, String>)
    ensures
        r is Ok <==> forall|i: int| 0 <= i < xs@.len() ==> #[trigger] target_result_decodes(xs@[i]),
        r matches Ok(ys) ==> ys@.len() == xs@.len() && forall|i: int|
            0 <= i < xs@.len() ==> #[trigger] target_result_matches(ys@[i], xs@[i]),
{
    let mut ys: Vec<CreateTargetResponseItem> = Vec::new();
    let mut i: usize = 0;
    while i < xs.len()
        invariant
            i <= xs@.len(),
            forall|j: int| 0 <= j < i ==> #[trigger] target_result_decodes(xs@[j]),
            ys@.len() == i,
            forall|j: int| 0 <= j < i ==> #[trigger] target_result_matches(ys@[j], xs@[j]),
        decreases xs@.len() - i,
    {
        let y = decode_target_result(&xs[i])?;
        ys.push(y);
        i = i + 1;
    }
    Ok(ys)
}

/// Whether a target operation response decodes.
pub open spec fn target_response_decodes(v: JsonValue) -> bool {
    &&& bool_of(member(v, "HasErrors"@)) is Some
    &&& i32_ok(member(v, "TotalSucceed"@))
    &&& i32_ok(member(v, "TotalFailed"@))
    &&& target_result_list_decodes(member(v, "Items"@))
}

/// Whether `r` is a target operation response `v`.
pub open spec fn target_response_matches(r: CreateTargetResponse, v: JsonValue) -> bool {
    &&& bool_of(member(v, "HasErrors"@)) == Some(r.HasErrors)
    &&& i32_matches(r.TotalSucceed, member(v, "TotalSucceed"@))
    &&& i32_matches(r.TotalFailed, member(v, "TotalFailed"@))
    &&& member(v, "Items"@) matches Some(JsonValue::Array(xs)) && r.Items@.len() == xs@.len()
        && forall|i: int| 0 <= i < xs@.len() ==> #[trigger] target_result_matches(r.Items@[i], xs@[i])
}

pub fn decode_target_response(v: &JsonValue) -> (r: Result<CreateTargetResponse, String>)
    ensures
        r is Ok <==> target_response_decodes(*v),
        r matches Ok(x) ==> target_response_matches(x, *v),
{
    let items_list = match v.get("Items") {
        Some(JsonValue::Array(xs)) => decode_target_result_list(xs)?,
        _ => return Err(field_error("Items")),
    };
    Ok(CreateTargetResponse {
        Items: items_list,
        HasErrors: v.bool_member("HasErrors")?,
        TotalSucceed: v.i32_member("TotalSucceed")?,
        TotalFailed: v.i32_member("TotalFailed")?,
    })
}

/// Whether an imported item decodes.
pub open spec fn imported_decodes(v: JsonValue) -> bool {
    &&& text_of(member(v, "DMarketAssetID"@)) is Some
    &&& text_of(member(v, "SteamAppID"@)) is Some
    &&& text_of(member(v, "SteamContextID"@)) is Some
    &&& text_of(member(v, "SteamAssetID"@)) is Some
}

/// Whether `r` is an imported item `v`.
pub open spec fn imported_matches(r: ImportedItem, v: JsonValue) -> bool {
    &&& text_of(member(v, "DMarketAssetID"@)) == Some(r.DMarketAssetID@)
    &&& text_of(member(v, "SteamAppID"@)) == Some(r.SteamAppID@)
    &&& text_of(member(v, "SteamContextID"@)) == Some(r.SteamContextID@)
    &&& text_of(member(v, "SteamAssetID"@)) == Some(r.SteamAssetID@)
}

pub fn decode_imported(v: &JsonValue) -> (r: Result<ImportedItem, String>)
    ensures
        r is Ok <==> imported_decodes(*v),
        r matches Ok(x) ==> imported_matches(x, *v),
{
    Ok(ImportedItem {
        DMarketAssetID: v.text_member("DMarketAssetID")?,
        SteamAppID: v.text_member("SteamAppID")?,
        SteamContextID: v.text_member("SteamContextID")?,
        SteamAssetID: v.text_member("SteamAssetID")?,
    })
}

pub open spec fn imported_list_decodes(v: Option<JsonValue>) -> bool {
    match v {
        Some(JsonValue::Array(xs)) => forall|i: int|
            0 <= i < xs@.len() ==> #[trigger] imported_decodes(xs@[i]),
        _ => false,
    }
}

pub fn decode_imported_list(xs: &Vec<JsonValue>) -> (r: Result<Vec<ImportedItem>, String>)
    ensures
        r is Ok <==> forall|i: int| 0 <= i < xs@.len() ==> #[trigger] imported_decodes(xs@[i]),
        r matches Ok(ys) ==> ys@.len() == xs@.len() && forall|i: int|
            0 <= i < xs@.len() ==> #[trigger] imported_matches(ys@[i], xs@[i]),
{
    let mut ys: Vec<ImportedItem> = Vec::new();
    let mut i: usize = 0;
    while i < xs.len()
        invariant
            i <= xs@.len(),
            forall|j: int| 0 <= j < i ==> #[trigger] imported_decodes(xs@[j]),
            ys@.len() == i,
            forall|j: int| 0 <= j < i ==> #[trigger] imported_matches(ys@[j], xs@[j]),
        decreases xs@.len() - i,
    {
        let y = decode_imported(&xs[i])?;
        ys.push(y);
        i = i + 1;
    }
    Ok(ys)
}

/// Whether an import response decodes.
pub open spec fn import_response_decodes(v: JsonValue) -> bool {
    &&& text_of(member(v, "OperationID"@)) is Some
    &&& text_of(member(v, "SteamTradeID"@)) is Some
    &&& text_of(member(v, "SteamTradeState"@)) is Some
    &&& imported_list_decodes(member(v, "Items"@))
}

/// Whether `r` is an import response `v`.
pub open spec fn import_response_matches(r: ImportResponse, v: JsonValue) -> bool {
    &&& text_of(member(v, "OperationID"@)) == Some(r.OperationID@)
    &&& text_of(member(v, "SteamTradeID"@)) == Some(r.SteamTradeID@)
    &&& text_of(member(v, "SteamTradeState"@)) == Some(r.SteamTradeState@)
    &&& member(v, "Items"@) matches Some(JsonValue::Array(xs)) && r.Items@.len() == xs@.len()
        && forall|i: int| 0 <= i < xs@.len() ==> #[trigger] imported_matches(r.Items@[i], xs@[i])
}

pub fn decode_import_response(v: &JsonValue) -> (r: Result<ImportResponse, String>)
    ensures
        r is Ok <==> import_response_decodes(*v),
        r matches Ok(x) ==> import_response_matches(x, *v),
{
    let items_list = match v.get("Items") {
        Some(JsonValue::Array(xs)) => decode_imported_list(xs)?,
        _ => return Err(field_error("Items")),
    };
    Ok(ImportResponse {
        OperationID: v.text_member("OperationID")?,
        SteamTradeID: v.text_member("SteamTradeID")?,
        SteamTradeState: v.text_member("SteamTradeState")?,
        Items: items_list,
    })
}

/// Whether an exported item decodes.
pub open spec fn exported_decodes(v: JsonValue) -> bool {
    &&& text_of(member(v, "DMarketAssetID"@)) is Some
    &&& text_of(member(v, "Title"@)) is Some
}

/// Whether `r` is an exported item `v`.
pub open spec fn exported_matches(r: ExportedItem, v: JsonValue) -> bool {
    &&& text_of(member(v, "DMarketAssetID"@)) == Some(r.DMarketAssetID@)
    &&& text_of(member(v, "Title"@)) == Some(r.Title@)
}

pub fn decode_exported(v: &JsonValue) -> (r: Result<ExportedItem, String>)
    ensures
        r is Ok <==> exported_decodes(*v),
        r matches Ok(x) ==> exported_matches(x, *v),
{
    Ok(ExportedItem {
        DMarketAssetID: v.text_member("DMarketAssetID")?,
        Title: v.text_member("Title")?,
    })
}

pub open spec fn exported_list_decodes(v: Option<JsonValue>) -> bool {
    match v {
        Some(JsonValue::Array(xs)) => forall|i: int|
            0 <= i < xs@.len() ==> #[trigger] exported_decodes(xs@[i]),
        _ => false,
    }
}

pub fn decode_exported_list(xs: &Vec<JsonValue>) -> (r: Result<Vec<ExportedItem>, String>)
    ensures
        r is Ok <==> forall|i: int| 0 <= i < xs@.len() ==> #[trigger] exported_decodes(xs@[i]),
        r matches Ok(ys) ==> ys@.len() == xs@.len() && forall|i: int|
            0 <= i < xs@.len() ==> #[trigger] exported_matches(ys@[i], xs@[i]),
{
    let mut ys: Vec<ExportedItem> = Vec::new();
    let mut i: usize = 0;
    while i < xs.len()
        invariant
            i <= xs@.len(),
            forall|j: int| 0 <= j < i ==> #[trigger] exported_decodes(xs@[j]),
            ys@.len() == i,
            forall|j: int| 0 <= j < i ==> #[trigger] exported_matches(ys@[j], xs@[j]),
        decreases xs@.len() - i,
    {
        let y = decode_exported(&xs[i])?;
        ys.push(y);
        i = i + 1;
    }
    Ok(ys)
}

/// Whether an export response decodes.
pub open spec fn export_response_decodes(v: JsonValue) -> bool {
    &&& text_of(member(v, "OperationID"@)) is Some
    &&& text_of(member(v, "SteamTradeID"@)) is Some
    &&& text_of(member(v, "State"@)) is Some
    &&& text_of(member(v, "ErrorMessage"@)) is Some
    &&& exported_list_decodes(member(v, "Assets"@))
}

/// Whether `r` is an export response `v`.
pub open spec fn export_response_matches(r: ExportResponse, v: JsonValue) -> bool {
    &&& text_of(member(v, "OperationID"@)) == Some(r.OperationID@)
    &&& text_of(member(v, "SteamTradeID"@)) == Some(r.SteamTradeID@)
    &&& text_of(member(v, "State"@)) == Some(r.State@)
    &&& text_of(member(v, "ErrorMessage"@)) == Some(r.ErrorMessage@)
    &&& member(v, "Assets"@) matches Some(JsonValue::Array(xs)) && r.Assets@.len() == xs@.len()
        && forall|i: int| 0 <= i < xs@.len() ==> #[trigger] exported_matches(r.Assets@[i], xs@[i])
}

pub fn decode_export_response(v: &JsonValue) -> (r: Result<ExportResponse, String>)
    ensures
        r is Ok <==> export_response_decodes(*v),
        r matches Ok(x) ==> export_response_matches(x, *v),
{
    let assets_list = match v.get("Assets") {
        Some(JsonValue::Array(xs)) => decode_exported_list(xs)?,
        _ => return Err(field_error("Assets")),
    };
    Ok(ExportResponse {
        OperationID: v.text_member("OperationID")?,
        SteamTradeID: v.text_member("SteamTradeID")?,
        State: v.text_member("State")?,
        Assets: assets_list,
        ErrorMessage: v.text_member("ErrorMessage")?,
    })
}

/// Whether a target decodes.
pub open spec fn target_decodes(v: JsonValue) -> bool {
    &&& opt_text_ok(member(v, "id"@))
    &&& text_of(member(v, "targetType"@)) is Some
    &&& text_of(member(v, "gameId"@)) is Some
    &&& text_of(member(v, "classId"@)) is Some
    &&& opt_text_ok(member(v, "title"@))
    &&& opt_text_ok(member(v, "status"@))
    &&& opt_i64_ok(member(v, "createdAt"@))
    &&& opt_i64_ok(member(v, "updatedAt"@))
    &&& opt_text_ok(member(v, "phase"@))
    &&& opt_text_ok(member(v, "floatPartValue"@))
    &&& opt_text_ok(member(v, "paintSeed"@))
    &&& opt_object_ok(member(v, "price"@), |x: JsonValue| price_decodes(x))
}

/// Whether `r` is a target `v`.
pub open spec fn target_matches(r: Target, v: JsonValue) -> bool {
    &&& opt_text_matches(r.id, member(v, "id"@))
    &&& text_of(member(v, "targetType"@)) == Some(r.target_type@)
    &&& text_of(member(v, "gameId"@)) == Some(r.game_id@)
    &&& text_of(member(v, "classId"@)) == Some(r.class_id@)
    &&& opt_text_matches(r.title, member(v, "title"@))
    &&& opt_text_matches(r.status, member(v, "status"@))
    &&& opt_i64_matches(r.created_at, member(v, "createdAt"@))
    &&& opt_i64_matches(r.updated_at, member(v, "updatedAt"@))
    &&& opt_text_matches(r.phase, member(v, "phase"@))
    &&& opt_text_matches(r.float_part_value, member(v, "floatPartValue"@))
    &&& opt_text_matches(r.paint_seed, member(v, "paintSeed"@))
    &&& match r.price {
        Some(p) => member(v, "price"@) matches Some(x) && price_matches(p, x),
        None => is_absent(member(v, "price"@)),
    }
}

pub fn decode_target(v: &JsonValue) -> (r: Result<Target, String>)
    ensures
        r is Ok <==> target_decodes(*v),
        r matches Ok(x) ==> target_matches(x, *v),
{
    let price_value = match v.get("price") {
        None => None,
        Some(JsonValue::Null) => None,
        Some(x) => match x {
            JsonValue::Object(_) => Some(decode_price(x)?),
            _ => return Err(field_error("price")),
        },
    };
    Ok(Target {
        id: v.opt_text_member("id")?,
        target_type: v.text_member("targetType")?,
        game_id: v.text_member("gameId")?,
        class_id: v.text_member("classId")?,
        title: v.opt_text_member("title")?,
        status: v.opt_text_member("status")?,
        created_at: v.opt_i64_member("createdAt")?,
        updated_at: v.opt_i64_member("updatedAt")?,
        phase: v.opt_text_member("phase")?,
        float_part_value: v.opt_text_member("floatPartValue")?,
        paint_seed: v.opt_text_member("paintSeed")?,
        price: price_value,
    })
}

pub open spec fn target_list_decodes(v: Option<JsonValue>) -> bool {
    match v {
        Some(JsonValue::Array(xs)) => forall|i: int|
            0 <= i < xs@.len() ==> #[trigger] target_decodes(xs@[i]),
        _ => false,
    }
}

pub fn decode_target_list(xs: &Vec<JsonValue>) -> (r: Result<Vec<Target>, String>)
    ensures
        r is Ok <==> forall|i: int| 0 <= i < xs@.len() ==> #[trigger] target_decodes(xs@[i]),
        r matches Ok(ys) ==> ys@.len() == xs@.len() && forall|i: int|
            0 <= i < xs@.len() ==> #[trigger] target_matches(ys@[i], xs@[i]),
{
    let mut ys: Vec<Target> = Vec::new();
    let mut i: usize = 0;
    while i < xs.len()
        invariant
            i <= xs@.len(),
            forall|j: int| 0 <= j < i ==> #[trigger] target_decodes(xs@[j]),
            ys@.len() == i,
            forall|j: int| 0 <= j < i ==> #[trigger] target_matches(ys@[j], xs@[j]),
        decreases xs@.len() - i,
    {
        let y = decode_target(&xs[i])?;
        ys.push(y);
        i = i + 1;
    }
    Ok(ys)
}

/// Whether a target listing decodes.
pub open spec fn targets_page_decodes(v: JsonValue) -> bool {
    &&& i32_ok(member(v, "total"@))
    &&& target_list_decodes(member(v, "objects"@))
}

/// Whether `r` is a target listing `v`.
pub open spec fn targets_page_matches(r: TargetListResponse, v: JsonValue) -> bool {
    &&& i32_matches(r.total, member(v, "total"@))
    &&& member(v, "objects"@) matches Some(JsonValue::Array(xs)) && r.objects@.len() == xs@.len()
        && forall|i: int| 0 <= i < xs@.len() ==> #[trigger] target_matches(r.objects@[i], xs@[i])
}

pub fn decode_targets_page(v: &JsonValue) -> (r: Result<TargetListResponse, String>)
    ensures
        r is Ok <==> targets_page_decodes(*v),
        r matches Ok(x) ==> targets_page_matches(x, *v),
{
    let objects_list = match v.get("objects") {
        Some(JsonValue::Array(xs)) => decode_target_list(xs)?,
        _ => return Err(field_error("objects")),
    };
    Ok(TargetListResponse {
        objects: objects_list,
        total: v.i32_member("total")?,
    })
}

/// The sell offer outcome that a response carries, or the client error for it.
pub fn read_sell_response(response: RawResponse, decoded: Result<JsonValue, String>) -> (r: Result<
    SellOfferResponse,
    DMarketError,
>)
    ensures
        match delivered(response, decoded) {
            Some(doc) => {
                &&& r is Ok <==> sell_response_decodes(doc)
                &&& r matches Ok(x) ==> sell_response_matches(x, doc)
                &&& r matches Err(e) ==> misshapen(response, e)
            },
            None => r matches Err(e) && undelivered(response, decoded, e),
        },
{
    let doc = read_document(&response, decoded)?;
    match decode_sell_response(&doc) {
        Ok(x) => Ok(x),
        Err(d) => Err(DMarketError::JsonError { diagnostic: d, raw: response.body }),
    }
}

/// The purchase outcome that a response carries, or the client error for it.
pub fn read_buy_response(response: RawResponse, decoded: Result<JsonValue, String>) -> (r: Result<
    BuyOfferResponse,
    DMarketError,
>)
    ensures
        match delivered(response, decoded) {
            Some(doc) => {
                &&& r is Ok <==> buy_response_decodes(doc)
                &&& r matches Ok(x) ==> buy_response_matches(x, doc)
                &&& r matches Err(e) ==> misshapen(response, e)
            },
            None => r matches Err(e) && undelivered(response, decoded, e),
        },
{
    let doc = read_document(&response, decoded)?;
    match decode_buy_response(&doc) {
        Ok(x) => Ok(x),
        Err(d) => Err(DMarketError::JsonError { diagnostic: d, raw: response.body }),
    }
}

/// The target operation outcome that a response carries, or the client error for it.
pub fn read_target_response(response: RawResponse, decoded: Result<JsonValue, String>) -> (r: Result<
    CreateTargetResponse,
    DMarketError,
>)
    ensures
        match delivered(response, decoded) {
            Some(doc) => {
                &&& r is Ok <==> target_response_decodes(doc)
                &&& r matches Ok(x) ==> target_response_matches(x, doc)
                &&& r matches Err(e) ==> misshapen(response, e)
            },
            None => r matches Err(e) && undelivered(response, decoded, e),
        },
{
    let doc = read_document(&response, decoded)?;
    match decode_target_response(&doc) {
        Ok(x) => Ok(x),
        Err(d) => Err(DMarketError::JsonError { diagnostic: d, raw: response.body }),
    }
}

/// The import outcome that a response carries, or the client error for it.
pub fn read_import_response(response: RawResponse, decoded: Result<JsonValue, String>) -> (r: Result<
    ImportResponse,
    DMarketError,
>)
    ensures
        match delivered(response, decoded) {
            Some(doc) => {
                &&& r is Ok <==> import_response_decodes(doc)
                &&& r matches Ok(x) ==> import_response_matches(x, doc)
                &&& r matches Err(e) ==> misshapen(response, e)
            },
            None => r matches Err(e) && undelivered(response, decoded, e),
        },
{
    let doc = read_document(&response, decoded)?;
    match decode_import_response(&doc) {
        Ok(x) => Ok(x),
        Err(d) => Err(DMarketError::JsonError { diagnostic: d, raw: response.body }),
    }
}

/// The export outcome that a response carries, or the client error for it.
pub fn read_export_response(response: RawResponse, decoded: Result<JsonValue, String>) -> (r: Result<
    ExportResponse,
    DMarketError,
>)
    ensures
        match delivered(response, decoded) {
            Some(doc) => {
                &&& r is Ok <==> export_response_decodes(doc)
                &&& r matches Ok(x) ==> export_response_matches(x, doc)
                &&& r matches Err(e) ==> misshapen(response, e)
            },
            None => r matches Err(e) && undelivered(response, decoded, e),
        },
{
    let doc = read_document(&response, decoded)?;
    match decode_export_response(&doc) {
        Ok(x) => Ok(x),
        Err(d) => Err(DMarketError::JsonError { diagnostic: d, raw: response.body }),
    }
}

/// The target listing that a response carries, or the client error for it.
pub fn read_targets_page(response: RawResponse, decoded: Result<JsonValue, String>) -> (r: Result<
    TargetListResponse,
    DMarketError,
>)
    ensures
        match delivered(response, decoded) {
            Some(doc) => {
                &&& r is Ok <==> targets_page_decodes(doc)
                &&& r matches Ok(x) ==> targets_page_matches(x, doc)
                &&& r matches Err(e) ==> misshapen(response, e)
            },
            None => r matches Err(e) && undelivered(response, decoded, e),
        },
{
    let doc = read_document(&response, decoded)?;
    match decode_targets_page(&doc) {
        Ok(x) => Ok(x),
        Err(d) => Err(DMarketError::JsonError { diagnostic: d, raw: response.body }),
    }
}

} // verus!
