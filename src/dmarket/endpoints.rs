//! Request paths and response normalisation for the DMarket endpoints.
use vstd::prelude::*;
use crate::dmarket::models::{
    Balance, Game, InventoryItem, InventoryItemExtra, InventoryResponse, MarketItem,
    MarketItemExtra, MarketItemsResponse, Price,
};
use crate::dmarket::error::{read_document, misshapen, undelivered, DMarketError};
use crate::encoding::{decimal_i64, signed_decimal_text};
use crate::executor::{delivered, RawResponse};
use crate::json::{
    bool_of, i32_ok, int_as_i32, int_of, items_of, member, numeric_of, opt_bool_ok,
    opt_i32_ok, opt_text_ok, opt_view, text_of, text_or, JsonValue,
};

verus! {

/// The price object of a listed item: `USD` is required, `DMC` optional.
pub open spec fn price_decodes(v: Option<JsonValue>) -> bool {
    v matches Some(p) && text_of(member(p, "USD"@)) is Some && opt_text_ok(member(p, "DMC"@))
}

/// Whether a listed item has the members that every item must have.
pub open spec fn market_item_decodes(v: JsonValue) -> bool {
    &&& text_of(member(v, "itemId"@)) is Some
    &&& text_of(member(v, "title"@)) is Some
    &&& text_of(member(v, "gameId"@)) is Some
    &&& text_of(member(v, "classId"@)) is Some
    &&& price_decodes(member(v, "price"@))
}

/// Whether `r` is the normalised form of the listed item `v`: typed members
/// are copied, open-bag members fall back to their defaults.
pub open spec fn market_item_matches(r: MarketItem, v: JsonValue) -> bool {
    let price = member(v, "price"@).unwrap();
    let dmc = text_of(member(price, "DMC"@));
    &&& text_of(member(v, "itemId"@)) == Some(r.item_id@)
    &&& r.item_type@ == text_or(member(v, "type"@), "offer"@)
    &&& text_of(member(v, "title"@)) == Some(r.title@)
    &&& opt_view(r.description) == text_of(member(v, "description"@))
    &&& r.slug@ == text_or(member(v, "slug"@), ""@)
    &&& r.status@ == text_or(member(v, "status"@), "active"@)
    &&& r.ownersCount == int_as_i32(member(v, "ownersCount"@))
    &&& r.image@ == text_or(member(v, "image"@), ""@)
    &&& text_of(member(v, "classId"@)) == Some(r.class_id@)
    &&& r.game@ == text_or(member(v, "game"@), ""@)
    &&& text_of(member(price, "USD"@)) == Some(r.price.amount@)
    &&& r.price.currency@ == "USD"@
    &&& match r.suggested_price {
        Some(p) => dmc == Some(p.amount@) && p.currency@ == "DMC"@,
        None => dmc is None,
    }
    &&& numeric_of(r.discount, member(v, "discount"@))
    &&& opt_view(r.extra.gameId) == Some(r.gameId@)
    &&& opt_view(r.extra.name_color) == text_of(member(v, "nameColor"@))
    &&& opt_view(r.extra.background_color) == text_of(member(v, "backgroundColor"@))
    &&& opt_view(r.extra.category) == text_of(member(v, "category"@))
    &&& opt_view(r.extra.exterior) == text_of(member(v, "exterior"@))
    &&& opt_view(r.extra.category_path) == text_of(member(v, "categoryPath"@))
    &&& r.extra.tradable == bool_of(member(v, "tradable"@))
    &&& r.extra.daysBeforeTrade == int_as_i32(member(v, "daysBeforeTrade"@))
    &&& numeric_of(r.extra.floatValue, member(v, "floatValue"@))
    &&& r.attributes@.len() == 0
    &&& r.locked == bool_of(member(v, "locked"@)).unwrap_or(false)
    &&& r.createdAt == int_of(member(v, "createdAt"@)).unwrap_or(0)
    &&& r.updatedAt == int_of(member(v, "updatedAt"@)).unwrap_or(0)
    &&& r.inMarket == bool_of(member(v, "inMarket"@)).unwrap_or(true)
    &&& text_of(member(v, "gameId"@)) == Some(r.gameId@)
    &&& r.withdrawable == bool_of(member(v, "withdrawable"@)).unwrap_or(true)
    &&& r.tradeLock == int_as_i32(member(v, "tradeLock"@))
    &&& opt_view(r.offer_type) == text_of(member(v, "offerType"@))
    &&& opt_view(r.asset_id) == text_of(member(v, "assetId"@))
}

/// Normalises one listed item.
pub fn normalize_market_item(v: &JsonValue) -> (r: Result<MarketItem, String>)
    ensures
        r is Ok <==> market_item_decodes(*v),
        r matches Ok(item) ==> market_item_matches(item, *v),
{
    let item_id = v.text_member("itemId")?;
    let title = v.text_member("title")?;
    let game_id = v.text_member("gameId")?;
    let class_id = v.text_member("classId")?;
    let price = match v.get("price") {
        Some(p) => p,
        None => return Err(crate::json::field_error("price")),
    };
    let usd = price.text_member("USD")?;
    let dmc = price.opt_text_member("DMC")?;
    let suggested_price = match dmc {
        Some(amount) => Some(Price { amount, currency: String::from_str("DMC") }),
        None => None,
    };
    proof {
        reveal_strlit("USD");
        reveal_strlit("DMC");
    }
    Ok(MarketItem {
        item_id,
        item_type: v.bag_text_or("type", "offer"),
        title,
        description: v.bag_text("description"),
        slug: v.bag_text_or("slug", ""),
        status: v.bag_text_or("status", "active"),
        ownersCount: v.bag_int_as_i32("ownersCount"),
        image: v.bag_text_or("image", ""),
        class_id,
        game: v.bag_text_or("game", ""),
        price: Price { amount: usd, currency: String::from_str("USD") },
        suggested_price,
        discount: v.bag_numeric("discount"),
        extra: MarketItemExtra {
            name_color: v.bag_text("nameColor"),
            background_color: v.bag_text("backgroundColor"),
            category: v.bag_text("category"),
            exterior: v.bag_text("exterior"),
            category_path: v.bag_text("categoryPath"),
            tradable: v.bag_bool("tradable"),
            daysBeforeTrade: v.bag_int_as_i32("daysBeforeTrade"),
            floatValue: v.bag_numeric("floatValue"),
            gameId: Some(game_id.clone()),
        },
        attributes: Vec::new(),
        locked: match v.bag_bool("locked") {
            Some(b) => b,
            None => false,
        },
        createdAt: match v.bag_int("createdAt") {
            Some(n) => n,
            None => 0,
        },
        updatedAt: match v.bag_int("updatedAt") {
            Some(n) => n,
            None => 0,
        },
        inMarket: match v.bag_bool("inMarket") {
            Some(b) => b,
            None => true,
        },
        gameId: game_id,
        withdrawable: match v.bag_bool("withdrawable") {
            Some(b) => b,
            None => true,
        },
        tradeLock: v.bag_int_as_i32("tradeLock"),
        offer_type: v.bag_text("offerType"),
        asset_id: v.bag_text("assetId"),
    })
}

/// A list member decodes: absent, or an array of items that each decode.
pub open spec fn item_list_decodes(v: Option<JsonValue>) -> bool {
    match v {
        None => true,
        Some(JsonValue::Array(xs)) => forall|i: int|
            0 <= i < xs@.len() ==> #[trigger] market_item_decodes(xs@[i]),
        _ => false,
    }
}

/// The items of a list member; an absent member is an empty list.
pub open spec fn list_or_empty(v: Option<JsonValue>) -> Seq<JsonValue> {
    match items_of(v) {
        Some(xs) => xs,
        None => seq![],
    }
}

/// The list that a listing document contributes: `objects` where it is
/// present and non-empty, `items` otherwise.
pub open spec fn chosen_listing(doc: JsonValue) -> Seq<JsonValue> {
    let objects = list_or_empty(member(doc, "objects"@));
    if objects.len() > 0 {
        objects
    } else {
        list_or_empty(member(doc, "items"@))
    }
}

/// Whether both list members of a listing document decode.
pub open spec fn listing_decodes(doc: JsonValue) -> bool {
    doc is Object && item_list_decodes(member(doc, "objects"@)) && item_list_decodes(
        member(doc, "items"@),
    )
}

/// Whether `r` holds, in order, the normalised items of `xs`.
pub open spec fn market_items_match(r: Seq<MarketItem>, xs: Seq<JsonValue>) -> bool {
    r.len() == xs.len() && forall|i: int| 0 <= i < r.len() ==> #[trigger] market_item_matches(
        r[i],
        xs[i],
    )
}

/// Normalises every item of a list, in order.
pub fn normalize_market_items(xs: &Vec<JsonValue>) -> (r: Result<Vec<MarketItem>, String>)
    ensures
        r is Ok <==> forall|i: int| 0 <= i < xs@.len() ==> #[trigger] market_item_decodes(xs@[i]),
        r matches Ok(items) ==> market_items_match(items@, xs@),
{
    let mut out: Vec<MarketItem> = Vec::new();
    let mut i: usize = 0;
    while i < xs.len()
        invariant
            i <= xs@.len(),
            forall|j: int| 0 <= j < i ==> #[trigger] market_item_decodes(xs@[j]),
            market_items_match(out@, xs@.subrange(0, i as int)),
        decreases xs@.len() - i,
    {
        let item = normalize_market_item(&xs[i])?;
        out.push(item);
        i = i + 1;
    }
    assert(xs@.subrange(0, xs@.len() as int) =~= xs@);
    Ok(out)
}

/// Normalises a list member; an absent member is an empty list.
pub fn normalize_item_list(doc: &JsonValue, key: &str) -> (r: Result<Vec<MarketItem>, String>)
    ensures
        r is Ok <==> item_list_decodes(member(*doc, key@)),
        r matches Ok(items) ==> market_items_match(items@, list_or_empty(member(*doc, key@))),
{
    match doc.get(key) {
        None => Ok(Vec::new()),
        Some(JsonValue::Array(xs)) => normalize_market_items(xs),
        Some(_) => Err(crate::json::field_error(key)),
    }
}

/// The normalised items of a listing document, with the `objects` to
/// `items` fallback.
pub fn normalize_listing(doc: &JsonValue) -> (r: Result<Vec<MarketItem>, String>)
    ensures
        r is Ok <==> listing_decodes(*doc),
        r matches Ok(items) ==> market_items_match(items@, chosen_listing(*doc)),
{
    match doc {
        JsonValue::Object(_) => {},
        _ => return Err(String::from_str("listing: not an object")),
    }
    let objects = normalize_item_list(doc, "objects")?;
    let items = normalize_item_list(doc, "items")?;
    if objects.len() > 0 {
        Ok(objects)
    } else {
        Ok(items)
    }
}

/// Whether a total member decodes: a string, an integer, or an object of
/// counters whose `offers` counter, if present and not null, fits `i32`.
pub open spec fn total_decodes(v: Option<JsonValue>) -> bool {
    match v {
        Some(JsonValue::Str(_)) => true,
        Some(JsonValue::Int(_)) => true,
        Some(JsonValue::Object(fields)) => {
            let offers = member(JsonValue::Object(fields), "offers"@);
            opt_i32_ok(offers)
        },
        _ => false,
    }
}

/// The canonical total: a string as given, an integer as its numeral, and for
/// an object of counters the numeral of its `offers` counter (0 if absent).
pub open spec fn total_text(v: Option<JsonValue>) -> Seq<char> {
    match v {
        Some(JsonValue::Str(s)) => s@,
        Some(JsonValue::Int(n)) => signed_decimal_text(n as int),
        Some(JsonValue::Object(fields)) => signed_decimal_text(
            int_of(member(JsonValue::Object(fields), "offers"@)).unwrap_or(0) as int,
        ),
        _ => seq![],
    }
}

/// Normalises the total member of a listing document.
pub fn normalize_total(doc: &JsonValue) -> (r: Result<String, String>)
    ensures
        r is Ok <==> total_decodes(member(*doc, "total"@)),
        r matches Ok(t) ==> t@ == total_text(member(*doc, "total"@)),
{
    match doc.get("total") {
        Some(JsonValue::Str(s)) => Ok(s.clone()),
        Some(JsonValue::Int(n)) => Ok(decimal_i64(*n)),
        Some(counts) => match counts {
            JsonValue::Object(_) => {
                let offers = counts.opt_i32_member("offers")?;
                match offers {
                    Some(n) => Ok(decimal_i64(n as i64)),
                    None => Ok(decimal_i64(0)),
                }
            },
            _ => Err(crate::json::field_error("total")),
        },
        None => Err(crate::json::field_error("total")),
    }
}

/// Whether a market listing document has the shape that normalisation needs.
pub open spec fn market_listing_decodes(doc: JsonValue) -> bool {
    listing_decodes(doc) && total_decodes(member(doc, "total"@)) && opt_text_ok(
        member(doc, "cursor"@),
    )
}

/// Whether `r` is the normalised form of the listing document `doc`.
pub open spec fn market_listing_matches(r: MarketItemsResponse, doc: JsonValue) -> bool {
    market_items_match(r.objects@, chosen_listing(doc)) && r.total@ == total_text(
        member(doc, "total"@),
    )
}

/// Normalises a market listing document.
pub fn normalize_market_listing(doc: &JsonValue) -> (r: Result<MarketItemsResponse, String>)
    ensures
        r is Ok <==> market_listing_decodes(*doc),
        r matches Ok(x) ==> market_listing_matches(x, *doc),
{
    let objects = normalize_listing(doc)?;
    let total = normalize_total(doc)?;
    let _cursor = doc.opt_text_member("cursor")?;
    Ok(MarketItemsResponse { objects, total })
}

/// The market listing that a response carries, or the client error for it.
pub fn read_market_items(response: RawResponse, decoded: Result<JsonValue, String>) -> (r: Result<
    MarketItemsResponse,
    DMarketError,
>)
    ensures
        match delivered(response, decoded) {
            Some(doc) => {
                &&& r is Ok <==> market_listing_decodes(doc)
                &&& r matches Ok(x) ==> market_listing_matches(x, doc)
                &&& r matches Err(e) ==> misshapen(response, e)
            },
            None => r matches Err(e) && undelivered(response, decoded, e),
        },
{
    let doc = read_document(&response, decoded)?;
    match normalize_market_listing(&doc) {
        Ok(x) => Ok(x),
        Err(d) => Err(DMarketError::JsonError { diagnostic: d, raw: response.body }),
    }
}

/// Whether an inventory item has the members that every item must have.
pub open spec fn inventory_item_decodes(v: JsonValue) -> bool {
    &&& text_of(member(v, "itemId"@)) is Some
    &&& text_of(member(v, "name"@)) is Some
    &&& text_of(member(v, "classId"@)) is Some
    &&& text_of(member(v, "gameId"@)) is Some
}

/// Whether `r` is the normalised form of the inventory item `v`.
pub open spec fn inventory_item_matches(r: InventoryItem, v: JsonValue) -> bool {
    &&& text_of(member(v, "itemId"@)) == Some(r.item_id@)
    &&& text_of(member(v, "name"@)) == Some(r.title@)
    &&& r.status@ == text_or(member(v, "status"@), "active"@)
    &&& r.image@ == text_or(member(v, "image"@), ""@)
    &&& text_of(member(v, "gameId"@)) == Some(r.game@)
    &&& text_of(member(v, "classId"@)) == Some(r.class_id@)
    &&& opt_view(r.extra.exterior) == text_of(member(v, "exterior"@))
    &&& opt_view(r.extra.category) == text_of(member(v, "category"@))
    &&& opt_view(r.extra.category_path) == text_of(member(v, "categoryPath"@))
    &&& opt_view(r.extra.name_color) == text_of(member(v, "nameColor"@))
    &&& opt_view(r.extra.background_color) == text_of(member(v, "backgroundColor"@))
    &&& r.extra.tradable == bool_of(member(v, "tradable"@))
    &&& r.extra.daysBeforeTrade == int_as_i32(member(v, "daysBeforeTrade"@))
    &&& numeric_of(r.extra.floatValue, member(v, "floatValue"@))
    &&& r.inMarket == bool_of(member(v, "inMarket"@)).unwrap_or(false)
    &&& r.locked == bool_of(member(v, "locked"@)).unwrap_or(false)
}

/// Normalises one inventory item.
pub fn normalize_inventory_item(v: &JsonValue) -> (r: Result<InventoryItem, String>)
    ensures
        r is Ok <==> inventory_item_decodes(*v),
        r matches Ok(item) ==> inventory_item_matches(item, *v),
{
    let item_id = v.text_member("itemId")?;
    let title = v.text_member("name")?;
    let class_id = v.text_member("classId")?;
    let game = v.text_member("gameId")?;
    Ok(InventoryItem {
        item_id,
        title,
        status: v.bag_text_or("status", "active"),
        image: v.bag_text_or("image", ""),
        game,
        class_id,
        extra: InventoryItemExtra {
            exterior: v.bag_text("exterior"),
            category: v.bag_text("category"),
            category_path: v.bag_text("categoryPath"),
            name_color: v.bag_text("nameColor"),
            background_color: v.bag_text("backgroundColor"),
            tradable: v.bag_bool("tradable"),
            daysBeforeTrade: v.bag_int_as_i32("daysBeforeTrade"),
            floatValue: v.bag_numeric("floatValue"),
        },
        inMarket: match v.bag_bool("inMarket") {
            Some(b) => b,
            None => false,
        },
        locked: match v.bag_bool("locked") {
            Some(b) => b,
            None => false,
        },
    })
}

/// Whether an inventory document has the shape that normalisation needs: an
/// object whose `items`, if present, are inventory items and whose `total`,
/// if present and not null, fits `i32`.
pub open spec fn inventory_decodes(doc: JsonValue) -> bool {
    doc is Object && inventory_list_decodes(member(doc, "items"@)) && opt_i32_ok(
        member(doc, "total"@),
    )
}

pub open spec fn inventory_list_decodes(v: Option<JsonValue>) -> bool {
    match v {
        None => true,
        Some(JsonValue::Array(xs)) => forall|i: int|
            0 <= i < xs@.len() ==> #[trigger] inventory_item_decodes(xs@[i]),
        _ => false,
    }
}

/// Whether `r` is the normalised form of the inventory document `doc`.
pub open spec fn inventory_matches(r: InventoryResponse, doc: JsonValue) -> bool {
    let xs = list_or_empty(member(doc, "items"@));
    &&& r.objects@.len() == xs.len()
    &&& forall|i: int| 0 <= i < xs.len() ==> #[trigger] inventory_item_matches(r.objects@[i], xs[i])
    &&& r.total as i64 == int_of(member(doc, "total"@)).unwrap_or(0)
}

/// Normalises every inventory item of a list, in order.
pub fn normalize_inventory_items(xs: &Vec<JsonValue>) -> (r: Result<Vec<InventoryItem>, String>)
    ensures
        r is Ok <==> forall|i: int| 0 <= i < xs@.len() ==> #[trigger] inventory_item_decodes(xs@[i]),
        r matches Ok(items) ==> items@.len() == xs@.len() && forall|i: int|
            0 <= i < xs@.len() ==> #[trigger] inventory_item_matches(items@[i], xs@[i]),
{
    let mut objects: Vec<InventoryItem> = Vec::new();
    let mut i: usize = 0;
    while i < xs.len()
        invariant
            i <= xs@.len(),
            forall|j: int| 0 <= j < i ==> #[trigger] inventory_item_decodes(xs@[j]),
            objects@.len() == i,
            forall|j: int| 0 <= j < i ==> #[trigger] inventory_item_matches(objects@[j], xs@[j]),
        decreases xs@.len() - i,
    {
        let item = normalize_inventory_item(&xs[i])?;
        objects.push(item);
        i = i + 1;
    }
    Ok(objects)
}

/// Normalises an inventory document.
pub fn normalize_inventory(doc: &JsonValue) -> (r: Result<InventoryResponse, String>)
    ensures
        r is Ok <==> inventory_decodes(*doc),
        r matches Ok(x) ==> inventory_matches(x, *doc),
{
    match doc {
        JsonValue::Object(_) => {},
        _ => return Err(String::from_str("inventory: not an object")),
    }
    let objects = match doc.get("items") {
        None => Vec::new(),
        Some(JsonValue::Array(xs)) => normalize_inventory_items(xs)?,
        Some(_) => return Err(crate::json::field_error("items")),
    };
    let total = match doc.opt_i32_member("total")? {
        Some(n) => n,
        None => 0,
    };
    Ok(InventoryResponse { objects, total })
}

/// The inventory that a response carries, or the client error for it.
pub fn read_inventory(response: RawResponse, decoded: Result<JsonValue, String>) -> (r: Result<
    InventoryResponse,
    DMarketError,
>)
    ensures
        match delivered(response, decoded) {
            Some(doc) => {
                &&& r is Ok <==> inventory_decodes(doc)
                &&& r matches Ok(x) ==> inventory_matches(x, doc)
                &&& r matches Err(e) ==> misshapen(response, e)
            },
            None => r matches Err(e) && undelivered(response, decoded, e),
        },
{
    let doc = read_document(&response, decoded)?;
    match normalize_inventory(&doc) {
        Ok(x) => Ok(x),
        Err(d) => Err(DMarketError::JsonError { diagnostic: d, raw: response.body }),
    }
}

/// Whether a game entry has the members that the games listing types.
pub open spec fn game_decodes(v: JsonValue) -> bool {
    &&& text_of(member(v, "id"@)) is Some
    &&& text_of(member(v, "title"@)) is Some
    &&& opt_text_ok(member(v, "slug"@))
    &&& opt_text_ok(member(v, "logoImageUrl"@))
    &&& opt_text_ok(member(v, "type"@))
    &&& opt_text_ok(member(v, "homeImageURL"@))
    &&& opt_i32_ok(member(v, "offersCount"@))
    &&& opt_bool_ok(member(v, "isReleased"@))
    &&& opt_text_ok(member(v, "authMethod"@))
    &&& opt_bool_ok(member(v, "maintenance"@))
}

/// Whether `r` is the game that the entry `v` describes.
pub open spec fn game_matches(r: Game, v: JsonValue) -> bool {
    &&& text_of(member(v, "id"@)) == Some(r.id@)
    &&& text_of(member(v, "title"@)) == Some(r.title@)
    &&& r.logo@ == text_or(member(v, "logoImageUrl"@), ""@)
    &&& r.slug@ == text_or(member(v, "slug"@), ""@)
    &&& r.status@ == text_or(member(v, "status"@), "active"@)
}

/// Normalises one game entry.
pub fn normalize_game(v: &JsonValue) -> (r: Result<Game, String>)
    ensures
        r is Ok <==> game_decodes(*v),
        r matches Ok(g) ==> game_matches(g, *v),
{
    let id = v.text_member("id")?;
    let title = v.text_member("title")?;
    let slug = v.opt_text_member("slug")?;
    let logo = v.opt_text_member("logoImageUrl")?;
    let _game_type = v.opt_text_member("type")?;
    let _home_image = v.opt_text_member("homeImageURL")?;
    let _offers = v.opt_i32_member("offersCount")?;
    let _released = v.opt_bool_member("isReleased")?;
    let _auth = v.opt_text_member("authMethod")?;
    let _maintenance = v.opt_bool_member("maintenance")?;
    Ok(Game {
        id,
        title,
        logo: match logo {
            Some(l) => l,
            None => String::from_str(""),
        },
        slug: match slug {
            Some(s) => s,
            None => String::from_str(""),
        },
        status: v.bag_text_or("status", "active"),
    })
}

/// Whether a games document has the shape that normalisation needs.
pub open spec fn games_decode(doc: JsonValue) -> bool {
    game_list_decodes(member(doc, "objects"@)) && i32_ok(member(doc, "total"@))
}

pub open spec fn game_list_decodes(v: Option<JsonValue>) -> bool {
    match v {
        Some(JsonValue::Array(xs)) => forall|i: int|
            0 <= i < xs@.len() ==> #[trigger] game_decodes(xs@[i]),
        _ => false,
    }
}

/// Whether `r` lists, in order, the games of the document `doc`.
pub open spec fn games_match(r: Seq<Game>, doc: JsonValue) -> bool {
    let xs = list_or_empty(member(doc, "objects"@));
    r.len() == xs.len() && forall|i: int| 0 <= i < xs.len() ==> #[trigger] game_matches(r[i], xs[i])
}

/// Normalises every game entry of a list, in order.
pub fn normalize_game_list(xs: &Vec<JsonValue>) -> (r: Result<Vec<Game>, String>)
    ensures
        r is Ok <==> forall|i: int| 0 <= i < xs@.len() ==> #[trigger] game_decodes(xs@[i]),
        r matches Ok(gs) ==> gs@.len() == xs@.len() && forall|i: int|
            0 <= i < xs@.len() ==> #[trigger] game_matches(gs@[i], xs@[i]),
{
    let mut games: Vec<Game> = Vec::new();
    let mut i: usize = 0;
    while i < xs.len()
        invariant
            i <= xs@.len(),
            forall|j: int| 0 <= j < i ==> #[trigger] game_decodes(xs@[j]),
            games@.len() == i,
            forall|j: int| 0 <= j < i ==> #[trigger] game_matches(games@[j], xs@[j]),
        decreases xs@.len() - i,
    {
        let g = normalize_game(&xs[i])?;
        games.push(g);
        i = i + 1;
    }
    Ok(games)
}

/// Normalises a games document.
pub fn normalize_games(doc: &JsonValue) -> (r: Result<Vec<Game>, String>)
    ensures
        r is Ok <==> games_decode(*doc),
        r matches Ok(gs) ==> games_match(gs@, *doc),
{
    let games = match doc.get("objects") {
        Some(JsonValue::Array(xs)) => normalize_game_list(xs)?,
        _ => return Err(crate::json::field_error("objects")),
    };
    let _total = doc.i32_member("total")?;
    Ok(games)
}

/// The games that a response lists, or the client error for it.
pub fn read_games(response: RawResponse, decoded: Result<JsonValue, String>) -> (r: Result<
    Vec<Game>,
    DMarketError,
>)
    ensures
        match delivered(response, decoded) {
            Some(doc) => {
                &&& r is Ok <==> games_decode(doc)
                &&& r matches Ok(gs) ==> games_match(gs@, doc)
                &&& r matches Err(e) ==> misshapen(response, e)
            },
            None => r matches Err(e) && undelivered(response, decoded, e),
        },
{
    let doc = read_document(&response, decoded)?;
    match normalize_games(&doc) {
        Ok(x) => Ok(x),
        Err(d) => Err(DMarketError::JsonError { diagnostic: d, raw: response.body }),
    }
}

/// The balances that a balance document reports: `usd` then `dmc`, each only
/// where it is a string.
pub open spec fn balances_match(r: Seq<Balance>, doc: JsonValue) -> bool {
    let usd = text_of(member(doc, "usd"@));
    let dmc = text_of(member(doc, "dmc"@));
    let n = (if usd is Some { 1int } else { 0int }) + (if dmc is Some { 1int } else { 0int });
    &&& r.len() == n
    &&& usd matches Some(a) ==> r[0].amount@ == a && r[0].currency@ == "USD"@
    &&& dmc matches Some(a) ==> r[n - 1].amount@ == a && r[n - 1].currency@ == "DMC"@
}

/// The balances that a balance document reports.
pub fn normalize_balances(doc: &JsonValue) -> (r: Vec<Balance>)
    ensures
        balances_match(r@, *doc),
{
    let mut balances: Vec<Balance> = Vec::new();
    match doc.bag_text("usd") {
        Some(amount) => balances.push(Balance { currency: String::from_str("USD"), amount }),
        None => {},
    }
    match doc.bag_text("dmc") {
        Some(amount) => balances.push(Balance { currency: String::from_str("DMC"), amount }),
        None => {},
    }
    balances
}

/// The balances that a response reports, or the client error for it.
pub fn read_balances(response: RawResponse, decoded: Result<JsonValue, String>) -> (r: Result<
    Vec<Balance>,
    DMarketError,
>)
    ensures
        match delivered(response, decoded) {
            Some(doc) => r matches Ok(b) && balances_match(b@, doc),
            None => r matches Err(e) && undelivered(response, decoded, e),
        },
{
    let doc = read_document(&response, decoded)?;
    Ok(normalize_balances(&doc))
}

/// A listing document that carries its items under `items` and no `objects`
/// member normalises exactly as one that carries the same items under
/// `objects`: both decode or neither does, and they accept the same results.
pub proof fn lemma_items_fallback(with_items: JsonValue, with_objects: JsonValue, xs: Seq<JsonValue>)
    requires
        with_items is Object,
        with_objects is Object,
        member(with_items, "objects"@) is None,
        items_of(member(with_items, "items"@)) == Some(xs),
        items_of(member(with_objects, "objects"@)) == Some(xs),
        member(with_objects, "items"@) is None,
        member(with_items, "total"@) == member(with_objects, "total"@),
        member(with_items, "cursor"@) == member(with_objects, "cursor"@),
    ensures
        chosen_listing(with_items) == chosen_listing(with_objects),
        market_listing_decodes(with_items) <==> market_listing_decodes(with_objects),
        forall|r: MarketItemsResponse|
            #[trigger] market_listing_matches(r, with_items) <==> market_listing_matches(
                r,
                with_objects,
            ),
{
}

} // verus!
