//! The DMarket endpoint families: each builds the signed request of an
//! endpoint from its parameters.
use vstd::prelude::*;
use crate::dmarket::client::{prepared, DMarketClient, SignedRequest};
use crate::dmarket::error::DMarketError;
use crate::encoding::{decimal_text, decimal_u64, encode_url, url_encoded};
use crate::dmarket::models::SellOfferPrice;
use crate::json::JsonValue;
use crate::query::{opt_str_view, path_with_query, push_param, query_text, with_param};

verus! {

pub open spec fn opt_decimal(o: Option<u32>) -> Option<Seq<char>> {
    match o {
        Some(n) => Some(decimal_text(n as nat)),
        None => None,
    }
}

pub open spec fn opt_url_encoded(o: Option<Seq<char>>) -> Option<Seq<char>> {
    match o {
        Some(t) => Some(url_encoded(t)),
        None => None,
    }
}

pub open spec fn paging(limit: u32, offset: u32) -> Seq<(Seq<char>, Seq<char>)> {
    seq![("limit"@, decimal_text(limit as nat)), ("offset"@, decimal_text(offset as nat))]
}

/// Query of the market items listing, in the order the parameters are sent;
/// the title is percent-encoded.
pub open spec fn market_items_query(
    game_id: Seq<char>,
    currency: Seq<char>,
    limit: u32,
    offset: u32,
    order_by: Option<Seq<char>>,
    order_dir: Option<Seq<char>>,
    title: Option<Seq<char>>,
    tree_filters: Option<Seq<char>>,
    price_from: Option<u32>,
    price_to: Option<u32>,
    types: Option<Seq<char>>,
    cursor: Option<Seq<char>>,
) -> Seq<(Seq<char>, Seq<char>)> {
    let base = seq![("gameId"@, game_id), ("currency"@, currency)] + paging(limit, offset);
    let q = with_param(base, "orderBy"@, order_by);
    let q = with_param(q, "orderDir"@, order_dir);
    let q = with_param(q, "title"@, opt_url_encoded(title));
    let q = with_param(q, "treeFilters"@, tree_filters);
    let q = with_param(q, "priceFrom"@, opt_decimal(price_from));
    let q = with_param(q, "priceTo"@, opt_decimal(price_to));
    let q = with_param(q, "types"@, types);
    with_param(q, "cursor"@, cursor)
}

/// Query of a title search; the game defaults to `a411`.
pub open spec fn search_query(
    query: Seq<char>,
    currency: Seq<char>,
    limit: u32,
    offset: u32,
    game_id: Option<Seq<char>>,
) -> Seq<(Seq<char>, Seq<char>)> {
    seq![("currency"@, currency)] + paging(limit, offset) + seq![
        ("title"@, url_encoded(query)),
        ("gameId"@, match game_id {
            Some(g) => g,
            None => "a411"@,
        }),
    ]
}

fn paging_params(limit: u32, offset: u32) -> (r: Vec<(String, String)>)
    ensures
        crate::query::pairs_view(r@) == paging(limit, offset),
{
    let mut ps: Vec<(String, String)> = Vec::new();
    ps.push((String::from_str("limit"), decimal_u64(limit as u64)));
    ps.push((String::from_str("offset"), decimal_u64(offset as u64)));
    assert(crate::query::pairs_view(ps@) =~= paging(limit, offset));
    ps
}

/// Account endpoints.
pub struct AccountHandler<'a> {
    pub client: &'a DMarketClient,
}

impl<'a> AccountHandler<'a> {
    pub fn new(client: &'a DMarketClient) -> (r: Self)
        ensures
            r.client == client,
    {
        AccountHandler { client }
    }

    /// The request for the user profile.
    pub fn user_profile_request(&self, timestamp: &str) -> (r: Result<SignedRequest, DMarketError>)
        ensures
            prepared(*self.client, "GET"@, "/account/v1/user"@, ""@, timestamp@, r),
    {
        self.client.prepare("GET", "/account/v1/user", "", timestamp)
    }

    /// The request for the account balance.
    pub fn account_balance_request(&self, timestamp: &str) -> (r: Result<
        SignedRequest,
        DMarketError,
    >)
        ensures
            prepared(*self.client, "GET"@, "/account/v1/balance"@, ""@, timestamp@, r),
    {
        self.client.prepare("GET", "/account/v1/balance", "", timestamp)
    }
}

/// Exchange and market endpoints.
pub struct ExchangeHandler<'a> {
    pub client: &'a DMarketClient,
}

impl<'a> ExchangeHandler<'a> {
    pub fn new(client: &'a DMarketClient) -> (r: Self)
        ensures
            r.client == client,
    {
        ExchangeHandler { client }
    }

    /// The request for a page of market items.
    pub fn market_items_request(
        &self,
        timestamp: &str,
        game_id: &str,
        currency: &str,
        limit: u32,
        offset: u32,
        order_by: Option<&str>,
        order_dir: Option<&str>,
        title: Option<&str>,
        tree_filters: Option<&str>,
        price_from: Option<u32>,
        price_to: Option<u32>,
        types: Option<&str>,
        cursor: Option<&str>,
    ) -> (r: Result<SignedRequest, DMarketError>)
        ensures
            prepared(
                *self.client,
                "GET"@,
                "/exchange/v1/market/items?"@ + query_text(
                    market_items_query(
                        game_id@,
                        currency@,
                        limit,
                        offset,
                        opt_str_view(order_by),
                        opt_str_view(order_dir),
                        opt_str_view(title),
                        opt_str_view(tree_filters),
                        price_from,
                        price_to,
                        opt_str_view(types),
                        opt_str_view(cursor),
                    ),
                ),
                ""@,
                timestamp@,
                r,
            ),
    {
        let mut ps: Vec<(String, String)> = Vec::new();
        ps.push((String::from_str("gameId"), String::from_str(game_id)));
        ps.push((String::from_str("currency"), String::from_str(currency)));
        let mut page = paging_params(limit, offset);
        ps.append(&mut page);
        assert(crate::query::pairs_view(ps@) =~= seq![("gameId"@, game_id@), ("currency"@, currency@)]
            + paging(limit, offset));
        push_param(&mut ps, "orderBy", order_by);
        push_param(&mut ps, "orderDir", order_dir);
        let encoded_title = match title {
            Some(t) => Some(encode_url(t)),
            None => None,
        };
        match &encoded_title {
            Some(t) => push_param(&mut ps, "title", Some(t.as_str())),
            None => push_param(&mut ps, "title", None),
        }
        push_param(&mut ps, "treeFilters", tree_filters);
        let from = match price_from {
            Some(p) => Some(decimal_u64(p as u64)),
            None => None,
        };
        match &from {
            Some(t) => push_param(&mut ps, "priceFrom", Some(t.as_str())),
            None => push_param(&mut ps, "priceFrom", None),
        }
        let to = match price_to {
            Some(p) => Some(decimal_u64(p as u64)),
            None => None,
        };
        match &to {
            Some(t) => push_param(&mut ps, "priceTo", Some(t.as_str())),
            None => push_param(&mut ps, "priceTo", None),
        }
        push_param(&mut ps, "types", types);
        push_param(&mut ps, "cursor", cursor);
        let path = path_with_query("/exchange/v1/market/items?", &ps);
        self.client.prepare("GET", path.as_str(), "", timestamp)
    }

    /// The request for a title search of the market.
    pub fn search_market_items_request(
        &self,
        timestamp: &str,
        query: &str,
        currency: &str,
        limit: u32,
        offset: u32,
        game_id: Option<&str>,
    ) -> (r: Result<SignedRequest, DMarketError>)
        ensures
            prepared(
                *self.client,
                "GET"@,
                "/exchange/v1/market/items?"@ + query_text(
                    search_query(query@, currency@, limit, offset, opt_str_view(game_id)),
                ),
                ""@,
                timestamp@,
                r,
            ),
    {
        let mut ps: Vec<(String, String)> = Vec::new();
        ps.push((String::from_str("currency"), String::from_str(currency)));
        let mut page = paging_params(limit, offset);
        ps.append(&mut page);
        ps.push((String::from_str("title"), encode_url(query)));
        let game = match game_id {
            Some(g) => String::from_str(g),
            None => String::from_str("a411"),
        };
        ps.push((String::from_str("gameId"), game));
        assert(crate::query::pairs_view(ps@) =~= search_query(
            query@,
            currency@,
            limit,
            offset,
            opt_str_view(game_id),
        ));
        let path = path_with_query("/exchange/v1/market/items?", &ps);
        self.client.prepare("GET", path.as_str(), "", timestamp)
    }

    /// The request for the list of games.
    pub fn games_request(&self, timestamp: &str) -> (r: Result<SignedRequest, DMarketError>)
        ensures
            prepared(*self.client, "GET"@, "/exchange/v1/games"@, ""@, timestamp@, r),
    {
        self.client.prepare("GET", "/exchange/v1/games", "", timestamp)
    }

    /// The request for the sell offers of one item class.
    pub fn market_item_details_request(
        &self,
        timestamp: &str,
        class_id: &str,
        limit: u32,
        offset: u32,
        currency: &str,
    ) -> (r: Result<SignedRequest, DMarketError>)
        ensures
            prepared(
                *self.client,
                "GET"@,
                "/offers-search/v1/aggregated-class/"@ + class_id@ + "/sell-offers?"@ + query_text(
                    paging(limit, offset).push(("currency"@, currency@)),
                ),
                ""@,
                timestamp@,
                r,
            ),
    {
        let mut base = String::from_str("/offers-search/v1/aggregated-class/");
        base.append(class_id);
        base.append("/sell-offers?");
        let mut ps = paging_params(limit, offset);
        ps.push((String::from_str("currency"), String::from_str(currency)));
        assert(crate::query::pairs_view(ps@) =~= paging(limit, offset).push(("currency"@, currency@)));
        let path = path_with_query(base.as_str(), &ps);
        self.client.prepare("GET", path.as_str(), "", timestamp)
    }
}

/// Inventory endpoints.
pub struct InventoryHandler<'a> {
    pub client: &'a DMarketClient,
}

impl<'a> InventoryHandler<'a> {
    pub fn new(client: &'a DMarketClient) -> (r: Self)
        ensures
            r.client == client,
    {
        InventoryHandler { client }
    }

    /// The request for a page of the user's inventory.
    pub fn inventory_request(&self, timestamp: &str, limit: u32, offset: u32, game_id: Option<&str>) -> (r:
        Result<SignedRequest, DMarketError>)
        ensures
            prepared(
                *self.client,
                "GET"@,
                "/exchange/v1/user/inventory?"@ + query_text(
                    with_param(paging(limit, offset), "gameId"@, opt_str_view(game_id)),
                ),
                ""@,
                timestamp@,
                r,
            ),
    {
        let mut ps = paging_params(limit, offset);
        push_param(&mut ps, "gameId", game_id);
        let path = path_with_query("/exchange/v1/user/inventory?", &ps);
        self.client.prepare("GET", path.as_str(), "", timestamp)
    }
}

/// Trading endpoints: sell offers, purchases, imports and exports. Each
/// takes the JSON text of its request body, which the signature covers.
pub struct TradingHandler<'a> {
    pub client: &'a DMarketClient,
}

/// Whether `v` is the string `s`.
pub open spec fn is_text(v: JsonValue, s: Seq<char>) -> bool {
    v matches JsonValue::Str(t) && t@ == s
}

/// Whether `doc` is exactly the body of a price update:
/// `{"offers":[{"offerId":offer_id,"price":{"amount":amount,"currency":currency}}]}`,
/// with no other member at any level.
pub open spec fn is_price_update(doc: JsonValue, offer_id: Seq<char>, amount: Seq<char>, currency: Seq<char>) -> bool {
    match doc {
        JsonValue::Object(top) => top@.len() == 1 && top@[0].0@ == "offers"@ && match top@[0].1 {
            JsonValue::Array(offers) => offers@.len() == 1 && match offers@[0] {
                JsonValue::Object(offer) => {
                    &&& offer@.len() == 2
                    &&& offer@[0].0@ == "offerId"@
                    &&& is_text(offer@[0].1, offer_id)
                    &&& offer@[1].0@ == "price"@
                    &&& match offer@[1].1 {
                        JsonValue::Object(price) => {
                            &&& price@.len() == 2
                            &&& price@[0].0@ == "amount"@
                            &&& is_text(price@[0].1, amount)
                            &&& price@[1].0@ == "currency"@
                            &&& is_text(price@[1].1, currency)
                        },
                        _ => false,
                    }
                },
                _ => false,
            },
            _ => false,
        },
        _ => false,
    }
}

impl<'a> TradingHandler<'a> {
    pub fn new(client: &'a DMarketClient) -> (r: Self)
        ensures
            r.client == client,
    {
        TradingHandler { client }
    }

    pub fn create_sell_offer_request(&self, timestamp: &str, body: &str) -> (r: Result<
        SignedRequest,
        DMarketError,
    >)
        ensures
            prepared(*self.client, "POST"@, "/trading/v1/sell-offer"@, body@, timestamp@, r),
    {
        self.client.prepare("POST", "/trading/v1/sell-offer", body, timestamp)
    }

    pub fn buy_offer_request(&self, timestamp: &str, body: &str) -> (r: Result<
        SignedRequest,
        DMarketError,
    >)
        ensures
            prepared(*self.client, "POST"@, "/trading/v1/buy/offers"@, body@, timestamp@, r),
    {
        self.client.prepare("POST", "/trading/v1/buy/offers", body, timestamp)
    }

    pub fn import_items_request(&self, timestamp: &str, body: &str) -> (r: Result<
        SignedRequest,
        DMarketError,
    >)
        ensures
            prepared(*self.client, "POST"@, "/trading/v1/import"@, body@, timestamp@, r),
    {
        self.client.prepare("POST", "/trading/v1/import", body, timestamp)
    }

    pub fn export_items_request(&self, timestamp: &str, body: &str) -> (r: Result<
        SignedRequest,
        DMarketError,
    >)
        ensures
            prepared(*self.client, "POST"@, "/trading/v1/export"@, body@, timestamp@, r),
    {
        self.client.prepare("POST", "/trading/v1/export", body, timestamp)
    }

    pub fn cancel_sell_offer_request(&self, timestamp: &str, body: &str) -> (r: Result<
        SignedRequest,
        DMarketError,
    >)
        ensures
            prepared(*self.client, "POST"@, "/trading/v1/offers/cancel"@, body@, timestamp@, r),
    {
        self.client.prepare("POST", "/trading/v1/offers/cancel", body, timestamp)
    }

    pub fn update_offer_price_request(&self, timestamp: &str, body: &str) -> (r: Result<
        SignedRequest,
        DMarketError,
    >)
        ensures
            prepared(*self.client, "POST"@, "/trading/v1/offers/update-price"@, body@, timestamp@, r),
    {
        self.client.prepare("POST", "/trading/v1/offers/update-price", body, timestamp)
    }

    /// The body of a price update: `{"offers":[{"offerId":..,"price":{..}}]}`.
    pub fn update_offer_price_body(offer_id: &str, new_price: &SellOfferPrice) -> (r: JsonValue)
        ensures
            is_price_update(r, offer_id@, new_price.amount@, new_price.currency@),
    {
        let mut price_fields: Vec<(String, JsonValue)> = Vec::new();
        price_fields.push((String::from_str("amount"), JsonValue::Str(new_price.amount.clone())));
        price_fields.push((String::from_str("currency"), JsonValue::Str(new_price.currency.clone())));
        let price = JsonValue::Object(price_fields);
        let mut offer_fields: Vec<(String, JsonValue)> = Vec::new();
        offer_fields.push((String::from_str("offerId"), JsonValue::Str(String::from_str(offer_id))));
        offer_fields.push((String::from_str("price"), price));
        let mut offers: Vec<JsonValue> = Vec::new();
        offers.push(JsonValue::Object(offer_fields));
        let mut fields: Vec<(String, JsonValue)> = Vec::new();
        fields.push((String::from_str("offers"), JsonValue::Array(offers)));
        JsonValue::Object(fields)
    }

    pub fn user_sell_offers_request(
        &self,
        timestamp: &str,
        limit: u32,
        offset: u32,
        game_id: Option<&str>,
        status: Option<&str>,
    ) -> (r: Result<SignedRequest, DMarketError>)
        ensures
            prepared(
                *self.client,
                "GET"@,
                "/offers-search/v1/user/sell-offers?"@ + query_text(
                    with_param(
                        with_param(paging(limit, offset), "gameId"@, opt_str_view(game_id)),
                        "status"@,
                        opt_str_view(status),
                    ),
                ),
                ""@,
                timestamp@,
                r,
            ),
    {
        let mut ps = paging_params(limit, offset);
        push_param(&mut ps, "gameId", game_id);
        push_param(&mut ps, "status", status);
        let path = path_with_query("/offers-search/v1/user/sell-offers?", &ps);
        self.client.prepare("GET", path.as_str(), "", timestamp)
    }
}

/// Whether `doc` is exactly `{key: [ids...]}`: one member, an array of the
/// ids as strings, in order.
pub open spec fn is_id_list(doc: JsonValue, key: Seq<char>, ids: Seq<String>) -> bool {
    match doc {
        JsonValue::Object(top) => top@.len() == 1 && top@[0].0@ == key && match top@[0].1 {
            JsonValue::Array(xs) => xs@.len() == ids.len() && forall|i: int|
                0 <= i < xs@.len() ==> is_text(#[trigger] xs@[i], ids[i]@),
            _ => false,
        },
        _ => false,
    }
}

/// The body `{key: [ids...]}` that cancelling offers and deleting targets send.
pub fn id_list_body(key: &str, ids: &Vec<String>) -> (r: JsonValue)
    ensures
        is_id_list(r, key@, ids@),
{
    let mut xs: Vec<JsonValue> = Vec::new();
    let mut i: usize = 0;
    while i < ids.len()
        invariant
            i <= ids@.len(),
            xs@.len() == i,
            forall|j: int| 0 <= j < i ==> is_text(#[trigger] xs@[j], ids@[j]@),
        decreases ids@.len() - i,
    {
        xs.push(JsonValue::Str(ids[i].clone()));
        i = i + 1;
    }
    let mut fields: Vec<(String, JsonValue)> = Vec::new();
    fields.push((String::from_str(key), JsonValue::Array(xs)));
    JsonValue::Object(fields)
}

impl DMarketClient {
    pub fn account(&self) -> (r: AccountHandler<'_>)
        ensures
            r.client == self,
    {
        AccountHandler::new(self)
    }

    pub fn exchange(&self) -> (r: ExchangeHandler<'_>)
        ensures
            r.client == self,
    {
        ExchangeHandler::new(self)
    }

    pub fn inventory(&self) -> (r: InventoryHandler<'_>)
        ensures
            r.client == self,
    {
        InventoryHandler::new(self)
    }

    pub fn trading(&self) -> (r: TradingHandler<'_>)
        ensures
            r.client == self,
    {
        TradingHandler::new(self)
    }

    pub fn target(&self) -> (r: TargetHandler<'_>)
        ensures
            r.client == self,
    {
        TargetHandler::new(self)
    }
}

/// Target (buy order) endpoints.
pub struct TargetHandler<'a> {
    pub client: &'a DMarketClient,
}

impl<'a> TargetHandler<'a> {
    pub fn new(client: &'a DMarketClient) -> (r: Self)
        ensures
            r.client == client,
    {
        TargetHandler { client }
    }

    pub fn create_target_request(&self, timestamp: &str, body: &str) -> (r: Result<
        SignedRequest,
        DMarketError,
    >)
        ensures
            prepared(*self.client, "POST"@, "/target-predictor/v1/target"@, body@, timestamp@, r),
    {
        self.client.prepare("POST", "/target-predictor/v1/target", body, timestamp)
    }

    pub fn get_targets_request(&self, timestamp: &str, limit: u32, offset: u32) -> (r: Result<
        SignedRequest,
        DMarketError,
    >)
        ensures
            prepared(
                *self.client,
                "GET"@,
                "/target-predictor/v1/user/targets?"@ + query_text(paging(limit, offset)),
                ""@,
                timestamp@,
                r,
            ),
    {
        let ps = paging_params(limit, offset);
        let path = path_with_query("/target-predictor/v1/user/targets?", &ps);
        self.client.prepare("GET", path.as_str(), "", timestamp)
    }

    /// Deleting targets uses the DELETE method with a JSON body.
    pub fn delete_targets_request(&self, timestamp: &str, body: &str) -> (r: Result<
        SignedRequest,
        DMarketError,
    >)
        ensures
            prepared(*self.client, "DELETE"@, "/target-predictor/v1/target"@, body@, timestamp@, r),
    {
        self.client.prepare("DELETE", "/target-predictor/v1/target", body, timestamp)
    }
}

} // verus!
