//! The Buff Market client: session-cookie requests, envelope checking and the
//! paging of the goods listing.
use vstd::prelude::*;
use crate::buff_market::decode::{
    decode_goods_response, decode_orders_response, goods_response_decodes, goods_response_matches,
    orders_response_decodes, orders_response_matches,
};
use crate::buff_market::error::BuffMarketError;
use crate::buff_market::models::{
    GoodsBuyOrderResponse, MarketGoodsData, MarketGoodsItem, MarketGoodsResponse,
};
use crate::encoding::{decimal_i64, decimal_u64, decimal_text, signed_decimal_text};
use crate::executor::{delivered, is_success, RawResponse, ResponseError};
use crate::headers::{checked_header, fixed_header, is_entry, is_header_value, Header};
use crate::json::{member, text_of, JsonValue};
use crate::query::{path_with_query, query_text};

verus! {

pub const BUFF_MARKET_GOODS_API_URL: &'static str = "https://api.buff.market/api/market/goods";

pub const BUFF_BUY_ORDERS_API_URL: &'static str =
    "https://api.buff.market/api/market/goods/buy_order";

/// A request ready to send.
pub struct BuffRequest {
    pub url: String,
    pub headers: Vec<Header>,
}

pub struct BuffMarketClient {
    pub session_cookie: String,
    pub csrf_token: String,
}

/// Whether `e` is the error for a response that delivers no document.
pub open spec fn undelivered(response: RawResponse, decoded: Result<JsonValue, String>, e: BuffMarketError) -> bool {
    if !is_success(response.status) {
        e matches BuffMarketError::HttpStatus { status, body } && status == response.status && body@
            == response.body@
    } else {
        decoded matches Err(d) && e matches BuffMarketError::JsonParse { diagnostic, raw }
            && diagnostic@ == d@ && raw@ == response.body@
    }
}

/// The message of a refusing envelope: its `msg`, or a fixed text.
pub open spec fn refusal_message(msg: Option<JsonValue>) -> Seq<char> {
    match text_of(msg) {
        Some(m) => m,
        None => "Unknown API error"@,
    }
}

/// Whether a document is an envelope whose code is `OK`.
pub open spec fn accepted(doc: JsonValue) -> bool {
    text_of(member(doc, "code"@)) == Some("OK"@)
}

/// What an envelope endpoint yields for a document: a decode error if the
/// document has the wrong shape, an application error with the envelope's
/// message if its code is not `OK`, and otherwise a value.
pub open spec fn envelope_outcome<T>(
    response: RawResponse,
    doc: JsonValue,
    shape_ok: bool,
    r: Result<T, BuffMarketError>,
) -> bool {
    &&& !shape_ok ==> (r matches Err(BuffMarketError::JsonParse { raw, .. }) && raw@
        == response.body@)
    &&& shape_ok && !accepted(doc) ==> (r matches Err(BuffMarketError::ApiError { message })
        && message@ == refusal_message(member(doc, "msg"@)))
    &&& shape_ok && accepted(doc) ==> r is Ok
}

fn read_document(response: &RawResponse, decoded: Result<JsonValue, String>) -> (r: Result<
    JsonValue,
    BuffMarketError,
>)
    ensures
        match delivered(*response, decoded) {
            Some(doc) => r == Ok::<JsonValue, BuffMarketError>(doc),
            None => r matches Err(e) && undelivered(*response, decoded, e),
        },
{
    match response.document(decoded) {
        Ok(doc) => Ok(doc),
        Err(ResponseError::Status { status, body }) => Err(BuffMarketError::HttpStatus { status, body }),
        Err(ResponseError::Deserialization { diagnostic, raw }) => Err(
            BuffMarketError::JsonParse { diagnostic, raw },
        ),
    }
}

fn refusal(msg: &Option<String>) -> (r: BuffMarketError)
    ensures
        r matches BuffMarketError::ApiError { message } && message@ == match msg {
            Some(m) => m@,
            None => "Unknown API error"@,
        },
{
    match msg {
        Some(m) => BuffMarketError::ApiError { message: m.clone() },
        None => BuffMarketError::ApiError { message: String::from_str("Unknown API error") },
    }
}

/// The goods listing page that a response carries. A page whose envelope
/// code is not `OK` is an application error with the envelope's message.
pub fn read_market_listings(response: RawResponse, decoded: Result<JsonValue, String>) -> (r: Result<
    MarketGoodsResponse,
    BuffMarketError,
>)
    ensures
        match delivered(response, decoded) {
            Some(doc) => {
                &&& envelope_outcome(response, doc, goods_response_decodes(doc), r)
                &&& r matches Ok(x) ==> goods_response_matches(x, doc)
            },
            None => r matches Err(e) && undelivered(response, decoded, e),
        },
{
    let doc = read_document(&response, decoded)?;
    let page = match decode_goods_response(&doc) {
        Ok(p) => p,
        Err(d) => return Err(BuffMarketError::JsonParse { diagnostic: d, raw: response.body }),
    };
    if !crate::json::text_eq(page.code.as_str(), "OK") {
        proof {
            reveal_strlit("OK");
        }
        return Err(refusal(&page.msg));
    }
    Ok(page)
}

/// The buy orders page that a response carries, checked as
/// `read_market_listings` checks a goods page.
pub fn read_buy_orders(response: RawResponse, decoded: Result<JsonValue, String>) -> (r: Result<
    GoodsBuyOrderResponse,
    BuffMarketError,
>)
    ensures
        match delivered(response, decoded) {
            Some(doc) => {
                &&& envelope_outcome(response, doc, orders_response_decodes(doc), r)
                &&& r matches Ok(x) ==> orders_response_matches(x, doc)
            },
            None => r matches Err(e) && undelivered(response, decoded, e),
        },
{
    let doc = read_document(&response, decoded)?;
    let page = match decode_orders_response(&doc) {
        Ok(p) => p,
        Err(d) => return Err(BuffMarketError::JsonParse { diagnostic: d, raw: response.body }),
    };
    if !crate::json::text_eq(page.code.as_str(), "OK") {
        proof {
            reveal_strlit("OK");
        }
        return Err(refusal(&page.msg));
    }
    Ok(page)
}

/// Query of a goods listing page.
pub open spec fn listings_query(game: Seq<char>, page_num: i32, page_size: i32) -> Seq<
    (Seq<char>, Seq<char>),
> {
    seq![
        ("game"@, game),
        ("page_num"@, signed_decimal_text(page_num as int)),
        ("page_size"@, signed_decimal_text(page_size as int)),
    ]
}

/// Query of a buy orders page; `_` carries the time in milliseconds.
pub open spec fn buy_orders_query(game: Seq<char>, goods_id: i64, page_num: i32, timestamp_ms: u64) -> Seq<
    (Seq<char>, Seq<char>),
> {
    seq![
        ("game"@, game),
        ("goods_id"@, signed_decimal_text(goods_id as int)),
        ("page_num"@, signed_decimal_text(page_num as int)),
        ("_"@, decimal_text(timestamp_ms as nat)),
    ]
}

impl BuffMarketClient {
    pub fn new(session_cookie: String, csrf_token: String) -> (r: BuffMarketClient)
        ensures
            r.session_cookie == session_cookie,
            r.csrf_token == csrf_token,
    {
        BuffMarketClient { session_cookie, csrf_token }
    }

    /// The request for a buy orders page: the session cookie is its only
    /// header, refused as invalid input where it cannot be a header value.
    pub fn buy_orders_request(&self, game: &str, goods_id: i64, page_num: i32, timestamp_ms: u64) -> (r:
        Result<BuffRequest, BuffMarketError>)
        ensures
            r is Ok <==> is_header_value(self.session_cookie@),
            r matches Ok(q) ==> q.url@ == BUFF_BUY_ORDERS_API_URL@ + "?"@ + query_text(
                buy_orders_query(game@, goods_id, page_num, timestamp_ms),
            ) && q.headers@.len() == 1 && is_entry(q.headers@[0], "cookie"@, self.session_cookie@),
            r matches Err(e) ==> e is InvalidInput,
            !is_header_value(self.session_cookie@) ==> (r matches Err(
                BuffMarketError::InvalidInput(m),
            ) && m@ == "Invalid session cookie format"@),
    {
        let cookie = match checked_header("cookie", self.session_cookie.as_str()) {
            Some(h) => h,
            None => return Err(
                BuffMarketError::InvalidInput(String::from_str("Invalid session cookie format")),
            ),
        };
        let mut ps: Vec<(String, String)> = Vec::new();
        ps.push((String::from_str("game"), String::from_str(game)));
        ps.push((String::from_str("goods_id"), decimal_i64(goods_id)));
        ps.push((String::from_str("page_num"), decimal_i64(page_num as i64)));
        ps.push((String::from_str("_"), decimal_u64(timestamp_ms)));
        assert(crate::query::pairs_view(ps@) =~= buy_orders_query(game@, goods_id, page_num, timestamp_ms));
        let mut base = String::from_str(BUFF_BUY_ORDERS_API_URL);
        base.append("?");
        let url = path_with_query(base.as_str(), &ps);
        let mut headers: Vec<Header> = Vec::new();
        headers.push(cookie);
        Ok(BuffRequest { url, headers })
    }

    /// The request for a goods listing page: session cookie, CSRF token,
    /// origin and referer. A credential that cannot be a header value is
    /// refused as invalid input.
    pub fn market_listings_request(&self, game: &str, page_num: i32, page_size: i32) -> (r: Result<
        BuffRequest,
        BuffMarketError,
    >)
        ensures
            r is Ok <==> is_header_value(self.session_cookie@) && is_header_value(self.csrf_token@),
            r matches Ok(q) ==> q.url@ == BUFF_MARKET_GOODS_API_URL@ + "?"@ + query_text(
                listings_query(game@, page_num, page_size),
            ) && q.headers@.len() == 4 && is_entry(q.headers@[0], "cookie"@, self.session_cookie@)
                && is_entry(q.headers@[1], "x-csrftoken"@, self.csrf_token@) && is_entry(
                q.headers@[2],
                "origin"@,
                "https://buff.market"@,
            ) && is_entry(q.headers@[3], "referer"@, "https://buff.market/"@),
            r matches Err(e) ==> e is InvalidInput,
            !is_header_value(self.session_cookie@) ==> (r matches Err(
                BuffMarketError::InvalidInput(m),
            ) && m@ == "Invalid session cookie format"@),
            is_header_value(self.session_cookie@) && !is_header_value(self.csrf_token@) ==> (
            r matches Err(BuffMarketError::InvalidInput(m)) && m@ == "Invalid CSRF token format"@),
    {
        let cookie = match checked_header("cookie", self.session_cookie.as_str()) {
            Some(h) => h,
            None => return Err(
                BuffMarketError::InvalidInput(String::from_str("Invalid session cookie format")),
            ),
        };
        let csrf = match checked_header("x-csrftoken", self.csrf_token.as_str()) {
            Some(h) => h,
            None => return Err(
                BuffMarketError::InvalidInput(String::from_str("Invalid CSRF token format")),
            ),
        };
        let mut ps: Vec<(String, String)> = Vec::new();
        ps.push((String::from_str("game"), String::from_str(game)));
        ps.push((String::from_str("page_num"), decimal_i64(page_num as i64)));
        ps.push((String::from_str("page_size"), decimal_i64(page_size as i64)));
        assert(crate::query::pairs_view(ps@) =~= listings_query(game@, page_num, page_size));
        let mut base = String::from_str(BUFF_MARKET_GOODS_API_URL);
        base.append("?");
        let url = path_with_query(base.as_str(), &ps);
        let mut headers: Vec<Header> = Vec::new();
        headers.push(cookie);
        headers.push(csrf);
        headers.push(fixed_header("origin", "https://buff.market"));
        headers.push(fixed_header("referer", "https://buff.market/"));
        Ok(BuffRequest { url, headers })
    }
}

/// Whether the page just read ends the listing: it is empty, the listing
/// reports no goods at all, the next page would be past the last page, or no
/// page number is left.
pub open spec fn ends_listing(current_page: i32, items: nat, total_count: i32, total_page: i32) -> bool {
    items == 0 || total_count == 0 || current_page >= total_page || current_page == i32::MAX
}

/// Whether a page ends the walk on conflicting signals: it is empty although
/// the listing reports goods. The walk stops there; callers may log it.
pub fn ends_ambiguously(data: &MarketGoodsData) -> (r: bool)
    ensures
        r == (data.items@.len() == 0 && data.total_count != 0),
{
    data.items.len() == 0 && data.total_count != 0
}

/// The walk over every page of a goods listing. The caller fetches the page
/// that `next_page` names and hands the result to `accept`, until
/// `next_page` gives `None`.
pub struct ListingPager {
    pub current_page: i32,
    pub total_pages: i32,
    pub items: Vec<MarketGoodsItem>,
    pub finished: bool,
}

impl ListingPager {
    /// A bound on the pages still to fetch: every accepted page lowers it, so
    /// the walk ends.
    pub open spec fn pages_left(&self) -> int {
        if self.finished {
            0
        } else {
            i32::MAX - self.current_page + 1
        }
    }

    pub fn new() -> (r: ListingPager)
        ensures
            r.current_page == 1,
            r.total_pages == 1,
            r.items@.len() == 0,
            !r.finished,
    {
        ListingPager { current_page: 1, total_pages: 1, items: Vec::new(), finished: false }
    }

    /// The page to fetch next, if any.
    pub fn next_page(&self) -> (r: Option<i32>)
        ensures
            r == (if self.finished { None } else { Some(self.current_page) }),
    {
        if self.finished {
            None
        } else {
            Some(self.current_page)
        }
    }

    /// Takes in the page just fetched. A page with data adds its goods and
    /// either ends the walk (see `ends_listing`) or moves to the next page. A
    /// page without data ends the walk where its code is `OK` and is a
    /// missing-data error otherwise.
    pub fn accept(&mut self, page: MarketGoodsResponse) -> (r: Result<(), BuffMarketError>)
        ensures
            !old(self).finished ==> final(self).pages_left() < old(self).pages_left(),
            final(self).pages_left() >= 0,
            match page.data {
                Some(data) => {
                    &&& r is Ok
                    &&& final(self).items@ == old(self).items@ + data.items@
                    &&& final(self).total_pages == data.total_page
                    &&& final(self).finished == ends_listing(
                        old(self).current_page,
                        data.items@.len(),
                        data.total_count,
                        data.total_page,
                    )
                    &&& final(self).current_page as int == if final(self).finished {
                        old(self).current_page as int
                    } else {
                        old(self).current_page + 1
                    }
                },
                None => {
                    &&& final(self).items@ == old(self).items@
                    &&& final(self).finished
                    &&& r is Ok <==> page.code@ == "OK"@
                    &&& r matches Err(e) ==> e is MissingData
                },
            },
    {
        match page.data {
            Some(data) => {
                let n = data.items.len();
                let mut items = data.items;
                self.items.append(&mut items);
                self.total_pages = data.total_page;
                if n == 0 || data.total_count == 0 || self.current_page >= data.total_page
                    || self.current_page == i32::MAX {
                    self.finished = true;
                } else {
                    self.finished = false;
                    self.current_page = self.current_page + 1;
                }
                Ok(())
            },
            None => {
                self.finished = true;
                if crate::json::text_eq(page.code.as_str(), "OK") {
                    proof {
                        reveal_strlit("OK");
                    }
                    Ok(())
                } else {
                    Err(BuffMarketError::MissingData(String::from_str("no data in page")))
                }
            },
        }
    }

    /// The goods gathered so far, in page order.
    pub fn into_items(self) -> (r: Vec<MarketGoodsItem>)
        ensures
            r@ == self.items@,
    {
        self.items
    }
}

} // verus!
