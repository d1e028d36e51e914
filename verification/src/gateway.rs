//! The REST gateway: which call each operation makes, and what its reply
//! comes to.
//!
//! The gateway sends nothing itself. For each operation one function builds
//! the `Request` and another reads the `Reply` that came back. A reply whose
//! status is not 200 is refused before its body is read; which error that is
//! depends on the operation. A reply with status 200 whose `ok` is false is
//! an `ApiError`, whatever the operation.

use crate::codec::{
    heartbeat_from_json, order_status_from_json, orderbook_list_from_json, quote_from_json,
    spec_heartbeat, spec_order_status, spec_orderbook_list, spec_quote, spec_stock_list,
    spec_stock_orders_statuses, spec_venue_heartbeat, stock_list_from_json,
    stock_orders_statuses_from_json, venue_heartbeat_from_json,
};
use crate::error::{agrees, ErrorView, StockfighterError};
use crate::json::{
    members_view, parse, render_object, spec_parse, text_of_object, JsonValue, Scalar, ScalarView,
};
use crate::model::{
    Order, OrderDirection, OrderStatus, OrderStatusView, OrderType, OrderbookList,
    OrderbookListView, Quote, StockList, StockListView, StockOrdersStatuses,
    StockOrdersStatusesView,
};
use crate::session::{makes_target, spec_ticker_tape_path, ConnectionTarget, Session, SessionState};
use vstd::prelude::*;

verus! {

/// The HTTP method of a call.
#[derive(Debug, Clone, Copy, PartialEq, Eq, Structural)]
pub enum Method {
    Get,
    Post,
    Delete,
}

/// A call to the exchange: `auth` is the API key for the authorization
/// header, where the call carries one, and `body` is the JSON text to send.
#[derive(Debug, Clone, PartialEq, Eq)]
pub struct Request {
    pub method: Method,
    pub url: String,
    pub auth: Option<String>,
    pub body: Option<String>,
}

/// What came back: the HTTP status and the body as text.
#[derive(Debug, Clone, PartialEq, Eq)]
pub struct Reply {
    pub status: u16,
    pub body: String,
}

/// Which error a refused call maps to.
#[derive(Debug, Clone, Copy, PartialEq, Eq, Structural)]
pub enum Refusal {
    ApiDown,
    VenueDown,
    ApiError,
}

/// The client: it holds the API key that authorized calls carry.
#[derive(Debug, Clone)]
pub struct Stockfighter {
    api_key: String,
}

/// The decimal digit `d`, for `d` below ten.
pub open spec fn spec_digit(d: nat) -> Seq<char> {
    if d == 0 {
        "0"@
    } else if d == 1 {
        "1"@
    } else if d == 2 {
        "2"@
    } else if d == 3 {
        "3"@
    } else if d == 4 {
        "4"@
    } else if d == 5 {
        "5"@
    } else if d == 6 {
        "6"@
    } else if d == 7 {
        "7"@
    } else if d == 8 {
        "8"@
    } else {
        "9"@
    }
}

/// A number in decimal digits, without leading zeros.
pub open spec fn spec_decimal(n: nat) -> Seq<char>
    decreases n,
{
    if n < 10 {
        spec_digit(n)
    } else {
        spec_decimal(n / 10) + spec_digit(n % 10)
    }
}

fn digit(d: usize) -> (s: &'static str)
    requires
        d < 10,
    ensures
        s@ == spec_digit(d as nat),
{
    if d == 0 {
        "0"
    } else if d == 1 {
        "1"
    } else if d == 2 {
        "2"
    } else if d == 3 {
        "3"
    } else if d == 4 {
        "4"
    } else if d == 5 {
        "5"
    } else if d == 6 {
        "6"
    } else if d == 7 {
        "7"
    } else if d == 8 {
        "8"
    } else {
        "9"
    }
}

/// Writes a number in decimal.
pub fn decimal(n: usize) -> (s: String)
    ensures
        s@ == spec_decimal(n as nat),
    decreases n,
{
    if n < 10 {
        digit(n).to_owned()
    } else {
        decimal(n / 10).concat(digit(n % 10))
    }
}

/// The error that a refusal maps to; only `VenueDown` names the venue.
pub open spec fn refusal_error(policy: Refusal, venue: Seq<char>) -> ErrorView {
    match policy {
        Refusal::ApiDown => ErrorView::ApiDown,
        Refusal::VenueDown => ErrorView::VenueDown(venue),
        Refusal::ApiError => ErrorView::ApiError,
    }
}

pub fn refuse(policy: Refusal, venue: &str) -> (e: StockfighterError)
    ensures
        e@ == refusal_error(policy, venue@),
{
    match policy {
        Refusal::ApiDown => StockfighterError::ApiDown,
        Refusal::VenueDown => StockfighterError::VenueDown(venue.to_owned()),
        Refusal::ApiError => StockfighterError::ApiError,
    }
}

/// The JSON that a reply carries: a status other than 200 is refused as
/// `on_status` says, and a body that cannot be read is a decode error.
pub open spec fn spec_envelope(reply: Reply, on_status: Refusal, venue: Seq<char>) -> Result<
    JsonValue,
    ErrorView,
> {
    if reply.status != 200 {
        Err(refusal_error(on_status, venue))
    } else {
        match spec_parse(reply.body@) {
            Err(e) => Err(ErrorView::JsonDecoder(e)),
            Ok(json) => Ok(json),
        }
    }
}

/// Checks the status of a reply and parses its body.
pub fn envelope(reply: &Reply, on_status: Refusal, venue: &str) -> (r: Result<
    JsonValue,
    StockfighterError,
>)
    ensures
        match r {
            Ok(json) => spec_envelope(*reply, on_status, venue@) == Ok::<_, ErrorView>(json),
            Err(e) => spec_envelope(*reply, on_status, venue@) == Err::<JsonValue, _>(e@),
        },
{
    if reply.status != 200 {
        return Err(refuse(on_status, venue));
    }
    match parse(reply.body.as_str()) {
        Err(e) => Err(StockfighterError::JsonDecoder(e)),
        Ok(json) => Ok(json),
    }
}

impl Reply {
    pub fn new(status: u16, body: &str) -> (r: Reply)
        ensures
            r.status == status,
            r.body@ == body@,
    {
        Reply { status, body: body.to_owned() }
    }
}

impl Stockfighter {
    /// The key that authorized calls carry.
    pub closed spec fn spec_api_key(&self) -> String {
        self.api_key
    }

    pub fn new(api_key: &str) -> (sf: Stockfighter)
        ensures
            sf.spec_api_key()@ == api_key@,
    {
        Stockfighter { api_key: api_key.to_owned() }
    }

    pub fn api_key(&self) -> (key: &String)
        ensures
            *key == self.spec_api_key(),
    {
        &self.api_key
    }
}

/// What the JSON of a `Heartbeat` reply comes to: one that does not decode is a
/// decode error, and one whose `ok` is false is an `ApiError`.
pub open spec fn spec_accept_heartbeat(json: JsonValue) -> Result<(), ErrorView> {
    match spec_heartbeat(json) {
        Err(e) => Err(ErrorView::JsonDecoder(e)),
        Ok(x) => if x.ok {
            Ok(())
        } else {
            Err(ErrorView::ApiError)
        },
    }
}

/// Decodes the JSON of a `Heartbeat` reply and checks its `ok`.
pub fn accept_heartbeat(json: &JsonValue) -> (r: Result<(), StockfighterError>)
    ensures
        agrees(r, spec_accept_heartbeat(*json)),
{
    match heartbeat_from_json(json) {
        Err(e) => Err(StockfighterError::JsonDecoder(e)),
        Ok(x) => {
            if x.ok {
                Ok(())
            } else {
                Err(StockfighterError::ApiError)
            }
        },
    }
}

/// What the JSON of a `VenueHeartbeat` reply comes to: one that does not decode is a
/// decode error, and one whose `ok` is false is an `ApiError`.
pub open spec fn spec_accept_venue_heartbeat(json: JsonValue) -> Result<(), ErrorView> {
    match spec_venue_heartbeat(json) {
        Err(e) => Err(ErrorView::JsonDecoder(e)),
        Ok(x) => if x.ok {
            Ok(())
        } else {
            Err(ErrorView::ApiError)
        },
    }
}

/// Decodes the JSON of a `VenueHeartbeat` reply and checks its `ok`.
pub fn accept_venue_heartbeat(json: &JsonValue) -> (r: Result<(), StockfighterError>)
    ensures
        agrees(r, spec_accept_venue_heartbeat(*json)),
{
    match venue_heartbeat_from_json(json) {
        Err(e) => Err(StockfighterError::JsonDecoder(e)),
        Ok(x) => {
            if x.ok {
                Ok(())
            } else {
                Err(StockfighterError::ApiError)
            }
        },
    }
}

/// What the JSON of a `Quote` reply comes to: one that does not decode is a
/// decode error, and one whose `ok` is false is an `ApiError`.
pub open spec fn spec_accept_quote(json: JsonValue) -> Result<Quote, ErrorView> {
    match spec_quote(json) {
        Err(e) => Err(ErrorView::JsonDecoder(e)),
        Ok(x) => if x.ok {
            Ok(x)
        } else {
            Err(ErrorView::ApiError)
        },
    }
}

/// Decodes the JSON of a `Quote` reply and checks its `ok`.
pub fn accept_quote(json: &JsonValue) -> (r: Result<Quote, StockfighterError>)
    ensures
        agrees(r, spec_accept_quote(*json)),
{
    match quote_from_json(json) {
        Err(e) => Err(StockfighterError::JsonDecoder(e)),
        Ok(x) => {
            if x.ok {
                Ok(x)
            } else {
                Err(StockfighterError::ApiError)
            }
        },
    }
}

/// What the JSON of a `StockList` reply comes to: one that does not decode is a
/// decode error, and one whose `ok` is false is an `ApiError`.
pub open spec fn spec_accept_stock_list(json: JsonValue) -> Result<StockListView, ErrorView> {
    match spec_stock_list(json) {
        Err(e) => Err(ErrorView::JsonDecoder(e)),
        Ok(x) => if x.ok {
            Ok(x)
        } else {
            Err(ErrorView::ApiError)
        },
    }
}

/// Decodes the JSON of a `StockList` reply and checks its `ok`.
pub fn accept_stock_list(json: &JsonValue) -> (r: Result<StockList, StockfighterError>)
    ensures
        agrees(r, spec_accept_stock_list(*json)),
{
    match stock_list_from_json(json) {
        Err(e) => Err(StockfighterError::JsonDecoder(e)),
        Ok(x) => {
            if x.ok {
                Ok(x)
            } else {
                Err(StockfighterError::ApiError)
            }
        },
    }
}

/// What the JSON of a `OrderbookList` reply comes to: one that does not decode is a
/// decode error, and one whose `ok` is false is an `ApiError`.
pub open spec fn spec_accept_orderbook_list(
    json: JsonValue,
) -> Result<OrderbookListView, ErrorView> {
    match spec_orderbook_list(json) {
        Err(e) => Err(ErrorView::JsonDecoder(e)),
        Ok(x) => if x.ok {
            Ok(x)
        } else {
            Err(ErrorView::ApiError)
        },
    }
}

/// Decodes the JSON of a `OrderbookList` reply and checks its `ok`.
pub fn accept_orderbook_list(json: &JsonValue) -> (r: Result<OrderbookList, StockfighterError>)
    ensures
        agrees(r, spec_accept_orderbook_list(*json)),
{
    match orderbook_list_from_json(json) {
        Err(e) => Err(StockfighterError::JsonDecoder(e)),
        Ok(x) => {
            if x.ok {
                Ok(x)
            } else {
                Err(StockfighterError::ApiError)
            }
        },
    }
}

/// What the JSON of a `OrderStatus` reply comes to: one that does not decode is a
/// decode error, and one whose `ok` is false is an `ApiError`.
pub open spec fn spec_accept_order_status(json: JsonValue) -> Result<OrderStatusView, ErrorView> {
    match spec_order_status(json) {
        Err(e) => Err(ErrorView::JsonDecoder(e)),
        Ok(x) => if x.ok {
            Ok(x)
        } else {
            Err(ErrorView::ApiError)
        },
    }
}

/// Decodes the JSON of a `OrderStatus` reply and checks its `ok`.
pub fn accept_order_status(json: &JsonValue) -> (r: Result<OrderStatus, StockfighterError>)
    ensures
        agrees(r, spec_accept_order_status(*json)),
{
    match order_status_from_json(json) {
        Err(e) => Err(StockfighterError::JsonDecoder(e)),
        Ok(x) => {
            if x.ok {
                Ok(x)
            } else {
                Err(StockfighterError::ApiError)
            }
        },
    }
}

/// What the JSON of a `StockOrdersStatuses` reply comes to: one that does not decode is a
/// decode error, and one whose `ok` is false is an `ApiError`.
pub open spec fn spec_accept_stock_orders_statuses(
    json: JsonValue,
) -> Result<StockOrdersStatusesView, ErrorView> {
    match spec_stock_orders_statuses(json) {
        Err(e) => Err(ErrorView::JsonDecoder(e)),
        Ok(x) => if x.ok {
            Ok(x)
        } else {
            Err(ErrorView::ApiError)
        },
    }
}

/// Decodes the JSON of a `StockOrdersStatuses` reply and checks its `ok`.
pub fn accept_stock_orders_statuses(
    json: &JsonValue,
) -> (r: Result<StockOrdersStatuses, StockfighterError>)
    ensures
        agrees(r, spec_accept_stock_orders_statuses(*json)),
{
    match stock_orders_statuses_from_json(json) {
        Err(e) => Err(StockfighterError::JsonDecoder(e)),
        Ok(x) => {
            if x.ok {
                Ok(x)
            } else {
                Err(StockfighterError::ApiError)
            }
        },
    }
}

/// Where `heartbeat` is asked.
pub open spec fn spec_heartbeat_url() -> Seq<char> {
    "https://api.stockfighter.io/ob/api/heartbeat"@
}

/// What a reply to `heartbeat` comes to.
pub open spec fn spec_heartbeat_reply(reply: Reply) -> Result<(), ErrorView> {
    match spec_envelope(reply, Refusal::ApiDown, Seq::empty()) {
        Err(e) => Err(e),
        Ok(json) => spec_accept_heartbeat(json),
    }
}

impl Stockfighter {
    /// Checks that the exchange is up. This is the call to make.
    pub fn heartbeat_request(&self) -> (req: Request)
        ensures
            req.method == Method::Get,
            req.url@ == spec_heartbeat_url(),
            req.auth == None::<String>,
            req.body is None,
    {
        Request {
            method: Method::Get,
            url: "https://api.stockfighter.io/ob/api/heartbeat".to_owned(),
            auth: None,
            body: None,
        }
    }

    /// Checks that the exchange is up. This reads the reply.
    pub fn heartbeat(&self, reply: &Reply) -> (r: Result<(), StockfighterError>)
        ensures
            agrees(r, spec_heartbeat_reply(*reply)),
    {
        let json = envelope(reply, Refusal::ApiDown, "")?;
        accept_heartbeat(&json)
    }
}

/// Where `venue_heartbeat` is asked.
pub open spec fn spec_venue_heartbeat_url(venue: Seq<char>) -> Seq<char> {
    "https://api.stockfighter.io/ob/api/venues/"@ + venue + "/heartbeat"@
}

/// What a reply to `venue_heartbeat` comes to.
pub open spec fn spec_venue_heartbeat_reply(
    reply: Reply,
    venue: Seq<char>,
) -> Result<(), ErrorView> {
    match spec_envelope(reply, Refusal::VenueDown, venue) {
        Err(e) => Err(e),
        Ok(json) => spec_accept_venue_heartbeat(json),
    }
}

impl Stockfighter {
    /// Checks that a venue is up. This is the call to make.
    pub fn venue_heartbeat_request(&self, venue: &str) -> (req: Request)
        ensures
            req.method == Method::Get,
            req.url@ == spec_venue_heartbeat_url(venue@),
            req.auth == None::<String>,
            req.body is None,
    {
        Request {
            method: Method::Get,
            url: "https://api.stockfighter.io/ob/api/venues/".to_owned()
                .concat(venue)
                .concat("/heartbeat"),
            auth: None,
            body: None,
        }
    }

    /// Checks that a venue is up. This reads the reply.
    pub fn venue_heartbeat(&self, venue: &str, reply: &Reply) -> (r: Result<(), StockfighterError>)
        ensures
            agrees(r, spec_venue_heartbeat_reply(*reply, venue@)),
    {
        let json = envelope(reply, Refusal::VenueDown, venue)?;
        accept_venue_heartbeat(&json)
    }
}

/// Where `quote` is asked.
pub open spec fn spec_quote_url(venue: Seq<char>, stock: Seq<char>) -> Seq<char> {
    "https://api.stockfighter.io/ob/api/venues/"@ + venue + "/stocks/"@ + stock + "/quote"@
}

/// What a reply to `quote` comes to.
pub open spec fn spec_quote_reply(reply: Reply) -> Result<Quote, ErrorView> {
    match spec_envelope(reply, Refusal::ApiError, Seq::empty()) {
        Err(e) => Err(e),
        Ok(json) => spec_accept_quote(json),
    }
}

impl Stockfighter {
    /// The most recent trade information for a stock. This is the call to make.
    pub fn quote_request(&self, venue: &str, stock: &str) -> (req: Request)
        ensures
            req.method == Method::Get,
            req.url@ == spec_quote_url(venue@, stock@),
            req.auth == Some(self.spec_api_key()),
            req.body is None,
    {
        Request {
            method: Method::Get,
            url: "https://api.stockfighter.io/ob/api/venues/".to_owned()
                .concat(venue)
                .concat("/stocks/")
                .concat(stock)
                .concat("/quote"),
            auth: Some(self.api_key.clone()),
            body: None,
        }
    }

    /// The most recent trade information for a stock. This reads the reply.
    pub fn quote(&self, reply: &Reply) -> (r: Result<Quote, StockfighterError>)
        ensures
            agrees(r, spec_quote_reply(*reply)),
    {
        let json = envelope(reply, Refusal::ApiError, "")?;
        accept_quote(&json)
    }
}

/// Where `stocks_on_a_venue` is asked.
pub open spec fn spec_stocks_on_a_venue_url(venue: Seq<char>) -> Seq<char> {
    "https://api.stockfighter.io/ob/api/venues/"@ + venue + "/stocks"@
}

/// What a reply to `stocks_on_a_venue` comes to.
pub open spec fn spec_stocks_on_a_venue_reply(
    reply: Reply,
    venue: Seq<char>,
) -> Result<StockListView, ErrorView> {
    match spec_envelope(reply, Refusal::VenueDown, venue) {
        Err(e) => Err(e),
        Ok(json) => spec_accept_stock_list(json),
    }
}

impl Stockfighter {
    /// The stocks that a venue trades. This is the call to make.
    pub fn stocks_on_a_venue_request(&self, venue: &str) -> (req: Request)
        ensures
            req.method == Method::Get,
            req.url@ == spec_stocks_on_a_venue_url(venue@),
            req.auth == Some(self.spec_api_key()),
            req.body is None,
    {
        Request {
            method: Method::Get,
            url: "https://api.stockfighter.io/ob/api/venues/".to_owned()
                .concat(venue)
                .concat("/stocks"),
            auth: Some(self.api_key.clone()),
            body: None,
        }
    }

    /// The stocks that a venue trades. This reads the reply.
    pub fn stocks_on_a_venue(
        &self,
        venue: &str,
        reply: &Reply,
    ) -> (r: Result<StockList, StockfighterError>)
        ensures
            agrees(r, spec_stocks_on_a_venue_reply(*reply, venue@)),
    {
        let json = envelope(reply, Refusal::VenueDown, venue)?;
        accept_stock_list(&json)
    }
}

/// Where `orderbook_for_stock` is asked.
pub open spec fn spec_orderbook_for_stock_url(venue: Seq<char>, symbol: Seq<char>) -> Seq<char> {
    "https://api.stockfighter.io/ob/api/venues/"@ + venue + "/stocks/"@ + symbol
}

/// What a reply to `orderbook_for_stock` comes to.
pub open spec fn spec_orderbook_for_stock_reply(
    reply: Reply,
) -> Result<OrderbookListView, ErrorView> {
    match spec_envelope(reply, Refusal::ApiError, Seq::empty()) {
        Err(e) => Err(e),
        Ok(json) => spec_accept_orderbook_list(json),
    }
}

impl Stockfighter {
    /// The order book of a stock. This is the call to make.
    pub fn orderbook_for_stock_request(&self, venue: &str, symbol: &str) -> (req: Request)
        ensures
            req.method == Method::Get,
            req.url@ == spec_orderbook_for_stock_url(venue@, symbol@),
            req.auth == Some(self.spec_api_key()),
            req.body is None,
    {
        Request {
            method: Method::Get,
            url: "https://api.stockfighter.io/ob/api/venues/".to_owned()
                .concat(venue)
                .concat("/stocks/")
                .concat(symbol),
            auth: Some(self.api_key.clone()),
            body: None,
        }
    }

    /// The order book of a stock. This reads the reply.
    pub fn orderbook_for_stock(
        &self,
        reply: &Reply,
    ) -> (r: Result<OrderbookList, StockfighterError>)
        ensures
            agrees(r, spec_orderbook_for_stock_reply(*reply)),
    {
        let json = envelope(reply, Refusal::ApiError, "")?;
        accept_orderbook_list(&json)
    }
}

/// Where `existing_order_status` is asked.
pub open spec fn spec_existing_order_status_url(
    id: usize,
    venue: Seq<char>,
    stock: Seq<char>,
) -> Seq<char> {
    "https://api.stockfighter.io/ob/api/venues/"@ + venue + "/stocks/"@ + stock + "/orders/"@
        + spec_decimal(id as nat)
}

/// What a reply to `existing_order_status` comes to.
pub open spec fn spec_existing_order_status_reply(
    reply: Reply,
) -> Result<OrderStatusView, ErrorView> {
    match spec_envelope(reply, Refusal::ApiError, Seq::empty()) {
        Err(e) => Err(e),
        Ok(json) => spec_accept_order_status(json),
    }
}

impl Stockfighter {
    /// The state of an order. This is the call to make.
    pub fn existing_order_status_request(
        &self,
        id: usize,
        venue: &str,
        stock: &str,
    ) -> (req: Request)
        ensures
            req.method == Method::Get,
            req.url@ == spec_existing_order_status_url(id, venue@, stock@),
            req.auth == Some(self.spec_api_key()),
            req.body is None,
    {
        Request {
            method: Method::Get,
            url: "https://api.stockfighter.io/ob/api/venues/".to_owned()
                .concat(venue)
                .concat("/stocks/")
                .concat(stock)
                .concat("/orders/")
                .concat(decimal(id).as_str()),
            auth: Some(self.api_key.clone()),
            body: None,
        }
    }

    /// The state of an order. This reads the reply.
    pub fn existing_order_status(
        &self,
        reply: &Reply,
    ) -> (r: Result<OrderStatus, StockfighterError>)
        ensures
            agrees(r, spec_existing_order_status_reply(*reply)),
    {
        let json = envelope(reply, Refusal::ApiError, "")?;
        accept_order_status(&json)
    }
}

/// Where `status_for_all_orders` is asked.
pub open spec fn spec_status_for_all_orders_url(venue: Seq<char>, account: Seq<char>) -> Seq<char> {
    "https://api.stockfighter.io/ob/api/venues/"@ + venue + "/accounts/"@ + account + "/orders"@
}

/// What a reply to `status_for_all_orders` comes to.
pub open spec fn spec_status_for_all_orders_reply(
    reply: Reply,
    venue: Seq<char>,
) -> Result<StockOrdersStatusesView, ErrorView> {
    match spec_envelope(reply, Refusal::VenueDown, venue) {
        Err(e) => Err(e),
        Ok(json) => spec_accept_stock_orders_statuses(json),
    }
}

impl Stockfighter {
    /// The orders of an account on a venue. This is the call to make.
    pub fn status_for_all_orders_request(&self, venue: &str, account: &str) -> (req: Request)
        ensures
            req.method == Method::Get,
            req.url@ == spec_status_for_all_orders_url(venue@, account@),
            req.auth == Some(self.spec_api_key()),
            req.body is None,
    {
        Request {
            method: Method::Get,
            url: "https://api.stockfighter.io/ob/api/venues/".to_owned()
                .concat(venue)
                .concat("/accounts/")
                .concat(account)
                .concat("/orders"),
            auth: Some(self.api_key.clone()),
            body: None,
        }
    }

    /// The orders of an account on a venue. This reads the reply.
    pub fn status_for_all_orders(
        &self,
        venue: &str,
        reply: &Reply,
    ) -> (r: Result<StockOrdersStatuses, StockfighterError>)
        ensures
            agrees(r, spec_status_for_all_orders_reply(*reply, venue@)),
    {
        let json = envelope(reply, Refusal::VenueDown, venue)?;
        accept_stock_orders_statuses(&json)
    }
}

/// Where `status_for_all_orders_on_a_stock` is asked.
pub open spec fn spec_status_for_all_orders_on_a_stock_url(
    venue: Seq<char>,
    account: Seq<char>,
    stock: Seq<char>,
) -> Seq<char> {
    "https://api.stockfighter.io/ob/api/venues/"@ + venue + "/accounts/"@ + account + "/stocks/"@
        + stock + "/orders"@
}

/// What a reply to `status_for_all_orders_on_a_stock` comes to.
pub open spec fn spec_status_for_all_orders_on_a_stock_reply(
    reply: Reply,
    venue: Seq<char>,
) -> Result<StockOrdersStatusesView, ErrorView> {
    match spec_envelope(reply, Refusal::VenueDown, venue) {
        Err(e) => Err(e),
        Ok(json) => spec_accept_stock_orders_statuses(json),
    }
}

impl Stockfighter {
    /// The orders of an account in one stock. This is the call to make.
    pub fn status_for_all_orders_on_a_stock_request(
        &self,
        venue: &str,
        account: &str,
        stock: &str,
    ) -> (req: Request)
        ensures
            req.method == Method::Get,
            req.url@ == spec_status_for_all_orders_on_a_stock_url(venue@, account@, stock@),
            req.auth == Some(self.spec_api_key()),
            req.body is None,
    {
        Request {
            method: Method::Get,
            url: "https://api.stockfighter.io/ob/api/venues/".to_owned()
                .concat(venue)
                .concat("/accounts/")
                .concat(account)
                .concat("/stocks/")
                .concat(stock)
                .concat("/orders"),
            auth: Some(self.api_key.clone()),
            body: None,
        }
    }

    /// The orders of an account in one stock. This reads the reply.
    pub fn status_for_all_orders_on_a_stock(
        &self,
        venue: &str,
        reply: &Reply,
    ) -> (r: Result<StockOrdersStatuses, StockfighterError>)
        ensures
            agrees(r, spec_status_for_all_orders_on_a_stock_reply(*reply, venue@)),
    {
        let json = envelope(reply, Refusal::VenueDown, venue)?;
        accept_stock_orders_statuses(&json)
    }
}

/// Where `cancel_an_order` is asked.
pub open spec fn spec_cancel_an_order_url(
    venue: Seq<char>,
    stock: Seq<char>,
    order: usize,
) -> Seq<char> {
    "https://api.stockfighter.io/ob/api/venues/"@ + venue + "/stocks/"@ + stock + "/orders/"@
        + spec_decimal(order as nat)
}

/// What a reply to `cancel_an_order` comes to.
pub open spec fn spec_cancel_an_order_reply(reply: Reply) -> Result<OrderStatusView, ErrorView> {
    match spec_envelope(reply, Refusal::ApiError, Seq::empty()) {
        Err(e) => Err(e),
        Ok(json) => spec_accept_order_status(json),
    }
}

impl Stockfighter {
    /// Cancels an order. This is the call to make.
    pub fn cancel_an_order_request(&self, venue: &str, stock: &str, order: usize) -> (req: Request)
        ensures
            req.method == Method::Delete,
            req.url@ == spec_cancel_an_order_url(venue@, stock@, order),
            req.auth == Some(self.spec_api_key()),
            req.body is None,
    {
        Request {
            method: Method::Delete,
            url: "https://api.stockfighter.io/ob/api/venues/".to_owned()
                .concat(venue)
                .concat("/stocks/")
                .concat(stock)
                .concat("/orders/")
                .concat(decimal(order).as_str()),
            auth: Some(self.api_key.clone()),
            body: None,
        }
    }

    /// Cancels an order. This reads the reply.
    pub fn cancel_an_order(&self, reply: &Reply) -> (r: Result<OrderStatus, StockfighterError>)
        ensures
            agrees(r, spec_cancel_an_order_reply(*reply)),
    {
        let json = envelope(reply, Refusal::ApiError, "")?;
        accept_order_status(&json)
    }
}

/// The wire name of an order type.
pub open spec fn spec_order_type_text(order_type: OrderType) -> Seq<char> {
    match order_type {
        OrderType::Limit => "limit"@,
        OrderType::Market => "market"@,
        OrderType::FillOrKill => "fill-or-kill"@,
        OrderType::ImmediateOrCancel => "immediate-or-cancel"@,
    }
}

pub fn order_type_text(order_type: OrderType) -> (s: &'static str)
    ensures
        s@ == spec_order_type_text(order_type),
{
    match order_type {
        OrderType::Limit => "limit",
        OrderType::Market => "market",
        OrderType::FillOrKill => "fill-or-kill",
        OrderType::ImmediateOrCancel => "immediate-or-cancel",
    }
}

/// The wire name of a side.
pub open spec fn spec_direction_text(direction: OrderDirection) -> Seq<char> {
    match direction {
        OrderDirection::buy => "buy"@,
        OrderDirection::sell => "sell"@,
    }
}

pub fn direction_text(direction: OrderDirection) -> (s: &'static str)
    ensures
        s@ == spec_direction_text(direction),
{
    match direction {
        OrderDirection::buy => "buy",
        OrderDirection::sell => "sell",
    }
}

/// The members of the body that places an order, as they are handed to the
/// writer. The writer sorts them by key, so the text holds `account`,
/// `direction`, `orderType`, `price`, `qty`, `stock` and `venue`, in that
/// order.
pub open spec fn spec_order_members(
    account: Seq<char>,
    venue: Seq<char>,
    stock: Seq<char>,
    price: usize,
    qty: usize,
    direction: OrderDirection,
    order_type: Seq<char>,
) -> Seq<(Seq<char>, ScalarView)> {
    seq![
        ("account"@, ScalarView::Text(account)),
        ("venue"@, ScalarView::Text(venue)),
        ("stock"@, ScalarView::Text(stock)),
        ("price"@, ScalarView::Number(price as u64)),
        ("qty"@, ScalarView::Number(qty as u64)),
        ("direction"@, ScalarView::Text(spec_direction_text(direction))),
        ("orderType"@, ScalarView::Text(order_type)),
    ]
}

/// The body that places an order, as JSON text.
pub open spec fn spec_order_body(order: Order) -> Seq<char> {
    text_of_object(
        spec_order_members(
            order.account@,
            order.venue@,
            order.stock@,
            order.price,
            order.qty,
            order.direction,
            order.order_type@,
        ),
    )
}

/// Lists the members of the body that places an order.
pub fn order_members(order: &Order) -> (members: Vec<(String, Scalar)>)
    ensures
        members_view(members@) == spec_order_members(
            order.account@,
            order.venue@,
            order.stock@,
            order.price,
            order.qty,
            order.direction,
            order.order_type@,
        ),
{
    let mut members: Vec<(String, Scalar)> = Vec::new();
    members.push(("account".to_owned(), Scalar::Text(order.account.clone())));
    members.push(("venue".to_owned(), Scalar::Text(order.venue.clone())));
    members.push(("stock".to_owned(), Scalar::Text(order.stock.clone())));
    members.push(("price".to_owned(), Scalar::Number(order.price as u64)));
    members.push(("qty".to_owned(), Scalar::Number(order.qty as u64)));
    let side = direction_text(order.direction).to_owned();
    members.push(("direction".to_owned(), Scalar::Text(side)));
    members.push(("orderType".to_owned(), Scalar::Text(order.order_type.clone())));
    assert(members_view(members@) =~= spec_order_members(
        order.account@,
        order.venue@,
        order.stock@,
        order.price,
        order.qty,
        order.direction,
        order.order_type@,
    ));
    members
}

/// Writes the body that places an order.
pub fn order_body(order: &Order) -> (text: String)
    ensures
        text@ == spec_order_body(*order),
{
    let members = order_members(order);
    render_object(&members)
}

/// Where `new_order` is asked.
pub open spec fn spec_new_order_url(venue: Seq<char>, stock: Seq<char>) -> Seq<char> {
    "https://api.stockfighter.io/ob/api/venues/"@ + venue + "/stocks/"@ + stock + "/orders"@
}

/// What a reply to `new_order` comes to.
pub open spec fn spec_new_order_reply(reply: Reply) -> Result<OrderStatusView, ErrorView> {
    match spec_envelope(reply, Refusal::ApiError, Seq::empty()) {
        Err(e) => Err(e),
        Ok(json) => spec_accept_order_status(json),
    }
}

impl Stockfighter {
    /// Places an order. This is the call to make: its body holds the order.
    pub fn new_order_request(
        &self,
        account: &str,
        venue: &str,
        stock: &str,
        price: usize,
        qty: usize,
        direction: OrderDirection,
        order_type: OrderType,
    ) -> (req: Request)
        ensures
            req.method == Method::Post,
            req.url@ == spec_new_order_url(venue@, stock@),
            req.auth == Some(self.spec_api_key()),
            req.body is Some,
            req.body->Some_0@ == text_of_object(
                spec_order_members(
                    account@,
                    venue@,
                    stock@,
                    price,
                    qty,
                    direction,
                    spec_order_type_text(order_type),
                ),
            ),
    {
        let order = Order {
            account: account.to_owned(),
            venue: venue.to_owned(),
            stock: stock.to_owned(),
            price,
            qty,
            direction,
            order_type: order_type_text(order_type).to_owned(),
        };
        Request {
            method: Method::Post,
            url: "https://api.stockfighter.io/ob/api/venues/".to_owned()
                .concat(venue)
                .concat("/stocks/")
                .concat(stock)
                .concat("/orders"),
            auth: Some(self.api_key.clone()),
            body: Some(order_body(&order)),
        }
    }

    /// Places an order. This reads the reply.
    pub fn new_order(&self, reply: &Reply) -> (r: Result<OrderStatus, StockfighterError>)
        ensures
            agrees(r, spec_new_order_reply(*reply)),
    {
        let json = envelope(reply, Refusal::ApiError, "")?;
        accept_order_status(&json)
    }

    /// A session for the quotes of every stock of a venue, yet to connect.
    /// An account or a venue that cannot stand in the feed's path is a
    /// connect error.
    pub fn ticker_tape_venue_with(&self, account: &str, venue: &str) -> (r: Result<
        Session,
        StockfighterError,
    >)
        ensures
            match r {
                Ok(s) => {
                    &&& makes_target(account@, venue@, None)
                    &&& s.spec_state() == SessionState::Connecting
                    &&& s.spec_target().spec_host() == "api.stockfighter.io"@
                    &&& s.spec_target().spec_path() == spec_ticker_tape_path(
                        account@,
                        venue@,
                        None,
                    )
                },
                Err(e) => {
                    &&& !makes_target(account@, venue@, None)
                    &&& e@ == ErrorView::Connect("invalid feed address"@)
                },
            },
    {
        match ConnectionTarget::ticker_tape(account, venue, None) {
            Some(target) => Ok(Session::new(target)),
            None => Err(StockfighterError::Connect("invalid feed address".to_owned())),
        }
    }

    /// A session for the quotes of one stock of a venue, yet to connect.
    /// An account, a venue or a symbol that cannot stand in the feed's path
    /// is a connect error.
    pub fn ticker_tape_venue_stock_with(&self, account: &str, venue: &str, stock: &str) -> (r:
        Result<Session, StockfighterError>)
        ensures
            match r {
                Ok(s) => {
                    &&& makes_target(account@, venue@, Some(stock@))
                    &&& s.spec_state() == SessionState::Connecting
                    &&& s.spec_target().spec_host() == "api.stockfighter.io"@
                    &&& s.spec_target().spec_path() == spec_ticker_tape_path(
                        account@,
                        venue@,
                        Some(stock@),
                    )
                },
                Err(e) => {
                    &&& !makes_target(account@, venue@, Some(stock@))
                    &&& e@ == ErrorView::Connect("invalid feed address"@)
                },
            },
    {
        match ConnectionTarget::ticker_tape(account, venue, Some(stock)) {
            Some(target) => Ok(Session::new(target)),
            None => Err(StockfighterError::Connect("invalid feed address".to_owned())),
        }
    }
}

} // verus!
