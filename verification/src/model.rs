//! The values that the exchange's replies and feed frames carry.

use vstd::prelude::*;

verus! {

/// The side of an order.
#[allow(non_camel_case_types)]
#[derive(Debug, Clone, Copy, PartialEq, Eq, Structural)]
pub enum OrderDirection {
    buy,
    sell,
}

/// How an order is matched.
#[derive(Debug, Clone, Copy, PartialEq, Eq, Structural)]
pub enum OrderType {
    Limit,
    Market,
    FillOrKill,
    ImmediateOrCancel,
}

/// The most recent trade information for a stock, as a quote reply or a feed frame carries it.
#[derive(Debug, Clone, PartialEq, Eq)]
pub struct Quote {
    pub ok: bool,
    pub symbol: String,
    pub venue: String,
    pub bid: Option<usize>,
    pub ask: Option<usize>,
    pub bid_size: Option<usize>,
    pub ask_size: Option<usize>,
    pub bid_depth: Option<usize>,
    pub ask_depth: Option<usize>,
    pub last: usize,
    pub last_size: Option<usize>,
    pub last_trade: Option<String>,
    pub quote_time: Option<String>,
}

/// A quote holds no list: it is its own view.
impl View for Quote {
    type V = Quote;

    open spec fn view(&self) -> Quote {
        *self
    }
}

/// One execution against an order.
#[derive(Debug, Clone, PartialEq, Eq)]
pub struct Fill {
    pub price: Option<usize>,
    pub qty: Option<usize>,
    pub ts: Option<String>,
}

/// An order as it is placed and as the listings of an account report it.
#[derive(Debug, Clone, PartialEq, Eq)]
pub struct Order {
    pub account: String,
    pub venue: String,
    pub stock: String,
    pub price: usize,
    pub qty: usize,
    pub direction: OrderDirection,
    pub order_type: String,
}

/// The state of one order.
#[derive(Debug, Clone, PartialEq, Eq)]
pub struct OrderStatus {
    pub ok: bool,
    pub symbol: Option<String>,
    pub venue: Option<String>,
    pub direction: Option<OrderDirection>,
    pub original_qty: Option<usize>,
    pub qty: Option<usize>,
    pub price: Option<usize>,
    pub order_type: Option<String>,
    pub id: Option<usize>,
    pub account: Option<String>,
    pub ts: Option<String>,
    pub fills: Option<Vec<Fill>>,
    pub total_filled: Option<usize>,
    pub open: Option<bool>,
}

/// What a `OrderStatus` holds, its lists as sequences.
pub struct OrderStatusView {
    pub ok: bool,
    pub symbol: Option<String>,
    pub venue: Option<String>,
    pub direction: Option<OrderDirection>,
    pub original_qty: Option<usize>,
    pub qty: Option<usize>,
    pub price: Option<usize>,
    pub order_type: Option<String>,
    pub id: Option<usize>,
    pub account: Option<String>,
    pub ts: Option<String>,
    pub fills: Option<Seq<Fill>>,
    pub total_filled: Option<usize>,
    pub open: Option<bool>,
}

impl View for OrderStatus {
    type V = OrderStatusView;

    open spec fn view(&self) -> OrderStatusView {
        OrderStatusView {
            ok: self.ok,
            symbol: self.symbol,
            venue: self.venue,
            direction: self.direction,
            original_qty: self.original_qty,
            qty: self.qty,
            price: self.price,
            order_type: self.order_type,
            id: self.id,
            account: self.account,
            ts: self.ts,
            fills: match self.fills {
                Some(list) => Some(list@),
                None => None,
            },
            total_filled: self.total_filled,
            open: self.open,
        }
    }
}

/// A stock that a venue trades.
#[derive(Debug, Clone, PartialEq, Eq)]
pub struct StockTicker {
    pub name: String,
    pub symbol: String,
}

/// The stocks of a venue.
#[derive(Debug, Clone, PartialEq, Eq)]
pub struct StockList {
    pub ok: bool,
    pub symbols: Vec<StockTicker>,
}

/// What a `StockList` holds, its lists as sequences.
pub struct StockListView {
    pub ok: bool,
    pub symbols: Seq<StockTicker>,
}

impl View for StockList {
    type V = StockListView;

    open spec fn view(&self) -> StockListView {
        StockListView {
            ok: self.ok,
            symbols: self.symbols@,
        }
    }
}

/// One level of an order book.
#[derive(Debug, Clone, PartialEq, Eq)]
pub struct BidAsk {
    pub price: usize,
    pub qty: usize,
    pub is_buy: bool,
}

/// The order book of a stock.
#[derive(Debug, Clone, PartialEq, Eq)]
pub struct OrderbookList {
    pub ok: bool,
    pub venue: String,
    pub symbol: String,
    pub bids: Option<Vec<BidAsk>>,
    pub asks: Option<Vec<BidAsk>>,
    pub ts: String,
}

/// What a `OrderbookList` holds, its lists as sequences.
pub struct OrderbookListView {
    pub ok: bool,
    pub venue: String,
    pub symbol: String,
    pub bids: Option<Seq<BidAsk>>,
    pub asks: Option<Seq<BidAsk>>,
    pub ts: String,
}

impl View for OrderbookList {
    type V = OrderbookListView;

    open spec fn view(&self) -> OrderbookListView {
        OrderbookListView {
            ok: self.ok,
            venue: self.venue,
            symbol: self.symbol,
            bids: match self.bids {
                Some(list) => Some(list@),
                None => None,
            },
            asks: match self.asks {
                Some(list) => Some(list@),
                None => None,
            },
            ts: self.ts,
        }
    }
}

/// The orders of an account on a venue.
#[derive(Debug, Clone, PartialEq, Eq)]
pub struct StockOrdersStatuses {
    pub ok: bool,
    pub venue: String,
    pub orders: Vec<Order>,
}

/// What a `StockOrdersStatuses` holds, its lists as sequences.
pub struct StockOrdersStatusesView {
    pub ok: bool,
    pub venue: String,
    pub orders: Seq<Order>,
}

impl View for StockOrdersStatuses {
    type V = StockOrdersStatusesView;

    open spec fn view(&self) -> StockOrdersStatusesView {
        StockOrdersStatusesView {
            ok: self.ok,
            venue: self.venue,
            orders: self.orders@,
        }
    }
}

/// The reply to the heartbeat of the exchange.
#[derive(Debug, Clone, PartialEq, Eq)]
pub struct Heartbeat {
    pub ok: bool,
    pub error: String,
}

/// The reply to the heartbeat of a venue; an error reply names no venue.
#[derive(Debug, Clone, PartialEq, Eq)]
pub struct VenueHeartbeat {
    pub ok: bool,
    pub venue: Option<String>,
}

} // verus!
