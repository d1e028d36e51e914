//! The envelope codec: the shape of each reply, read from a JSON value.
//!
//! Every shape is a JSON object. Its members are read in a fixed order and
//! the first one that fails decides the error. A member that may be left out
//! is `None` when it is absent or `null`; members that the shape does not
//! name are ignored. Wire names in camel case are translated here and nowhere
//! else.

use crate::json::{
    bool_field, member, opt_bool_field, opt_text_field, opt_usize_field, optional, required,
    spec_bool_field, spec_member, spec_opt_bool_field, spec_opt_text_field,
    spec_opt_usize_field, spec_text_field, spec_usize_field, text_field, usize_field,
    DecodeError, JsonValue,
};
use crate::model::{
    BidAsk, Fill, Heartbeat, Order, OrderDirection, OrderStatus, OrderStatusView, OrderbookList,
    OrderbookListView, Quote, StockList, StockListView, StockOrdersStatuses,
    StockOrdersStatusesView, StockTicker, VenueHeartbeat,
};
use vstd::prelude::*;

verus! {

/// What was read is what was to be read, the value by its view.
pub open spec fn reads<T: View>(
    r: Result<T, DecodeError>,
    expected: Result<T::V, DecodeError>,
) -> bool {
    match r {
        Ok(x) => expected == Ok::<T::V, DecodeError>(x@),
        Err(e) => expected == Err::<T::V, DecodeError>(e),
    }
}

/// The same for a list that may be left out.
pub open spec fn reads_list<T>(
    r: Result<Option<Vec<T>>, DecodeError>,
    expected: Result<Option<Seq<T>>, DecodeError>,
) -> bool {
    match r {
        Ok(Some(list)) => expected == Ok::<_, DecodeError>(Some(list@)),
        Ok(None) => expected == Ok::<Option<Seq<T>>, DecodeError>(None),
        Err(e) => expected == Err::<Option<Seq<T>>, _>(e),
    }
}

/// The first `n` items of an array, each read by `read`: the first item that
/// fails decides the error.
pub open spec fn read_all<T>(
    items: Seq<JsonValue>,
    read: spec_fn(JsonValue) -> Result<T, DecodeError>,
    n: int,
) -> Result<Seq<T>, DecodeError>
    decreases n,
{
    if n <= 0 {
        Ok(Seq::empty())
    } else {
        match read_all(items, read, n - 1) {
            Err(e) => Err(e),
            Ok(done) => match read(items[n - 1]) {
                Ok(x) => Ok(done.push(x)),
                Err(e) => Err(e),
            },
        }
    }
}

/// An array whose items are each read by `read`.
pub open spec fn spec_array<T>(
    value: JsonValue,
    read: spec_fn(JsonValue) -> Result<T, DecodeError>,
) -> Result<Seq<T>, DecodeError> {
    match value {
        JsonValue::Array(items) => read_all(items@, read, items@.len() as int),
        _ => Err(DecodeError::Expected),
    }
}

/// Once an item has failed, reading further items changes nothing.
proof fn lemma_read_all_error<T>(
    items: Seq<JsonValue>,
    read: spec_fn(JsonValue) -> Result<T, DecodeError>,
    n: int,
    m: int,
)
    requires
        0 <= n <= m,
        read_all(items, read, n) is Err,
    ensures
        read_all(items, read, m) == read_all(items, read, n),
    decreases m,
{
    if n < m {
        lemma_read_all_error(items, read, n, m - 1);
    }
}

/// The first item that fails decides what reading the whole array comes to.
pub proof fn lemma_first_failure_decides<T>(
    items: Seq<JsonValue>,
    read: spec_fn(JsonValue) -> Result<T, DecodeError>,
    i: int,
    e: DecodeError,
)
    requires
        0 <= i < items.len(),
        read_all(items, read, i) is Ok,
        read(items[i]) == Err::<T, _>(e),
    ensures
        read_all(items, read, items.len() as int) == Err::<Seq<T>, _>(e),
{
    assert(read_all(items, read, i + 1) == Err::<Seq<T>, _>(e));
    lemma_read_all_error(items, read, i + 1, items.len() as int);
}

/// A shape that is read from one JSON value and can stand in a list.
pub trait Shape: Sized {
    /// The value of this shape that a JSON value stands for.
    spec fn spec_read(value: JsonValue) -> Result<Self, DecodeError>;

    /// Reads a value of this shape.
    fn read(value: &JsonValue) -> (r: Result<Self, DecodeError>)
        ensures
            r == Self::spec_read(*value),
    ;
}

/// The reader of one item of a shape, as a value.
pub open spec fn reader<T: Shape>() -> spec_fn(JsonValue) -> Result<T, DecodeError> {
    |m: JsonValue| T::spec_read(m)
}

/// An array of items of one shape.
pub open spec fn spec_list<T: Shape>(value: JsonValue) -> Result<Seq<T>, DecodeError> {
    spec_array(value, reader::<T>())
}

/// A required member that is an array of items of one shape.
pub open spec fn spec_list_field<T: Shape>(value: JsonValue, key: Seq<char>) -> Result<
    Seq<T>,
    DecodeError,
> {
    required(value, key, |m: JsonValue| spec_list::<T>(m))
}

/// A member that is an array of items of one shape and may be left out.
pub open spec fn spec_opt_list_field<T: Shape>(value: JsonValue, key: Seq<char>) -> Result<
    Option<Seq<T>>,
    DecodeError,
> {
    optional(value, key, |m: JsonValue| spec_list::<T>(m))
}

/// Reads an array of items of one shape, front to back.
pub fn list_from_json<T: Shape>(value: &JsonValue) -> (r: Result<Vec<T>, DecodeError>)
    ensures
        reads(r, spec_list::<T>(*value)),
{
    match value {
        JsonValue::Array(items) => {
            let mut list: Vec<T> = Vec::new();
            let mut i: usize = 0;
            while i < items.len()
                invariant
                    i <= items.len(),
                    *value == JsonValue::Array(*items),
                    read_all(items@, reader::<T>(), i as int) == Ok::<_, DecodeError>(list@),
                decreases items.len() - i,
            {
                match T::read(&items[i]) {
                    Ok(x) => {
                        list.push(x);
                    },
                    Err(e) => {
                        proof {
                            lemma_first_failure_decides(items@, reader::<T>(), i as int, e);
                        }
                        return Err(e);
                    },
                }
                i += 1;
            }
            Ok(list)
        },
        _ => Err(DecodeError::Expected),
    }
}

/// Reads a required member that is an array of items of one shape.
pub fn list_field<T: Shape>(value: &JsonValue, key: &str) -> (r: Result<Vec<T>, DecodeError>)
    ensures
        reads(r, spec_list_field::<T>(*value, key@)),
{
    match member(value, key)? {
        None => Err(DecodeError::MissingField),
        Some(m) => list_from_json::<T>(m),
    }
}

/// Reads a member that is an array of items of one shape and may be left out.
pub fn opt_list_field<T: Shape>(value: &JsonValue, key: &str) -> (r: Result<
    Option<Vec<T>>,
    DecodeError,
>)
    ensures
        reads_list(r, spec_opt_list_field::<T>(*value, key@)),
{
    match member(value, key)? {
        None => Ok(None),
        Some(JsonValue::Null) => Ok(None),
        Some(m) => Ok(Some(list_from_json::<T>(m)?)),
    }
}

/// The name of the variant that a value gives: a text is the name itself,
/// and an object gives it as its `variant`, beside an array of `fields`.
pub open spec fn spec_variant_name(value: JsonValue) -> Result<String, DecodeError> {
    match value {
        JsonValue::Text(name) => Ok(name),
        JsonValue::Object(_) => match spec_member(value, "variant"@) {
            Ok(Some(JsonValue::Text(name))) => match spec_member(value, "fields"@) {
                Ok(Some(JsonValue::Array(_))) => Ok(name),
                Ok(Some(_)) => Err(DecodeError::Expected),
                _ => Err(DecodeError::MissingField),
            },
            Ok(Some(_)) => Err(DecodeError::Expected),
            _ => Err(DecodeError::MissingField),
        },
        _ => Err(DecodeError::Expected),
    }
}

/// Reads the name of the variant that a value gives.
pub fn variant_name(value: &JsonValue) -> (r: Result<&String, DecodeError>)
    ensures
        match r {
            Ok(name) => spec_variant_name(*value) == Ok::<_, DecodeError>(*name),
            Err(e) => spec_variant_name(*value) == Err::<String, _>(e),
        },
{
    match value {
        JsonValue::Text(name) => Ok(name),
        JsonValue::Object(_) => match member(value, "variant")? {
            Some(JsonValue::Text(name)) => match member(value, "fields")? {
                Some(JsonValue::Array(_)) => Ok(name),
                Some(_) => Err(DecodeError::Expected),
                None => Err(DecodeError::MissingField),
            },
            Some(_) => Err(DecodeError::Expected),
            None => Err(DecodeError::MissingField),
        },
        _ => Err(DecodeError::Expected),
    }
}

/// The side that a value names.
pub open spec fn spec_direction(value: JsonValue) -> Result<OrderDirection, DecodeError> {
    match spec_variant_name(value) {
        Err(e) => Err(e),
        Ok(name) => if name@ == "buy"@ {
            Ok(OrderDirection::buy)
        } else if name@ == "sell"@ {
            Ok(OrderDirection::sell)
        } else {
            Err(DecodeError::UnknownVariant)
        },
    }
}

/// A required member that names a side.
pub open spec fn spec_direction_field(value: JsonValue, key: Seq<char>) -> Result<
    OrderDirection,
    DecodeError,
> {
    required(value, key, |m: JsonValue| spec_direction(m))
}

/// A member that names a side and may be left out.
pub open spec fn spec_opt_direction_field(value: JsonValue, key: Seq<char>) -> Result<
    Option<OrderDirection>,
    DecodeError,
> {
    optional(value, key, |m: JsonValue| spec_direction(m))
}

/// Reads a side from its wire name.
pub fn direction_from_json(value: &JsonValue) -> (r: Result<OrderDirection, DecodeError>)
    ensures
        r == spec_direction(*value),
{
    let name = variant_name(value)?;
    if *name == "buy".to_owned() {
        Ok(OrderDirection::buy)
    } else if *name == "sell".to_owned() {
        Ok(OrderDirection::sell)
    } else {
        Err(DecodeError::UnknownVariant)
    }
}

/// Reads a required member that names a side.
pub fn direction_field(value: &JsonValue, key: &str) -> (r: Result<OrderDirection, DecodeError>)
    ensures
        r == spec_direction_field(*value, key@),
{
    match member(value, key)? {
        None => Err(DecodeError::MissingField),
        Some(m) => direction_from_json(m),
    }
}

/// Reads a member that names a side and may be left out.
pub fn opt_direction_field(value: &JsonValue, key: &str) -> (r: Result<
    Option<OrderDirection>,
    DecodeError,
>)
    ensures
        r == spec_opt_direction_field(*value, key@),
{
    match member(value, key)? {
        None => Ok(None),
        Some(JsonValue::Null) => Ok(None),
        Some(m) => Ok(Some(direction_from_json(m)?)),
    }
}

/// The `Quote` that a JSON value stands for.
pub open spec fn spec_quote(value: JsonValue) -> Result<Quote, DecodeError> {
    let ok = spec_bool_field(value, "ok"@);
    let symbol = spec_text_field(value, "symbol"@);
    let venue = spec_text_field(value, "venue"@);
    let bid = spec_opt_usize_field(value, "bid"@);
    let ask = spec_opt_usize_field(value, "ask"@);
    let bid_size = spec_opt_usize_field(value, "bidSize"@);
    let ask_size = spec_opt_usize_field(value, "askSize"@);
    let bid_depth = spec_opt_usize_field(value, "bidDepth"@);
    let ask_depth = spec_opt_usize_field(value, "askDepth"@);
    let last = spec_usize_field(value, "last"@);
    let last_size = spec_opt_usize_field(value, "lastSize"@);
    let last_trade = spec_opt_text_field(value, "lastTrade"@);
    let quote_time = spec_opt_text_field(value, "quoteTime"@);
    if ok is Err {
        Err(ok->Err_0)
    } else if symbol is Err {
        Err(symbol->Err_0)
    } else if venue is Err {
        Err(venue->Err_0)
    } else if bid is Err {
        Err(bid->Err_0)
    } else if ask is Err {
        Err(ask->Err_0)
    } else if bid_size is Err {
        Err(bid_size->Err_0)
    } else if ask_size is Err {
        Err(ask_size->Err_0)
    } else if bid_depth is Err {
        Err(bid_depth->Err_0)
    } else if ask_depth is Err {
        Err(ask_depth->Err_0)
    } else if last is Err {
        Err(last->Err_0)
    } else if last_size is Err {
        Err(last_size->Err_0)
    } else if last_trade is Err {
        Err(last_trade->Err_0)
    } else if quote_time is Err {
        Err(quote_time->Err_0)
    } else {
        Ok(
            Quote {
                ok: ok->Ok_0,
                symbol: symbol->Ok_0,
                venue: venue->Ok_0,
                bid: bid->Ok_0,
                ask: ask->Ok_0,
                bid_size: bid_size->Ok_0,
                ask_size: ask_size->Ok_0,
                bid_depth: bid_depth->Ok_0,
                ask_depth: ask_depth->Ok_0,
                last: last->Ok_0,
                last_size: last_size->Ok_0,
                last_trade: last_trade->Ok_0,
                quote_time: quote_time->Ok_0,
            },
        )
    }
}

/// Reads a `Quote` from a JSON value.
pub fn quote_from_json(value: &JsonValue) -> (r: Result<Quote, DecodeError>)
    ensures
        r == spec_quote(*value),
{
    let ok = bool_field(value, "ok")?;
    let symbol = text_field(value, "symbol")?;
    let venue = text_field(value, "venue")?;
    let bid = opt_usize_field(value, "bid")?;
    let ask = opt_usize_field(value, "ask")?;
    let bid_size = opt_usize_field(value, "bidSize")?;
    let ask_size = opt_usize_field(value, "askSize")?;
    let bid_depth = opt_usize_field(value, "bidDepth")?;
    let ask_depth = opt_usize_field(value, "askDepth")?;
    let last = usize_field(value, "last")?;
    let last_size = opt_usize_field(value, "lastSize")?;
    let last_trade = opt_text_field(value, "lastTrade")?;
    let quote_time = opt_text_field(value, "quoteTime")?;
    Ok(
        Quote {
            ok,
            symbol,
            venue,
            bid,
            ask,
            bid_size,
            ask_size,
            bid_depth,
            ask_depth,
            last,
            last_size,
            last_trade,
            quote_time,
        },
    )
}

/// The `Fill` that a JSON value stands for.
pub open spec fn spec_fill(value: JsonValue) -> Result<Fill, DecodeError> {
    let price = spec_opt_usize_field(value, "price"@);
    let qty = spec_opt_usize_field(value, "qty"@);
    let ts = spec_opt_text_field(value, "ts"@);
    if price is Err {
        Err(price->Err_0)
    } else if qty is Err {
        Err(qty->Err_0)
    } else if ts is Err {
        Err(ts->Err_0)
    } else {
        Ok(
            Fill {
                price: price->Ok_0,
                qty: qty->Ok_0,
                ts: ts->Ok_0,
            },
        )
    }
}

/// Reads a `Fill` from a JSON value.
pub fn fill_from_json(value: &JsonValue) -> (r: Result<Fill, DecodeError>)
    ensures
        r == spec_fill(*value),
{
    let price = opt_usize_field(value, "price")?;
    let qty = opt_usize_field(value, "qty")?;
    let ts = opt_text_field(value, "ts")?;
    Ok(Fill { price, qty, ts })
}

impl Shape for Fill {
    open spec fn spec_read(value: JsonValue) -> Result<Fill, DecodeError> {
        spec_fill(value)
    }

    fn read(value: &JsonValue) -> (r: Result<Fill, DecodeError>) {
        fill_from_json(value)
    }
}

/// The `Order` that a JSON value stands for.
pub open spec fn spec_order(value: JsonValue) -> Result<Order, DecodeError> {
    let account = spec_text_field(value, "account"@);
    let venue = spec_text_field(value, "venue"@);
    let stock = spec_text_field(value, "stock"@);
    let price = spec_usize_field(value, "price"@);
    let qty = spec_usize_field(value, "qty"@);
    let direction = spec_direction_field(value, "direction"@);
    let order_type = spec_text_field(value, "orderType"@);
    if account is Err {
        Err(account->Err_0)
    } else if venue is Err {
        Err(venue->Err_0)
    } else if stock is Err {
        Err(stock->Err_0)
    } else if price is Err {
        Err(price->Err_0)
    } else if qty is Err {
        Err(qty->Err_0)
    } else if direction is Err {
        Err(direction->Err_0)
    } else if order_type is Err {
        Err(order_type->Err_0)
    } else {
        Ok(
            Order {
                account: account->Ok_0,
                venue: venue->Ok_0,
                stock: stock->Ok_0,
                price: price->Ok_0,
                qty: qty->Ok_0,
                direction: direction->Ok_0,
                order_type: order_type->Ok_0,
            },
        )
    }
}

/// Reads a `Order` from a JSON value.
pub fn order_from_json(value: &JsonValue) -> (r: Result<Order, DecodeError>)
    ensures
        r == spec_order(*value),
{
    let account = text_field(value, "account")?;
    let venue = text_field(value, "venue")?;
    let stock = text_field(value, "stock")?;
    let price = usize_field(value, "price")?;
    let qty = usize_field(value, "qty")?;
    let direction = direction_field(value, "direction")?;
    let order_type = text_field(value, "orderType")?;
    Ok(Order { account, venue, stock, price, qty, direction, order_type })
}

impl Shape for Order {
    open spec fn spec_read(value: JsonValue) -> Result<Order, DecodeError> {
        spec_order(value)
    }

    fn read(value: &JsonValue) -> (r: Result<Order, DecodeError>) {
        order_from_json(value)
    }
}

/// The `OrderStatus` that a JSON value stands for.
pub open spec fn spec_order_status(value: JsonValue) -> Result<OrderStatusView, DecodeError> {
    let ok = spec_bool_field(value, "ok"@);
    let symbol = spec_opt_text_field(value, "symbol"@);
    let venue = spec_opt_text_field(value, "venue"@);
    let direction = spec_opt_direction_field(value, "direction"@);
    let original_qty = spec_opt_usize_field(value, "originalQty"@);
    let qty = spec_opt_usize_field(value, "qty"@);
    let price = spec_opt_usize_field(value, "price"@);
    let order_type = spec_opt_text_field(value, "orderType"@);
    let id = spec_opt_usize_field(value, "id"@);
    let account = spec_opt_text_field(value, "account"@);
    let ts = spec_opt_text_field(value, "ts"@);
    let fills = spec_opt_list_field::<Fill>(value, "fills"@);
    let total_filled = spec_opt_usize_field(value, "totalFilled"@);
    let open = spec_opt_bool_field(value, "open"@);
    if ok is Err {
        Err(ok->Err_0)
    } else if symbol is Err {
        Err(symbol->Err_0)
    } else if venue is Err {
        Err(venue->Err_0)
    } else if direction is Err {
        Err(direction->Err_0)
    } else if original_qty is Err {
        Err(original_qty->Err_0)
    } else if qty is Err {
        Err(qty->Err_0)
    } else if price is Err {
        Err(price->Err_0)
    } else if order_type is Err {
        Err(order_type->Err_0)
    } else if id is Err {
        Err(id->Err_0)
    } else if account is Err {
        Err(account->Err_0)
    } else if ts is Err {
        Err(ts->Err_0)
    } else if fills is Err {
        Err(fills->Err_0)
    } else if total_filled is Err {
        Err(total_filled->Err_0)
    } else if open is Err {
        Err(open->Err_0)
    } else {
        Ok(
            OrderStatusView {
                ok: ok->Ok_0,
                symbol: symbol->Ok_0,
                venue: venue->Ok_0,
                direction: direction->Ok_0,
                original_qty: original_qty->Ok_0,
                qty: qty->Ok_0,
                price: price->Ok_0,
                order_type: order_type->Ok_0,
                id: id->Ok_0,
                account: account->Ok_0,
                ts: ts->Ok_0,
                fills: fills->Ok_0,
                total_filled: total_filled->Ok_0,
                open: open->Ok_0,
            },
        )
    }
}

/// Reads a `OrderStatus` from a JSON value.
pub fn order_status_from_json(value: &JsonValue) -> (r: Result<OrderStatus, DecodeError>)
    ensures
        reads(r, spec_order_status(*value)),
{
    let ok = bool_field(value, "ok")?;
    let symbol = opt_text_field(value, "symbol")?;
    let venue = opt_text_field(value, "venue")?;
    let direction = opt_direction_field(value, "direction")?;
    let original_qty = opt_usize_field(value, "originalQty")?;
    let qty = opt_usize_field(value, "qty")?;
    let price = opt_usize_field(value, "price")?;
    let order_type = opt_text_field(value, "orderType")?;
    let id = opt_usize_field(value, "id")?;
    let account = opt_text_field(value, "account")?;
    let ts = opt_text_field(value, "ts")?;
    let fills = opt_list_field::<Fill>(value, "fills")?;
    let total_filled = opt_usize_field(value, "totalFilled")?;
    let open = opt_bool_field(value, "open")?;
    Ok(
        OrderStatus {
            ok,
            symbol,
            venue,
            direction,
            original_qty,
            qty,
            price,
            order_type,
            id,
            account,
            ts,
            fills,
            total_filled,
            open,
        },
    )
}

/// The `StockTicker` that a JSON value stands for.
pub open spec fn spec_stock_ticker(value: JsonValue) -> Result<StockTicker, DecodeError> {
    let name = spec_text_field(value, "name"@);
    let symbol = spec_text_field(value, "symbol"@);
    if name is Err {
        Err(name->Err_0)
    } else if symbol is Err {
        Err(symbol->Err_0)
    } else {
        Ok(
            StockTicker {
                name: name->Ok_0,
                symbol: symbol->Ok_0,
            },
        )
    }
}

/// Reads a `StockTicker` from a JSON value.
pub fn stock_ticker_from_json(value: &JsonValue) -> (r: Result<StockTicker, DecodeError>)
    ensures
        r == spec_stock_ticker(*value),
{
    let name = text_field(value, "name")?;
    let symbol = text_field(value, "symbol")?;
    Ok(StockTicker { name, symbol })
}

impl Shape for StockTicker {
    open spec fn spec_read(value: JsonValue) -> Result<StockTicker, DecodeError> {
        spec_stock_ticker(value)
    }

    fn read(value: &JsonValue) -> (r: Result<StockTicker, DecodeError>) {
        stock_ticker_from_json(value)
    }
}

/// The `StockList` that a JSON value stands for.
pub open spec fn spec_stock_list(value: JsonValue) -> Result<StockListView, DecodeError> {
    let ok = spec_bool_field(value, "ok"@);
    let symbols = spec_list_field::<StockTicker>(value, "symbols"@);
    if ok is Err {
        Err(ok->Err_0)
    } else if symbols is Err {
        Err(symbols->Err_0)
    } else {
        Ok(
            StockListView {
                ok: ok->Ok_0,
                symbols: symbols->Ok_0,
            },
        )
    }
}

/// Reads a `StockList` from a JSON value.
pub fn stock_list_from_json(value: &JsonValue) -> (r: Result<StockList, DecodeError>)
    ensures
        reads(r, spec_stock_list(*value)),
{
    let ok = bool_field(value, "ok")?;
    let symbols = list_field::<StockTicker>(value, "symbols")?;
    Ok(StockList { ok, symbols })
}

/// The `BidAsk` that a JSON value stands for.
pub open spec fn spec_bid_ask(value: JsonValue) -> Result<BidAsk, DecodeError> {
    let price = spec_usize_field(value, "price"@);
    let qty = spec_usize_field(value, "qty"@);
    let is_buy = spec_bool_field(value, "isBuy"@);
    if price is Err {
        Err(price->Err_0)
    } else if qty is Err {
        Err(qty->Err_0)
    } else if is_buy is Err {
        Err(is_buy->Err_0)
    } else {
        Ok(
            BidAsk {
                price: price->Ok_0,
                qty: qty->Ok_0,
                is_buy: is_buy->Ok_0,
            },
        )
    }
}

/// Reads a `BidAsk` from a JSON value.
pub fn bid_ask_from_json(value: &JsonValue) -> (r: Result<BidAsk, DecodeError>)
    ensures
        r == spec_bid_ask(*value),
{
    let price = usize_field(value, "price")?;
    let qty = usize_field(value, "qty")?;
    let is_buy = bool_field(value, "isBuy")?;
    Ok(BidAsk { price, qty, is_buy })
}

impl Shape for BidAsk {
    open spec fn spec_read(value: JsonValue) -> Result<BidAsk, DecodeError> {
        spec_bid_ask(value)
    }

    fn read(value: &JsonValue) -> (r: Result<BidAsk, DecodeError>) {
        bid_ask_from_json(value)
    }
}

/// The `OrderbookList` that a JSON value stands for.
pub open spec fn spec_orderbook_list(value: JsonValue) -> Result<OrderbookListView, DecodeError> {
    let ok = spec_bool_field(value, "ok"@);
    let venue = spec_text_field(value, "venue"@);
    let symbol = spec_text_field(value, "symbol"@);
    let bids = spec_opt_list_field::<BidAsk>(value, "bids"@);
    let asks = spec_opt_list_field::<BidAsk>(value, "asks"@);
    let ts = spec_text_field(value, "ts"@);
    if ok is Err {
        Err(ok->Err_0)
    } else if venue is Err {
        Err(venue->Err_0)
    } else if symbol is Err {
        Err(symbol->Err_0)
    } else if bids is Err {
        Err(bids->Err_0)
    } else if asks is Err {
        Err(asks->Err_0)
    } else if ts is Err {
        Err(ts->Err_0)
    } else {
        Ok(
            OrderbookListView {
                ok: ok->Ok_0,
                venue: venue->Ok_0,
                symbol: symbol->Ok_0,
                bids: bids->Ok_0,
                asks: asks->Ok_0,
                ts: ts->Ok_0,
            },
        )
    }
}

/// Reads a `OrderbookList` from a JSON value.
pub fn orderbook_list_from_json(value: &JsonValue) -> (r: Result<OrderbookList, DecodeError>)
    ensures
        reads(r, spec_orderbook_list(*value)),
{
    let ok = bool_field(value, "ok")?;
    let venue = text_field(value, "venue")?;
    let symbol = text_field(value, "symbol")?;
    let bids = opt_list_field::<BidAsk>(value, "bids")?;
    let asks = opt_list_field::<BidAsk>(value, "asks")?;
    let ts = text_field(value, "ts")?;
    Ok(OrderbookList { ok, venue, symbol, bids, asks, ts })
}

/// The `StockOrdersStatuses` that a JSON value stands for.
pub open spec fn spec_stock_orders_statuses(
    value: JsonValue,
) -> Result<StockOrdersStatusesView, DecodeError> {
    let ok = spec_bool_field(value, "ok"@);
    let venue = spec_text_field(value, "venue"@);
    let orders = spec_list_field::<Order>(value, "orders"@);
    if ok is Err {
        Err(ok->Err_0)
    } else if venue is Err {
        Err(venue->Err_0)
    } else if orders is Err {
        Err(orders->Err_0)
    } else {
        Ok(
            StockOrdersStatusesView {
                ok: ok->Ok_0,
                venue: venue->Ok_0,
                orders: orders->Ok_0,
            },
        )
    }
}

/// Reads a `StockOrdersStatuses` from a JSON value.
pub fn stock_orders_statuses_from_json(
    value: &JsonValue,
) -> (r: Result<StockOrdersStatuses, DecodeError>)
    ensures
        reads(r, spec_stock_orders_statuses(*value)),
{
    let ok = bool_field(value, "ok")?;
    let venue = text_field(value, "venue")?;
    let orders = list_field::<Order>(value, "orders")?;
    Ok(StockOrdersStatuses { ok, venue, orders })
}

/// The `Heartbeat` that a JSON value stands for.
pub open spec fn spec_heartbeat(value: JsonValue) -> Result<Heartbeat, DecodeError> {
    let ok = spec_bool_field(value, "ok"@);
    let error = spec_text_field(value, "error"@);
    if ok is Err {
        Err(ok->Err_0)
    } else if error is Err {
        Err(error->Err_0)
    } else {
        Ok(
            Heartbeat {
                ok: ok->Ok_0,
                error: error->Ok_0,
            },
        )
    }
}

/// Reads a `Heartbeat` from a JSON value.
pub fn heartbeat_from_json(value: &JsonValue) -> (r: Result<Heartbeat, DecodeError>)
    ensures
        r == spec_heartbeat(*value),
{
    let ok = bool_field(value, "ok")?;
    let error = text_field(value, "error")?;
    Ok(Heartbeat { ok, error })
}

/// The `VenueHeartbeat` that a JSON value stands for.
pub open spec fn spec_venue_heartbeat(value: JsonValue) -> Result<VenueHeartbeat, DecodeError> {
    let ok = spec_bool_field(value, "ok"@);
    let venue = spec_opt_text_field(value, "venue"@);
    if ok is Err {
        Err(ok->Err_0)
    } else if venue is Err {
        Err(venue->Err_0)
    } else {
        Ok(
            VenueHeartbeat {
                ok: ok->Ok_0,
                venue: venue->Ok_0,
            },
        )
    }
}

/// Reads a `VenueHeartbeat` from a JSON value.
pub fn venue_heartbeat_from_json(value: &JsonValue) -> (r: Result<VenueHeartbeat, DecodeError>)
    ensures
        r == spec_venue_heartbeat(*value),
{
    let ok = bool_field(value, "ok")?;
    let venue = opt_text_field(value, "venue")?;
    Ok(VenueHeartbeat { ok, venue })
}

} // verus!
