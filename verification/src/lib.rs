//! Client-side logic for a trading-simulation exchange: the JSON envelope
//! codec, the request and reply rules of the REST gateway, and the state
//! machine of the streaming quote feed.
//!
//! The library does no I/O. A caller sends the `Request` that the gateway
//! builds and hands back the `Reply`; it runs the receive loop of a feed by
//! performing each `Action` of a `Session` and reporting the `Event` that
//! came of it.

pub mod codec;
pub mod error;
pub mod gateway;
pub mod json;
pub mod laws;
pub mod limits;
pub mod model;
pub mod session;

pub use error::StockfighterError;
pub use gateway::{Method, Refusal, Reply, Request, Stockfighter};
pub use json::{DecodeError, JsonValue, Scalar};
pub use model::{
    BidAsk, Fill, Order, OrderDirection, OrderStatus, OrderType, OrderbookList, Quote, StockList,
    StockOrdersStatuses, StockTicker,
};
pub use session::{
    Action, Arrival, ConnectionTarget, Event, Frame, Record, Session, SessionOutcome, SessionState,
};
