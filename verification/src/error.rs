//! The errors that the gateway and a feed session report.

use crate::json::DecodeError;
use vstd::prelude::*;

verus! {

/// What can go wrong between this client and the exchange.
#[derive(Debug, Clone, PartialEq, Eq)]
pub enum StockfighterError {
    /// The exchange does not answer its heartbeat as healthy.
    ApiDown,
    /// The venue is down or unknown.
    VenueDown(String),
    /// The exchange refused the call.
    ApiError,
    /// An HTTP call did not complete; the text is the transport's own.
    Hyper(String),
    /// A payload could not be decoded.
    JsonDecoder(DecodeError),
    /// Reading or writing an open connection failed.
    Io(String),
    /// A feed connection could not be opened.
    Connect(String),
    /// The caller's event handler failed.
    Callback(String),
}

/// A `StockfighterError` with its texts as sequences of characters.
pub enum ErrorView {
    ApiDown,
    VenueDown(Seq<char>),
    ApiError,
    Hyper(Seq<char>),
    JsonDecoder(DecodeError),
    Io(Seq<char>),
    Connect(Seq<char>),
    Callback(Seq<char>),
}

impl View for StockfighterError {
    type V = ErrorView;

    open spec fn view(&self) -> ErrorView {
        match *self {
            StockfighterError::ApiDown => ErrorView::ApiDown,
            StockfighterError::VenueDown(venue) => ErrorView::VenueDown(venue@),
            StockfighterError::ApiError => ErrorView::ApiError,
            StockfighterError::Hyper(text) => ErrorView::Hyper(text@),
            StockfighterError::JsonDecoder(e) => ErrorView::JsonDecoder(e),
            StockfighterError::Io(text) => ErrorView::Io(text@),
            StockfighterError::Connect(text) => ErrorView::Connect(text@),
            StockfighterError::Callback(text) => ErrorView::Callback(text@),
        }
    }
}

/// A result is what it was to be, the value and the error each by its view.
pub open spec fn agrees<T: View>(
    r: Result<T, StockfighterError>,
    expected: Result<T::V, ErrorView>,
) -> bool {
    match r {
        Ok(x) => expected == Ok::<T::V, ErrorView>(x@),
        Err(e) => expected == Err::<T::V, ErrorView>(e@),
    }
}

impl DecodeError {
    /// The words for a decode error.
    pub open spec fn spec_message(self) -> Seq<char> {
        match self {
            DecodeError::Syntax => "invalid JSON"@,
            DecodeError::OverLimit => "JSON beyond the limits"@,
            DecodeError::Expected => "a value of an unexpected kind"@,
            DecodeError::MissingField => "a required field is missing"@,
            DecodeError::UnknownVariant => "an unknown variant"@,
        }
    }

    pub fn message(&self) -> (s: String)
        ensures
            s@ == self.spec_message(),
    {
        match self {
            DecodeError::Syntax => "invalid JSON".to_owned(),
            DecodeError::OverLimit => "JSON beyond the limits".to_owned(),
            DecodeError::Expected => "a value of an unexpected kind".to_owned(),
            DecodeError::MissingField => "a required field is missing".to_owned(),
            DecodeError::UnknownVariant => "an unknown variant".to_owned(),
        }
    }
}

impl ErrorView {
    /// The full message of an error: for a venue, its name follows the words.
    pub open spec fn message(self) -> Seq<char> {
        match self {
            ErrorView::ApiDown => "API down"@,
            ErrorView::VenueDown(venue) => "Venue down: "@ + venue,
            ErrorView::ApiError => "API error"@,
            ErrorView::Hyper(text) => text,
            ErrorView::JsonDecoder(e) => e.spec_message(),
            ErrorView::Io(text) => text,
            ErrorView::Connect(text) => text,
            ErrorView::Callback(text) => text,
        }
    }

    /// The short description of an error, which never names the venue.
    pub open spec fn description(self) -> Seq<char> {
        match self {
            ErrorView::VenueDown(_) => "Venue down"@,
            _ => self.message(),
        }
    }

    /// The message of the error underneath, for the errors that wrap one.
    pub open spec fn cause(self) -> Option<Seq<char>> {
        match self {
            ErrorView::ApiDown => None,
            ErrorView::VenueDown(_) => None,
            ErrorView::ApiError => None,
            _ => Some(self.message()),
        }
    }
}

impl StockfighterError {
    /// The message that a user is shown.
    pub fn message(&self) -> (s: String)
        ensures
            s@ == self@.message(),
    {
        match self {
            StockfighterError::ApiDown => "API down".to_owned(),
            StockfighterError::VenueDown(venue) => "Venue down: ".to_owned().concat(venue.as_str()),
            StockfighterError::ApiError => "API error".to_owned(),
            StockfighterError::Hyper(text) => text.clone(),
            StockfighterError::JsonDecoder(e) => e.message(),
            StockfighterError::Io(text) => text.clone(),
            StockfighterError::Connect(text) => text.clone(),
            StockfighterError::Callback(text) => text.clone(),
        }
    }

    /// A short description of the kind of error.
    pub fn description(&self) -> (s: String)
        ensures
            s@ == self@.description(),
    {
        match self {
            StockfighterError::VenueDown(_) => "Venue down".to_owned(),
            _ => self.message(),
        }
    }

    /// The message of the wrapped error, if this error wraps one.
    pub fn cause(&self) -> (c: Option<String>)
        ensures
            match c {
                Some(s) => self@.cause() == Some(s@),
                None => self@.cause() is None,
            },
    {
        match self {
            StockfighterError::ApiDown => None,
            StockfighterError::VenueDown(_) => None,
            StockfighterError::ApiError => None,
            _ => Some(self.message()),
        }
    }
}

} // verus!
