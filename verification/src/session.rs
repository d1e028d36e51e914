//! The streaming feed: the frames of a session, the decoding of a quote
//! event, and the state machine that decides what the receive loop does next.
//!
//! The machine does no I/O. Whoever runs the loop performs each `Action` and
//! reports what came of it as the next `Event`.

use crate::codec::{quote_from_json, spec_quote};
use crate::error::StockfighterError;
use crate::json::{parse, spec_parse, DecodeError};
use crate::model::Quote;
use vstd::prelude::*;

verus! {

/// One message of the streaming connection.
#[derive(Debug, Clone, PartialEq, Eq)]
pub enum Frame {
    /// A JSON payload that holds a quote.
    Text(String),
    /// A payload that this client does not read.
    Binary(Vec<u8>),
    /// The peer ends the session.
    Close(Option<Vec<u8>>),
    /// The peer asks for a `Pong` with the same payload.
    Ping(Option<Vec<u8>>),
    /// The peer answers a ping.
    Pong(Option<Vec<u8>>),
}

/// How a session ended.
#[derive(Debug, Clone, PartialEq, Eq)]
pub enum SessionOutcome {
    /// The peer closed the feed.
    Normal,
    /// The first fatal error of the session.
    Error(StockfighterError),
}

/// Where a session stands.
#[derive(Debug, Clone, PartialEq, Eq)]
pub enum SessionState {
    /// The connection is being opened.
    Connecting,
    /// Frames are being received.
    Open,
    /// The peer has closed and the acknowledgement is on its way.
    Closing,
    /// The session is over.
    Closed(SessionOutcome),
}

/// What the loop reports to the machine.
#[derive(Debug, Clone, PartialEq, Eq)]
pub enum Event {
    /// The handshake succeeded.
    Opened,
    /// The connection could not be opened.
    Refused(String),
    /// The next frame arrived.
    Received(Frame),
    /// Reading the next frame failed.
    ReadFailed(String),
    /// The handler returned.
    Delivered,
    /// The handler failed.
    CallbackFailed(String),
    /// The reply was written.
    Sent,
    /// The reply could not be written.
    SendFailed(String),
}

/// What the loop is to do next.
#[derive(Debug, Clone, PartialEq, Eq)]
pub enum Action {
    /// Open the connection and report `Opened` or `Refused`.
    Connect,
    /// Wait for the next frame and report `Received` or `ReadFailed`.
    Receive,
    /// Hand the quote to the handler and report `Delivered` or
    /// `CallbackFailed`.
    Deliver(Quote),
    /// Write a `Pong` with this payload and report `Sent` or `SendFailed`.
    SendPong(Option<Vec<u8>>),
    /// Write the acknowledgement of a close and report `Sent` or
    /// `SendFailed`.
    SendClose,
    /// Leave the loop: the session is closed.
    Stop,
}

/// The quote that a text payload stands for.
pub open spec fn spec_decode(payload: Seq<char>) -> Result<Quote, DecodeError> {
    match spec_parse(payload) {
        Err(e) => Err(e),
        Ok(json) => spec_quote(json),
    }
}

/// Decodes the payload of a text frame into a quote event.
pub fn decode(payload: &str) -> (r: Result<Quote, DecodeError>)
    ensures
        r == spec_decode(payload@),
{
    match parse(payload) {
        Err(e) => Err(e),
        Ok(json) => quote_from_json(&json),
    }
}

/// A closed state with an error as its outcome.
pub open spec fn failed(error: StockfighterError) -> SessionState {
    SessionState::Closed(SessionOutcome::Error(error))
}

/// The transition of an open session.
pub open spec fn spec_step_open(event: Event) -> (SessionState, Action) {
    match event {
        Event::Received(Frame::Text(payload)) => match spec_decode(payload@) {
            Ok(quote) => (SessionState::Open, Action::Deliver(quote)),
            Err(e) => (failed(StockfighterError::JsonDecoder(e)), Action::Stop),
        },
        Event::Received(Frame::Close(_)) => (SessionState::Closing, Action::SendClose),
        Event::Received(Frame::Ping(payload)) => (SessionState::Open, Action::SendPong(payload)),
        Event::Received(Frame::Pong(_)) => (SessionState::Open, Action::Receive),
        Event::Received(Frame::Binary(_)) => (SessionState::Open, Action::Receive),
        Event::ReadFailed(text) => (failed(StockfighterError::Io(text)), Action::Stop),
        Event::SendFailed(text) => (failed(StockfighterError::Io(text)), Action::Stop),
        Event::CallbackFailed(text) => (failed(StockfighterError::Callback(text)), Action::Stop),
        Event::Delivered => (SessionState::Open, Action::Receive),
        Event::Sent => (SessionState::Open, Action::Receive),
        Event::Opened => (SessionState::Open, Action::Receive),
        Event::Refused(_) => (SessionState::Open, Action::Receive),
    }
}

/// The transition function: the state after an event, and what the loop is
/// to do next.
///
/// While connecting, only the end of the handshake counts. While closing,
/// whatever comes next ends the session normally: a failed acknowledgement
/// is not an error. A closed session stays as it is.
pub open spec fn spec_step(state: SessionState, event: Event) -> (SessionState, Action) {
    match state {
        SessionState::Connecting => match event {
            Event::Opened => (SessionState::Open, Action::Receive),
            Event::Refused(text) => (failed(StockfighterError::Connect(text)), Action::Stop),
            _ => (SessionState::Connecting, Action::Connect),
        },
        SessionState::Open => spec_step_open(event),
        SessionState::Closing => (SessionState::Closed(SessionOutcome::Normal), Action::Stop),
        SessionState::Closed(outcome) => (SessionState::Closed(outcome), Action::Stop),
    }
}

/// The state of a session that started in `start` after the first `n` of
/// `events`.
pub open spec fn state_after(start: SessionState, events: Seq<Event>, n: int) -> SessionState
    decreases n,
{
    if n <= 0 {
        start
    } else {
        spec_step(state_after(start, events, n - 1), events[n - 1]).0
    }
}

/// What the loop is told on event `i` of a run.
pub open spec fn action_at(start: SessionState, events: Seq<Event>, i: int) -> Action {
    spec_step(state_after(start, events, i), events[i]).1
}

/// One frame of a recorded feed, and what came of the delivery or the write
/// that it asked for: `None` where that went well, the text of the error
/// where the handler or the write failed.
#[derive(Debug, Clone, PartialEq, Eq)]
pub struct Arrival {
    pub frame: Frame,
    pub fault: Option<String>,
}

/// What a loop has done: where the session stands, the quotes that went to
/// the handler and the frames that it tried to write, each in order.
pub struct Transcript {
    pub state: SessionState,
    pub delivered: Seq<Quote>,
    pub written: Seq<Frame>,
}

/// The quote that an action hands to the handler, if it hands one.
pub open spec fn handed(action: Action) -> Seq<Quote> {
    match action {
        Action::Deliver(quote) => seq![quote],
        _ => Seq::empty(),
    }
}

/// The frame that an action tries to write, if it writes one: a pong with
/// its payload, or a close without one.
pub open spec fn wrote(action: Action) -> Seq<Frame> {
    match action {
        Action::SendPong(payload) => seq![Frame::Pong(payload)],
        Action::SendClose => seq![Frame::Close(None)],
        _ => Seq::empty(),
    }
}

/// What is reported when an action has been tried: that the handler
/// returned or the frame was written, or with a fault that it failed.
/// Nothing is reported for an action that delivers and writes nothing.
pub open spec fn done(action: Action, fault: Option<String>) -> Option<Event> {
    match action {
        Action::Deliver(_) => Some(
            match fault {
                None => Event::Delivered,
                Some(text) => Event::CallbackFailed(text),
            },
        ),
        Action::SendPong(_) => Some(
            match fault {
                None => Event::Sent,
                Some(text) => Event::SendFailed(text),
            },
        ),
        Action::SendClose => Some(
            match fault {
                None => Event::Sent,
                Some(text) => Event::SendFailed(text),
            },
        ),
        _ => None,
    }
}

/// The state once a frame has been received and what it asked for has been
/// tried.
pub open spec fn state_past(state: SessionState, arrival: Arrival) -> SessionState {
    let taken = spec_step(state, Event::Received(arrival.frame));
    match done(taken.1, arrival.fault) {
        Some(event) => spec_step(taken.0, event).0,
        None => taken.0,
    }
}

/// The loop over a recorded feed. It goes on while the session is open and
/// frames are left.
pub open spec fn spec_run(state: SessionState, feed: Seq<Arrival>) -> Transcript
    decreases feed.len(),
{
    if feed.len() == 0 || state != SessionState::Open {
        Transcript { state, delivered: Seq::empty(), written: Seq::empty() }
    } else {
        let action = spec_step(state, Event::Received(feed[0].frame)).1;
        let rest = spec_run(state_past(state, feed[0]), feed.drop_first());
        Transcript {
            state: rest.state,
            delivered: handed(action) + rest.delivered,
            written: wrote(action) + rest.written,
        }
    }
}

/// What a loop over a recorded feed has delivered and tried to write.
#[derive(Debug, Clone, PartialEq, Eq)]
pub struct Record {
    pub delivered: Vec<Quote>,
    pub written: Vec<Frame>,
}

/// The characters that a segment of a feed's path may hold: ASCII letters
/// and digits, and `-`, `.`, `_` and `~`.
pub open spec fn is_segment_char(c: char) -> bool {
    ||| 'a' <= c <= 'z'
    ||| 'A' <= c <= 'Z'
    ||| '0' <= c <= '9'
    ||| c == '-'
    ||| c == '.'
    ||| c == '_'
    ||| c == '~'
}

/// A text that can stand as one segment of a path: it is not empty and holds
/// segment characters alone.
pub open spec fn is_segment(s: Seq<char>) -> bool {
    &&& s.len() > 0
    &&& forall|i: int| 0 <= i < s.len() ==> is_segment_char(#[trigger] s[i])
}

/// Whether a text can stand as one segment of a path.
pub fn check_segment(s: &str) -> (b: bool)
    ensures
        b == is_segment(s@),
{
    if !s.is_ascii() {
        return false;
    }
    let bytes = s.as_bytes();
    proof {
        vstd::string::is_ascii_spec_bytes(s);
    }
    if bytes.len() == 0 {
        return false;
    }
    let mut i: usize = 0;
    while i < bytes.len()
        invariant
            i <= bytes.len(),
            bytes@.len() == s@.len(),
            vstd::string::is_ascii(s),
            forall|j: int| 0 <= j < s@.len() ==> bytes@[j] == #[trigger] s@[j] as u8,
            forall|j: int| 0 <= j < i ==> is_segment_char(#[trigger] s@[j]),
        decreases bytes.len() - i,
    {
        let b: u8 = bytes[i];
        let allowed = (97 <= b && b <= 122) || (65 <= b && b <= 90) || (48 <= b && b <= 57) || b
            == 45 || b == 46 || b == 95 || b == 126;
        if !allowed {
            assert(!is_segment_char(s@[i as int]));
            return false;
        }
        assert(is_segment_char(s@[i as int]));
        i += 1;
    }
    true
}

/// Where a feed is found: a host and a path, reached over secure websocket.
/// A target is made once and not changed.
#[derive(Debug, Clone, PartialEq, Eq)]
pub struct ConnectionTarget {
    host: String,
    path: String,
}

/// The path of the feed of a venue, for all its stocks or for one.
pub open spec fn spec_ticker_tape_path(
    account: Seq<char>,
    venue: Seq<char>,
    stock: Option<Seq<char>>,
) -> Seq<char> {
    let all = "/ob/api/ws/"@ + account + "/venues/"@ + venue + "/tickertape"@;
    match stock {
        None => all,
        Some(symbol) => all + "/stocks/"@ + symbol,
    }
}

/// The view of an optional text.
pub open spec fn spec_opt_text(text: Option<&str>) -> Option<Seq<char>> {
    match text {
        None => None,
        Some(t) => Some(t@),
    }
}

/// Whether an account, a venue and a symbol, if there is one, make the path
/// of a feed: each has to be a segment.
pub open spec fn makes_target(
    account: Seq<char>,
    venue: Seq<char>,
    stock: Option<Seq<char>>,
) -> bool {
    &&& is_segment(account)
    &&& is_segment(venue)
    &&& stock matches Some(symbol) ==> is_segment(symbol)
}

impl ConnectionTarget {
    pub closed spec fn spec_host(&self) -> Seq<char> {
        self.host@
    }

    pub closed spec fn spec_path(&self) -> Seq<char> {
        self.path@
    }

    /// The URL to connect to: the scheme is always `wss`.
    pub open spec fn spec_url(&self) -> Seq<char> {
        "wss://"@ + self.spec_host() + self.spec_path()
    }

    /// The feed of a venue on the exchange, for all its stocks or, with a
    /// symbol, for one. There is none where the account, the venue or the
    /// symbol cannot stand in a path.
    pub fn ticker_tape(account: &str, venue: &str, stock: Option<&str>) -> (r: Option<
        ConnectionTarget,
    >)
        ensures
            r is Some <==> makes_target(account@, venue@, spec_opt_text(stock)),
            r matches Some(t) ==> {
                &&& t.spec_host() == "api.stockfighter.io"@
                &&& t.spec_path() == spec_ticker_tape_path(account@, venue@, spec_opt_text(stock))
            },
    {
        if !check_segment(account) || !check_segment(venue) {
            return None;
        }
        let all = "/ob/api/ws/".to_owned().concat(account).concat("/venues/").concat(venue).concat(
            "/tickertape",
        );
        let path = match stock {
            None => all,
            Some(symbol) => {
                if !check_segment(symbol) {
                    return None;
                }
                all.concat("/stocks/").concat(symbol)
            },
        };
        Some(ConnectionTarget { host: "api.stockfighter.io".to_owned(), path })
    }

    pub fn host(&self) -> (h: &str)
        ensures
            h@ == self.spec_host(),
    {
        self.host.as_str()
    }

    pub fn path(&self) -> (p: &str)
        ensures
            p@ == self.spec_path(),
    {
        self.path.as_str()
    }

    pub fn url(&self) -> (u: String)
        ensures
            u@ == self.spec_url(),
    {
        "wss://".to_owned().concat(self.host.as_str()).concat(self.path.as_str())
    }
}

/// One subscription to the feed. It owns its target, is used for one
/// connection and is never reopened: its state changes through `step` alone.
#[derive(Debug)]
pub struct Session {
    target: ConnectionTarget,
    state: SessionState,
}

impl Session {
    /// Where the session connects to.
    pub closed spec fn spec_target(&self) -> ConnectionTarget {
        self.target
    }

    /// Where the session stands.
    pub closed spec fn spec_state(&self) -> SessionState {
        self.state
    }

    /// A session that has yet to connect to `target`.
    pub fn new(target: ConnectionTarget) -> (s: Session)
        ensures
            s.spec_target() == target,
            s.spec_state() == SessionState::Connecting,
    {
        Session { target, state: SessionState::Connecting }
    }

    pub fn target(&self) -> (t: &ConnectionTarget)
        ensures
            *t == self.spec_target(),
    {
        &self.target
    }

    pub fn state(&self) -> (s: &SessionState)
        ensures
            *s == self.spec_state(),
    {
        &self.state
    }

    /// The first thing to do: open the connection.
    pub fn start(&self) -> (action: Action)
        ensures
            action == Action::Connect,
    {
        Action::Connect
    }

    /// Whether the session is over.
    pub fn is_closed(&self) -> (b: bool)
        ensures
            b == (self.spec_state() is Closed),
    {
        match self.state {
            SessionState::Closed(_) => true,
            _ => false,
        }
    }

    /// How the session ended, once it is over.
    pub fn outcome(&self) -> (o: Option<&SessionOutcome>)
        ensures
            match o {
                Some(outcome) => self.spec_state() == SessionState::Closed(*outcome),
                None => !(self.spec_state() is Closed),
            },
    {
        match &self.state {
            SessionState::Closed(outcome) => Some(outcome),
            _ => None,
        }
    }

    fn fail(&mut self, error: StockfighterError) -> (action: Action)
        ensures
            final(self).target == old(self).target,
            final(self).state == failed(error),
            action == Action::Stop,
    {
        self.state = SessionState::Closed(SessionOutcome::Error(error));
        Action::Stop
    }

    fn step_open(&mut self, event: Event) -> (action: Action)
        requires
            old(self).state == SessionState::Open,
        ensures
            final(self).target == old(self).target,
            (final(self).state, action) == spec_step_open(event),
    {
        match event {
            Event::Received(Frame::Text(payload)) => match decode(payload.as_str()) {
                Ok(quote) => Action::Deliver(quote),
                Err(e) => self.fail(StockfighterError::JsonDecoder(e)),
            },
            Event::Received(Frame::Close(_)) => {
                self.state = SessionState::Closing;
                Action::SendClose
            },
            Event::Received(Frame::Ping(payload)) => Action::SendPong(payload),
            Event::Received(Frame::Pong(_)) => Action::Receive,
            Event::Received(Frame::Binary(_)) => Action::Receive,
            Event::ReadFailed(text) => self.fail(StockfighterError::Io(text)),
            Event::SendFailed(text) => self.fail(StockfighterError::Io(text)),
            Event::CallbackFailed(text) => self.fail(StockfighterError::Callback(text)),
            Event::Delivered => Action::Receive,
            Event::Sent => Action::Receive,
            Event::Opened => Action::Receive,
            Event::Refused(_) => Action::Receive,
        }
    }

    /// Takes the next event and says what the loop is to do.
    pub fn step(&mut self, event: Event) -> (action: Action)
        ensures
            final(self).spec_target() == old(self).spec_target(),
            (final(self).spec_state(), action) == spec_step(old(self).spec_state(), event),
    {
        match self.state {
            SessionState::Connecting => match event {
                Event::Opened => {
                    self.state = SessionState::Open;
                    Action::Receive
                },
                Event::Refused(text) => self.fail(StockfighterError::Connect(text)),
                _ => Action::Connect,
            },
            SessionState::Open => self.step_open(event),
            SessionState::Closing => {
                self.state = SessionState::Closed(SessionOutcome::Normal);
                Action::Stop
            },
            SessionState::Closed(_) => Action::Stop,
        }
    }

    /// Takes a run of events in the order given, and returns what the loop
    /// is to do on each.
    pub fn replay(&mut self, events: Vec<Event>) -> (actions: Vec<Action>)
        ensures
            final(self).spec_target() == old(self).spec_target(),
            final(self).spec_state() == state_after(
                old(self).spec_state(),
                events@,
                events@.len() as int,
            ),
            actions@.len() == events@.len(),
            forall|i: int|
                0 <= i < events@.len() ==> actions@[i] == action_at(
                    old(self).spec_state(),
                    events@,
                    i,
                ),
    {
        let ghost start = self.spec_state();
        let ghost target = self.spec_target();
        let ghost all = events@;
        let mut actions: Vec<Action> = Vec::new();
        for event in it: events
            invariant
                it.seq() == all,
                self.spec_target() == target,
                actions@.len() == it.index(),
                self.spec_state() == state_after(start, all, it.index() as int),
                forall|i: int| 0 <= i < it.index() ==> actions@[i] == action_at(start, all, i),
        {
            let action = self.step(event);
            actions.push(action);
        }
        actions
    }

    /// Whether frames are being received.
    pub fn is_open(&self) -> (b: bool)
        ensures
            b == (self.spec_state() == SessionState::Open),
    {
        match self.state {
            SessionState::Open => true,
            _ => false,
        }
    }

    /// Runs the loop over a recorded feed and returns what was delivered and
    /// what was to be written. Frames that follow the end of the session are
    /// not looked at.
    pub fn run_recorded(&mut self, feed: Vec<Arrival>) -> (record: Record)
        ensures
            final(self).spec_target() == old(self).spec_target(),
            final(self).spec_state() == spec_run(old(self).spec_state(), feed@).state,
            record.delivered@ == spec_run(old(self).spec_state(), feed@).delivered,
            record.written@ == spec_run(old(self).spec_state(), feed@).written,
    {
        let ghost start = self.spec_state();
        let ghost target = self.spec_target();
        let ghost all = feed@;
        let mut delivered: Vec<Quote> = Vec::new();
        let mut written: Vec<Frame> = Vec::new();
        assert(all.subrange(0, all.len() as int) =~= all);
        for arrival in it: feed
            invariant
                it.seq() == all,
                self.spec_target() == target,
                spec_run(start, all).state == spec_run(
                    self.spec_state(),
                    all.subrange(it.index() as int, all.len() as int),
                ).state,
                spec_run(start, all).delivered == delivered@ + spec_run(
                    self.spec_state(),
                    all.subrange(it.index() as int, all.len() as int),
                ).delivered,
                spec_run(start, all).written == written@ + spec_run(
                    self.spec_state(),
                    all.subrange(it.index() as int, all.len() as int),
                ).written,
        {
            let ghost before = self.spec_state();
            let ghost left = all.subrange(it.index() as int, all.len() as int);
            let ghost later = all.subrange(it.index() as int + 1, all.len() as int);
            let ghost had = delivered@;
            let ghost sent = written@;
            assert(left.drop_first() =~= later);
            assert(left[0] == arrival);
            if self.is_open() {
                let action = self.step(Event::Received(arrival.frame));
                match action {
                    Action::Deliver(quote) => {
                        delivered.push(quote);
                        match arrival.fault {
                            None => self.step(Event::Delivered),
                            Some(text) => self.step(Event::CallbackFailed(text)),
                        };
                    },
                    Action::SendPong(payload) => {
                        written.push(Frame::Pong(payload));
                        match arrival.fault {
                            None => self.step(Event::Sent),
                            Some(text) => self.step(Event::SendFailed(text)),
                        };
                    },
                    Action::SendClose => {
                        written.push(Frame::Close(None));
                        match arrival.fault {
                            None => self.step(Event::Sent),
                            Some(text) => self.step(Event::SendFailed(text)),
                        };
                    },
                    _ => {},
                }
                assert(self.spec_state() == state_past(before, arrival));
                assert(delivered@ =~= had + handed(action));
                assert(written@ =~= sent + wrote(action));
                assert(delivered@ + spec_run(self.spec_state(), later).delivered =~= had
                    + spec_run(before, left).delivered);
                assert(written@ + spec_run(self.spec_state(), later).written =~= sent + spec_run(
                    before,
                    left,
                ).written);
            }
        }
        assert(delivered@ + Seq::<Quote>::empty() =~= delivered@);
        assert(written@ + Seq::<Frame>::empty() =~= written@);
        Record { delivered, written }
    }
}

} // verus!
