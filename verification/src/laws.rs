//! What holds of every payload and of every run of a feed session.

use crate::codec::{
    spec_heartbeat, spec_order_status, spec_orderbook_list, spec_quote, spec_stock_list,
    spec_stock_orders_statuses, spec_venue_heartbeat,
};
use crate::error::{ErrorView, StockfighterError};
use crate::gateway::{
    spec_accept_heartbeat, spec_accept_order_status, spec_accept_orderbook_list, spec_accept_quote,
    spec_accept_stock_list, spec_accept_stock_orders_statuses, spec_accept_venue_heartbeat,
    spec_cancel_an_order_reply, spec_existing_order_status_reply, spec_heartbeat_reply,
    spec_new_order_reply, spec_orderbook_for_stock_reply, spec_quote_reply,
    spec_status_for_all_orders_on_a_stock_reply, spec_status_for_all_orders_reply,
    spec_stocks_on_a_venue_reply, spec_venue_heartbeat_reply, Reply,
};
use crate::json::{
    spec_as_usize, spec_bool_field, spec_member, spec_opt_text_field, spec_opt_usize_field,
    spec_parse, spec_text_field, DecodeError, JsonValue,
};
use crate::model::{
    OrderStatusView, OrderbookListView, Quote, StockListView, StockOrdersStatusesView,
};
use crate::session::{
    action_at, failed, handed, spec_decode, spec_run, spec_step, state_after, state_past, wrote,
    Action, Arrival, Event, Frame, SessionOutcome, SessionState,
};
use vstd::prelude::*;

verus! {

/// Every member of a quote but `last` can be read: `ok`, `symbol` and `venue`
/// are there and of their kinds, and each member that may be left out is
/// absent, `null` or of its kind.
pub open spec fn quote_members_readable(json: JsonValue) -> bool {
    &&& spec_bool_field(json, "ok"@) is Ok
    &&& spec_text_field(json, "symbol"@) is Ok
    &&& spec_text_field(json, "venue"@) is Ok
    &&& spec_opt_usize_field(json, "bid"@) is Ok
    &&& spec_opt_usize_field(json, "ask"@) is Ok
    &&& spec_opt_usize_field(json, "bidSize"@) is Ok
    &&& spec_opt_usize_field(json, "askSize"@) is Ok
    &&& spec_opt_usize_field(json, "bidDepth"@) is Ok
    &&& spec_opt_usize_field(json, "askDepth"@) is Ok
    &&& spec_opt_usize_field(json, "lastSize"@) is Ok
    &&& spec_opt_text_field(json, "lastTrade"@) is Ok
    &&& spec_opt_text_field(json, "quoteTime"@) is Ok
}

/// A member that is absent or `null`.
pub open spec fn not_present(json: JsonValue, key: Seq<char>) -> bool {
    spec_member(json, key) == Ok::<Option<JsonValue>, DecodeError>(None) || spec_member(json, key)
        == Ok::<_, DecodeError>(Some(JsonValue::Null))
}

/// A payload that is JSON of the quote's shape and holds a whole number as
/// `last` decodes, and the quote's `last` is that number.
pub proof fn law_decode_keeps_last(payload: Seq<char>, json: JsonValue, last: JsonValue, n: usize)
    requires
        spec_parse(payload) == Ok::<_, DecodeError>(json),
        quote_members_readable(json),
        spec_member(json, "last"@) == Ok::<_, DecodeError>(Some(last)),
        spec_as_usize(last) == Ok::<_, DecodeError>(n),
    ensures
        spec_decode(payload) is Ok,
        spec_decode(payload)->Ok_0.last == n,
{
}

/// In a decoded quote, a member that may be left out and is absent or `null`
/// in the payload is `None`.
pub proof fn law_absent_members_are_none(payload: Seq<char>, json: JsonValue)
    requires
        spec_parse(payload) == Ok::<_, DecodeError>(json),
        spec_decode(payload) is Ok,
    ensures
        ({
            let quote = spec_decode(payload)->Ok_0;
            &&& not_present(json, "bid"@) ==> quote.bid is None
            &&& not_present(json, "ask"@) ==> quote.ask is None
            &&& not_present(json, "bidSize"@) ==> quote.bid_size is None
            &&& not_present(json, "askSize"@) ==> quote.ask_size is None
            &&& not_present(json, "bidDepth"@) ==> quote.bid_depth is None
            &&& not_present(json, "askDepth"@) ==> quote.ask_depth is None
            &&& not_present(json, "lastSize"@) ==> quote.last_size is None
            &&& not_present(json, "lastTrade"@) ==> quote.last_trade is None
            &&& not_present(json, "quoteTime"@) ==> quote.quote_time is None
        }),
{
}

/// A payload that cannot be read as JSON, or whose JSON holds no `last`,
/// does not decode; one that cannot be read fails with the error of the
/// reading.
pub proof fn law_decode_refuses(payload: Seq<char>)
    requires
        spec_parse(payload) is Err || spec_member(spec_parse(payload)->Ok_0, "last"@) == Ok::<
            Option<JsonValue>,
            DecodeError,
        >(None),
    ensures
        spec_decode(payload) is Err,
        spec_parse(payload) is Err ==> spec_decode(payload) == Err::<Quote, DecodeError>(
            spec_parse(payload)->Err_0,
        ),
{
}

/// A text frame that does not decode closes an open session with the decode
/// error, and the loop is told to stop: nothing is handed to the handler.
pub proof fn law_undecodable_frame_is_fatal(payload: String)
    requires
        spec_decode(payload@) is Err,
    ensures
        spec_step(SessionState::Open, Event::Received(Frame::Text(payload))) == (
            failed(StockfighterError::JsonDecoder(spec_decode(payload@)->Err_0)),
            Action::Stop,
        ),
{
}

/// A text frame that decodes leaves the session open and hands that quote,
/// and no other, to the handler.
pub proof fn law_decoded_frame_is_delivered(payload: String)
    requires
        spec_decode(payload@) is Ok,
    ensures
        spec_step(SessionState::Open, Event::Received(Frame::Text(payload))) == (
            SessionState::Open,
            Action::Deliver(spec_decode(payload@)->Ok_0),
        ),
{
}

/// A close frame makes an open session acknowledge it, and whatever is
/// reported next, a failed acknowledgement included, ends the session
/// normally.
pub proof fn law_close_ends_normally(payload: Option<Vec<u8>>, next: Event)
    ensures
        spec_step(SessionState::Open, Event::Received(Frame::Close(payload))) == (
            SessionState::Closing,
            Action::SendClose,
        ),
        spec_step(SessionState::Closing, next) == (
            SessionState::Closed(SessionOutcome::Normal),
            Action::Stop,
        ),
{
}

/// A ping makes an open session send one pong with the same payload; once
/// that is written the loop goes on to the next frame, and if it cannot be
/// written the session fails.
pub proof fn law_ping_is_answered(payload: Option<Vec<u8>>, text: String)
    ensures
        spec_step(SessionState::Open, Event::Received(Frame::Ping(payload))) == (
            SessionState::Open,
            Action::SendPong(payload),
        ),
        spec_step(SessionState::Open, Event::Sent) == (SessionState::Open, Action::Receive),
        spec_step(SessionState::Open, Event::SendFailed(text)) == (
            failed(StockfighterError::Io(text)),
            Action::Stop,
        ),
{
}

/// A quote reply with status 200 whose body reads as JSON of the quote's
/// shape, with `ok` true and a whole number as `last`, is accepted with that
/// `last`, and each member that may be left out and is absent or `null` in the
/// body is `None`.
pub proof fn law_quote_reply_keeps_last(reply: Reply, json: JsonValue, last: JsonValue, n: usize)
    requires
        reply.status == 200,
        spec_parse(reply.body@) == Ok::<_, DecodeError>(json),
        quote_members_readable(json),
        spec_bool_field(json, "ok"@) == Ok::<_, DecodeError>(true),
        spec_member(json, "last"@) == Ok::<_, DecodeError>(Some(last)),
        spec_as_usize(last) == Ok::<_, DecodeError>(n),
    ensures
        spec_quote_reply(reply) is Ok,
        ({
            let quote = spec_quote_reply(reply)->Ok_0;
            &&& quote.last == n
            &&& not_present(json, "bid"@) ==> quote.bid is None
            &&& not_present(json, "ask"@) ==> quote.ask is None
            &&& not_present(json, "bidSize"@) ==> quote.bid_size is None
            &&& not_present(json, "askSize"@) ==> quote.ask_size is None
            &&& not_present(json, "bidDepth"@) ==> quote.bid_depth is None
            &&& not_present(json, "askDepth"@) ==> quote.ask_depth is None
            &&& not_present(json, "lastSize"@) ==> quote.last_size is None
            &&& not_present(json, "lastTrade"@) ==> quote.last_trade is None
            &&& not_present(json, "quoteTime"@) ==> quote.quote_time is None
        }),
{
}

/// A reply that decodes and whose `ok` is false is an `ApiError`, whatever
/// its shape: the two heartbeats are no exception.
pub proof fn law_false_flag_is_api_error(json: JsonValue)
    ensures
        spec_heartbeat(json) is Ok && !spec_heartbeat(json)->Ok_0.ok ==> spec_accept_heartbeat(
            json,
        ) == Err::<(), _>(ErrorView::ApiError),
        spec_venue_heartbeat(json) is Ok && !spec_venue_heartbeat(json)->Ok_0.ok
            ==> spec_accept_venue_heartbeat(json) == Err::<(), _>(ErrorView::ApiError),
        spec_quote(json) is Ok && !spec_quote(json)->Ok_0.ok ==> spec_accept_quote(json) == Err::<
            Quote,
            _,
        >(ErrorView::ApiError),
        spec_stock_list(json) is Ok && !spec_stock_list(json)->Ok_0.ok ==> spec_accept_stock_list(
            json,
        ) == Err::<StockListView, _>(ErrorView::ApiError),
        spec_orderbook_list(json) is Ok && !spec_orderbook_list(json)->Ok_0.ok
            ==> spec_accept_orderbook_list(json) == Err::<OrderbookListView, _>(
            ErrorView::ApiError,
        ),
        spec_order_status(json) is Ok && !spec_order_status(json)->Ok_0.ok
            ==> spec_accept_order_status(json) == Err::<OrderStatusView, _>(ErrorView::ApiError),
        spec_stock_orders_statuses(json) is Ok && !spec_stock_orders_statuses(json)->Ok_0.ok
            ==> spec_accept_stock_orders_statuses(json) == Err::<StockOrdersStatusesView, _>(
            ErrorView::ApiError,
        ),
{
}

/// Nothing is sent or delivered unasked: a pong answers a ping of an open
/// session and carries its payload, the acknowledgement of a close answers a
/// close frame, and a quote is delivered for a text frame that decodes to it.
pub proof fn law_replies_answer_frames(state: SessionState, event: Event)
    ensures
        spec_step(state, event).1 matches Action::SendPong(payload) ==> state
            == SessionState::Open && event == Event::Received(Frame::Ping(payload)),
        spec_step(state, event).1 == Action::SendClose ==> state == SessionState::Open && (
        event matches Event::Received(Frame::Close(_))),
        spec_step(state, event).1 matches Action::Deliver(quote) ==> state == SessionState::Open
            && (event matches Event::Received(Frame::Text(payload)) && spec_decode(payload@)
            == Ok::<Quote, DecodeError>(quote)),
{
}

/// A failed read closes an open session with that error.
pub proof fn law_read_failure_is_fatal(text: String)
    ensures
        spec_step(SessionState::Open, Event::ReadFailed(text)) == (
            failed(StockfighterError::Io(text)),
            Action::Stop,
        ),
{
}

/// An open session whose connection is closed from outside is told of a
/// failed read or of a close frame. Either way it is over after at most one
/// more event, normally or with the error of the read.
pub proof fn law_interrupted_session_ends(text: String, payload: Option<Vec<u8>>, next: Event)
    ensures
        spec_step(spec_step(SessionState::Open, Event::ReadFailed(text)).0, next).0 == failed(
            StockfighterError::Io(text),
        ),
        spec_step(spec_step(SessionState::Open, Event::Received(Frame::Close(payload))).0, next).0
            == SessionState::Closed(SessionOutcome::Normal),
{
}

/// The peer has closed, or the session is over.
pub open spec fn winding_down(state: SessionState) -> bool {
    state is Closing || state is Closed
}

proof fn lemma_winding_down_stays(start: SessionState, events: Seq<Event>, i: int, j: int)
    requires
        0 <= i <= j,
        winding_down(state_after(start, events, i)),
    ensures
        winding_down(state_after(start, events, j)),
        i < j ==> state_after(start, events, j) is Closed,
    decreases j,
{
    if i < j {
        lemma_winding_down_stays(start, events, i, j - 1);
    }
}

/// A session closes once: after it has closed, no event changes its state
/// or its outcome.
pub proof fn law_outcome_is_final(start: SessionState, events: Seq<Event>, i: int, j: int)
    requires
        0 <= i <= j <= events.len(),
        state_after(start, events, i) is Closed,
    ensures
        state_after(start, events, j) == state_after(start, events, i),
    decreases j,
{
    if i < j {
        law_outcome_is_final(start, events, i, j - 1);
    }
}

/// Once the peer has closed or the session is over, every later event is
/// answered with `Stop`: no frame is decoded, nothing is delivered or sent.
pub proof fn law_nothing_after_close(start: SessionState, events: Seq<Event>, i: int, j: int)
    requires
        0 <= i <= j < events.len(),
        winding_down(state_after(start, events, i)),
    ensures
        action_at(start, events, j) == Action::Stop,
{
    lemma_winding_down_stays(start, events, i, j);
}

/// In one run at most one acknowledgement of a close is asked for: after the
/// first, every event is answered with `Stop`.
pub proof fn law_one_close_acknowledgement(
    start: SessionState,
    events: Seq<Event>,
    i: int,
    j: int,
)
    requires
        0 <= i < j < events.len(),
        action_at(start, events, i) == Action::SendClose,
    ensures
        action_at(start, events, j) == Action::Stop,
        state_after(start, events, j + 1) == SessionState::Closed(SessionOutcome::Normal),
{
    assert(state_after(start, events, i + 1) is Closing);
    lemma_winding_down_stays(start, events, i + 1, j);
    if i + 1 < j {
        lemma_normal_end(start, events, i + 1, j);
    }
}

proof fn lemma_normal_end(start: SessionState, events: Seq<Event>, i: int, j: int)
    requires
        0 <= i < j,
        state_after(start, events, i) is Closing,
    ensures
        state_after(start, events, j) == SessionState::Closed(SessionOutcome::Normal),
    decreases j,
{
    if i + 1 < j {
        lemma_normal_end(start, events, i, j - 1);
    }
}

proof fn lemma_same_prefix_same_state(
    start: SessionState,
    a: Seq<Event>,
    b: Seq<Event>,
    n: int,
)
    requires
        0 <= n <= a.len(),
        n <= b.len(),
        forall|k: int| 0 <= k < n ==> a[k] == b[k],
    ensures
        state_after(start, a, n) == state_after(start, b, n),
    decreases n,
{
    if 0 < n {
        lemma_same_prefix_same_state(start, a, b, n - 1);
    }
}

/// Events are answered one by one in the order in which they are reported:
/// what the loop is told on an event, and the state it leaves, depend on that
/// event and the ones before it alone.
pub proof fn law_events_are_answered_in_order(
    start: SessionState,
    a: Seq<Event>,
    b: Seq<Event>,
    i: int,
)
    requires
        0 <= i < a.len(),
        i < b.len(),
        forall|k: int| 0 <= k <= i ==> a[k] == b[k],
    ensures
        action_at(start, a, i) == action_at(start, b, i),
        state_after(start, a, i + 1) == state_after(start, b, i + 1),
{
    lemma_same_prefix_same_state(start, a, b, i);
}

/// A reply whose status is not 200 is refused whatever its body holds. The
/// heartbeat of the exchange reports `ApiDown`; the heartbeat of a venue, its
/// list of stocks and the listings of an account's orders report `VenueDown`
/// with the venue that was asked for; every other operation reports
/// `ApiError`.
pub proof fn law_status_decides_refusal(reply: Reply, venue: Seq<char>)
    requires
        reply.status != 200,
    ensures
        spec_heartbeat_reply(reply) == Err::<(), _>(ErrorView::ApiDown),
        spec_venue_heartbeat_reply(reply, venue) == Err::<(), _>(ErrorView::VenueDown(venue)),
        spec_stocks_on_a_venue_reply(reply, venue) == Err::<StockListView, _>(
            ErrorView::VenueDown(venue),
        ),
        spec_status_for_all_orders_reply(reply, venue) == Err::<StockOrdersStatusesView, _>(
            ErrorView::VenueDown(venue),
        ),
        spec_status_for_all_orders_on_a_stock_reply(reply, venue) == Err::<
            StockOrdersStatusesView,
            _,
        >(ErrorView::VenueDown(venue)),
        spec_quote_reply(reply) == Err::<Quote, _>(ErrorView::ApiError),
        spec_orderbook_for_stock_reply(reply) == Err::<OrderbookListView, _>(ErrorView::ApiError),
        spec_new_order_reply(reply) == Err::<OrderStatusView, _>(ErrorView::ApiError),
        spec_existing_order_status_reply(reply) == Err::<OrderStatusView, _>(ErrorView::ApiError),
        spec_cancel_an_order_reply(reply) == Err::<OrderStatusView, _>(ErrorView::ApiError),
{
}

/// A loop that is still open after some frames goes on with the frames that
/// follow as a loop of its own: what it delivers and writes is what it did
/// before and then what it does after, and it ends as the second part ends.
pub proof fn lemma_run_goes_on(state: SessionState, first: Seq<Arrival>, then: Seq<Arrival>)
    requires
        spec_run(state, first).state == SessionState::Open,
    ensures
        spec_run(state, first + then).state == spec_run(SessionState::Open, then).state,
        spec_run(state, first + then).delivered == spec_run(state, first).delivered + spec_run(
            SessionState::Open,
            then,
        ).delivered,
        spec_run(state, first + then).written == spec_run(state, first).written + spec_run(
            SessionState::Open,
            then,
        ).written,
    decreases first.len(),
{
    let after = spec_run(SessionState::Open, then);
    if first.len() == 0 {
        assert(first + then =~= then);
        assert(Seq::<Quote>::empty() + after.delivered =~= after.delivered);
        assert(Seq::<Frame>::empty() + after.written =~= after.written);
    } else {
        let next = state_past(state, first[0]);
        let action = spec_step(state, Event::Received(first[0].frame)).1;
        lemma_run_goes_on(next, first.drop_first(), then);
        assert((first + then).drop_first() =~= first.drop_first() + then);
        assert((first + then)[0] == first[0]);
        let tail = spec_run(next, first.drop_first());
        assert(handed(action) + (tail.delivered + after.delivered) =~= handed(action)
            + tail.delivered + after.delivered);
        assert(wrote(action) + (tail.written + after.written) =~= wrote(action) + tail.written
            + after.written);
    }
}

/// A loop that starts on a session that is not open does nothing.
pub proof fn lemma_closed_run_stays(state: SessionState, feed: Seq<Arrival>)
    requires
        state != SessionState::Open,
    ensures
        spec_run(state, feed).state == state,
        spec_run(state, feed).delivered == Seq::<Quote>::empty(),
        spec_run(state, feed).written == Seq::<Frame>::empty(),
{
}

/// A loop that is still open has tried to write no close frame.
pub proof fn lemma_open_run_wrote_no_close(state: SessionState, feed: Seq<Arrival>, i: int)
    requires
        spec_run(state, feed).state == SessionState::Open,
        0 <= i < spec_run(state, feed).written.len(),
    ensures
        !(spec_run(state, feed).written[i] is Close),
    decreases feed.len(),
{
    if feed.len() > 0 && state == SessionState::Open {
        let next = state_past(state, feed[0]);
        let action = spec_step(state, Event::Received(feed[0].frame)).1;
        let first = wrote(action);
        if i >= first.len() {
            lemma_open_run_wrote_no_close(next, feed.drop_first(), i - first.len());
        } else if action == Action::SendClose {
            lemma_closed_run_stays(next, feed.drop_first());
        }
    }
}

/// What one arrival comes to in a loop that has been open up to it: the loop
/// over the frames before it, then this one step, then nothing more if the
/// session is no longer open.
proof fn lemma_run_ends_here(before: Seq<Arrival>, arrival: Arrival, behind: Seq<Arrival>)
    requires
        spec_run(SessionState::Open, before).state == SessionState::Open,
        state_past(SessionState::Open, arrival) != SessionState::Open,
    ensures
        ({
            let run = spec_run(SessionState::Open, before + seq![arrival] + behind);
            let prior = spec_run(SessionState::Open, before);
            let action = spec_step(SessionState::Open, Event::Received(arrival.frame)).1;
            &&& run.state == state_past(SessionState::Open, arrival)
            &&& run.delivered == prior.delivered + handed(action)
            &&& run.written == prior.written + wrote(action)
        }),
{
    let then = seq![arrival] + behind;
    let action = spec_step(SessionState::Open, Event::Received(arrival.frame)).1;
    assert(before + seq![arrival] + behind =~= before + then);
    lemma_run_goes_on(SessionState::Open, before, then);
    assert(then[0] == arrival);
    lemma_closed_run_stays(state_past(SessionState::Open, arrival), then.drop_first());
    assert(spec_run(SessionState::Open, then).delivered =~= handed(action));
    assert(spec_run(SessionState::Open, then).written =~= wrote(action));
}

/// The same where the session is still open behind the arrival: the loop
/// goes on with the frames behind it.
proof fn lemma_run_passes_here(before: Seq<Arrival>, arrival: Arrival, behind: Seq<Arrival>)
    requires
        spec_run(SessionState::Open, before).state == SessionState::Open,
        state_past(SessionState::Open, arrival) == SessionState::Open,
    ensures
        ({
            let run = spec_run(SessionState::Open, before + seq![arrival] + behind);
            let prior = spec_run(SessionState::Open, before);
            let rest = spec_run(SessionState::Open, behind);
            let action = spec_step(SessionState::Open, Event::Received(arrival.frame)).1;
            &&& run.state == rest.state
            &&& run.delivered == prior.delivered + handed(action) + rest.delivered
            &&& run.written == prior.written + wrote(action) + rest.written
        }),
{
    let then = seq![arrival] + behind;
    let prior = spec_run(SessionState::Open, before);
    let rest = spec_run(SessionState::Open, behind);
    let action = spec_step(SessionState::Open, Event::Received(arrival.frame)).1;
    assert(before + seq![arrival] + behind =~= before + then);
    lemma_run_goes_on(SessionState::Open, before, then);
    assert(then[0] == arrival);
    assert(then.drop_first() =~= behind);
    assert(prior.delivered + (handed(action) + rest.delivered) =~= prior.delivered + handed(
        action,
    ) + rest.delivered);
    assert(prior.written + (wrote(action) + rest.written) =~= prior.written + wrote(action)
        + rest.written);
}

/// In a loop over a feed, a text frame that does not decode ends the session
/// with the decode error. The quotes delivered and the frames written are
/// those of the frames before it: nothing is delivered for that frame or for
/// any frame behind it.
pub proof fn law_run_stops_at_undecodable_frame(
    before: Seq<Arrival>,
    arrival: Arrival,
    payload: String,
    behind: Seq<Arrival>,
)
    requires
        spec_run(SessionState::Open, before).state == SessionState::Open,
        arrival.frame == Frame::Text(payload),
        spec_decode(payload@) is Err,
    ensures
        ({
            let run = spec_run(SessionState::Open, before + seq![arrival] + behind);
            &&& run.state == failed(StockfighterError::JsonDecoder(spec_decode(payload@)->Err_0))
            &&& run.delivered == spec_run(SessionState::Open, before).delivered
            &&& run.written == spec_run(SessionState::Open, before).written
        }),
{
    let prior = spec_run(SessionState::Open, before);
    lemma_run_ends_here(before, arrival, behind);
    assert(prior.delivered + Seq::<Quote>::empty() =~= prior.delivered);
    assert(prior.written + Seq::<Frame>::empty() =~= prior.written);
}

/// In a loop over a feed, a close frame ends the session normally, whatever
/// its payload and whether or not the acknowledgement could be written. One
/// acknowledgement is tried, it is the only close frame and the last frame
/// that is written, nothing is delivered for the close, and no frame behind
/// it is looked at.
pub proof fn law_run_ends_at_close(
    before: Seq<Arrival>,
    arrival: Arrival,
    payload: Option<Vec<u8>>,
    behind: Seq<Arrival>,
)
    requires
        spec_run(SessionState::Open, before).state == SessionState::Open,
        arrival.frame == Frame::Close(payload),
    ensures
        ({
            let run = spec_run(SessionState::Open, before + seq![arrival] + behind);
            let prior = spec_run(SessionState::Open, before);
            &&& run.state == SessionState::Closed(SessionOutcome::Normal)
            &&& run.delivered == prior.delivered
            &&& run.written == prior.written + seq![Frame::Close(None)]
            &&& forall|i: int| 0 <= i < prior.written.len() ==> !(run.written[i] is Close)
        }),
{
    let prior = spec_run(SessionState::Open, before);
    lemma_run_ends_here(before, arrival, behind);
    assert(prior.delivered + Seq::<Quote>::empty() =~= prior.delivered);
    let run = spec_run(SessionState::Open, before + seq![arrival] + behind);
    assert forall|i: int| 0 <= i < prior.written.len() implies !(run.written[i] is Close) by {
        lemma_open_run_wrote_no_close(SessionState::Open, before, i);
    }
}

/// In a loop over a feed, a ping whose answer can be written is answered
/// with one pong of the same payload, before the next frame is taken.
/// Nothing is delivered for the ping, and the loop goes on with the frames
/// behind it.
pub proof fn law_run_answers_ping(
    before: Seq<Arrival>,
    arrival: Arrival,
    payload: Option<Vec<u8>>,
    behind: Seq<Arrival>,
)
    requires
        spec_run(SessionState::Open, before).state == SessionState::Open,
        arrival.frame == Frame::Ping(payload),
        arrival.fault is None,
    ensures
        ({
            let run = spec_run(SessionState::Open, before + seq![arrival] + behind);
            let prior = spec_run(SessionState::Open, before);
            let rest = spec_run(SessionState::Open, behind);
            &&& run.state == rest.state
            &&& run.delivered == prior.delivered + rest.delivered
            &&& run.written == prior.written + seq![Frame::Pong(payload)] + rest.written
        }),
{
    let prior = spec_run(SessionState::Open, before);
    lemma_run_passes_here(before, arrival, behind);
    assert(prior.delivered + Seq::<Quote>::empty() =~= prior.delivered);
}

/// In a loop over a feed, a pong that cannot be written ends the session
/// with the error of the write; the pong was tried once and nothing follows.
pub proof fn law_run_fails_on_unwritten_pong(
    before: Seq<Arrival>,
    arrival: Arrival,
    payload: Option<Vec<u8>>,
    text: String,
    behind: Seq<Arrival>,
)
    requires
        spec_run(SessionState::Open, before).state == SessionState::Open,
        arrival.frame == Frame::Ping(payload),
        arrival.fault == Some(text),
    ensures
        ({
            let run = spec_run(SessionState::Open, before + seq![arrival] + behind);
            let prior = spec_run(SessionState::Open, before);
            &&& run.state == failed(StockfighterError::Io(text))
            &&& run.delivered == prior.delivered
            &&& run.written == prior.written + seq![Frame::Pong(payload)]
        }),
{
    let prior = spec_run(SessionState::Open, before);
    lemma_run_ends_here(before, arrival, behind);
    assert(prior.delivered + Seq::<Quote>::empty() =~= prior.delivered);
}

/// In a loop over a feed, a text frame that decodes is handed to the handler
/// once, in its place among the others, and nothing is written for it. Where
/// the handler returns the loop goes on.
pub proof fn law_run_delivers_text(
    before: Seq<Arrival>,
    arrival: Arrival,
    payload: String,
    behind: Seq<Arrival>,
)
    requires
        spec_run(SessionState::Open, before).state == SessionState::Open,
        arrival.frame == Frame::Text(payload),
        arrival.fault is None,
        spec_decode(payload@) is Ok,
    ensures
        ({
            let run = spec_run(SessionState::Open, before + seq![arrival] + behind);
            let prior = spec_run(SessionState::Open, before);
            let rest = spec_run(SessionState::Open, behind);
            &&& run.state == rest.state
            &&& run.delivered == prior.delivered + seq![spec_decode(payload@)->Ok_0]
                + rest.delivered
            &&& run.written == prior.written + rest.written
        }),
{
    let prior = spec_run(SessionState::Open, before);
    lemma_run_passes_here(before, arrival, behind);
    assert(prior.written + Seq::<Frame>::empty() =~= prior.written);
}

/// In a loop over a feed, a handler that fails on a quote ends the session
/// with that failure: the quote was handed over once and nothing follows.
pub proof fn law_run_fails_on_handler_failure(
    before: Seq<Arrival>,
    arrival: Arrival,
    payload: String,
    text: String,
    behind: Seq<Arrival>,
)
    requires
        spec_run(SessionState::Open, before).state == SessionState::Open,
        arrival.frame == Frame::Text(payload),
        arrival.fault == Some(text),
        spec_decode(payload@) is Ok,
    ensures
        ({
            let run = spec_run(SessionState::Open, before + seq![arrival] + behind);
            let prior = spec_run(SessionState::Open, before);
            &&& run.state == failed(StockfighterError::Callback(text))
            &&& run.delivered == prior.delivered + seq![spec_decode(payload@)->Ok_0]
            &&& run.written == prior.written
        }),
{
    let prior = spec_run(SessionState::Open, before);
    lemma_run_ends_here(before, arrival, behind);
    assert(prior.written + Seq::<Frame>::empty() =~= prior.written);
}

} // verus!
