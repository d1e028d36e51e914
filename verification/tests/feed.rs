use stockfighter::session::{check_segment, decode};
use stockfighter::{
    Action, Arrival, ConnectionTarget, DecodeError, Event, Frame, Session, SessionOutcome, SessionState, Stockfighter,
    StockfighterError,
};

const TICK: &str = "{\"ok\":true,\"symbol\":\"FOOBAR\",\"venue\":\"TESTEX\",\"last\":5050}";

fn open_session() -> Session {
    let mut session = Session::new(ConnectionTarget::ticker_tape("ACC", "VEN", None).unwrap());
    assert_eq!(session.start(), Action::Connect);
    assert_eq!(session.step(Event::Opened), Action::Receive);
    assert_eq!(*session.state(), SessionState::Open);
    session
}

#[test]
fn test_ticker_tape_venue_with() {
    let sf = Stockfighter::new("");
    let mut session = sf.ticker_tape_venue_with("EXB123456", "TESTEX").unwrap();
    assert_eq!(
        session.target().url(),
        "wss://api.stockfighter.io/ob/api/ws/EXB123456/venues/TESTEX/tickertape"
    );
    assert_eq!(session.target().host(), "api.stockfighter.io");
    assert_eq!(*session.state(), SessionState::Connecting);
    assert_eq!(session.step(Event::Opened), Action::Receive);
    match session.step(Event::Received(Frame::Text(TICK.to_string()))) {
        Action::Deliver(quote) => println!("{:?}", quote),
        _ => panic!(),
    }
    assert_eq!(session.step(Event::Delivered), Action::Receive);
    assert_eq!(session.step(Event::Received(Frame::Close(None))), Action::SendClose);
    assert_eq!(session.step(Event::Sent), Action::Stop);
    assert_eq!(session.outcome(), Some(&SessionOutcome::Normal));
}

#[test]
fn test_ticker_tape_venue_stock_with() {
    let sf = Stockfighter::new("");
    let mut session = sf.ticker_tape_venue_stock_with("EXB123456", "TESTEX", "FOOBAR").unwrap();
    assert_eq!(
        session.target().url(),
        "wss://api.stockfighter.io/ob/api/ws/EXB123456/venues/TESTEX/tickertape/stocks/FOOBAR"
    );
    assert_eq!(session.step(Event::Opened), Action::Receive);
    match session.step(Event::Received(Frame::Text(TICK.to_string()))) {
        Action::Deliver(quote) => println!("{:?}", quote),
        _ => panic!(),
    }
    assert_eq!(session.step(Event::Delivered), Action::Receive);
    assert_eq!(session.step(Event::Received(Frame::Close(None))), Action::SendClose);
    assert_eq!(session.step(Event::Sent), Action::Stop);
    assert!(session.is_closed());
}

#[test]
fn text_frame_delivers_one_quote_with_optional_fields_absent() {
    let mut session = open_session();
    let action = session.step(Event::Received(Frame::Text(TICK.to_string())));
    let quote = match action {
        Action::Deliver(q) => q,
        other => panic!("{:?}", other),
    };
    assert_eq!(quote.last, 5050);
    assert!(quote.ok);
    assert_eq!(quote.symbol, "FOOBAR");
    assert_eq!(quote.venue, "TESTEX");
    assert_eq!(quote.bid, None);
    assert_eq!(quote.ask, None);
    assert_eq!(quote.bid_size, None);
    assert_eq!(quote.ask_size, None);
    assert_eq!(quote.bid_depth, None);
    assert_eq!(quote.ask_depth, None);
    assert_eq!(quote.last_size, None);
    assert_eq!(quote.last_trade, None);
    assert_eq!(quote.quote_time, None);
    assert_eq!(*session.state(), SessionState::Open);
    assert_eq!(session.step(Event::Delivered), Action::Receive);
}

#[test]
fn close_frame_without_payload_ends_normally_and_nothing_follows() {
    let mut session = open_session();
    assert_eq!(session.step(Event::Received(Frame::Close(None))), Action::SendClose);
    assert_eq!(*session.state(), SessionState::Closing);
    assert_eq!(session.step(Event::Sent), Action::Stop);
    assert_eq!(*session.state(), SessionState::Closed(SessionOutcome::Normal));
    assert_eq!(session.step(Event::Received(Frame::Text(TICK.to_string()))), Action::Stop);
    assert_eq!(session.step(Event::Received(Frame::Ping(None))), Action::Stop);
    assert_eq!(session.step(Event::ReadFailed("reset".to_string())), Action::Stop);
    assert_eq!(session.outcome(), Some(&SessionOutcome::Normal));
}

#[test]
fn frames_that_arrive_while_closing_are_not_decoded() {
    let mut session = open_session();
    assert_eq!(
        session.step(Event::Received(Frame::Close(Some(vec![3, 232])))),
        Action::SendClose
    );
    assert_eq!(session.step(Event::Received(Frame::Text(TICK.to_string()))), Action::Stop);
    assert_eq!(session.outcome(), Some(&SessionOutcome::Normal));
}

#[test]
fn failed_close_acknowledgement_is_not_an_error() {
    let mut session = open_session();
    assert_eq!(session.step(Event::Received(Frame::Close(None))), Action::SendClose);
    assert_eq!(session.step(Event::SendFailed("broken pipe".to_string())), Action::Stop);
    assert_eq!(session.outcome(), Some(&SessionOutcome::Normal));
}

#[test]
fn ping_is_answered_with_the_same_payload() {
    let mut session = open_session();
    let action = session.step(Event::Received(Frame::Ping(Some(vec![1, 2, 3]))));
    assert_eq!(action, Action::SendPong(Some(vec![1, 2, 3])));
    assert_eq!(*session.state(), SessionState::Open);
    assert_eq!(session.step(Event::Sent), Action::Receive);
    assert_eq!(session.step(Event::Received(Frame::Ping(None))), Action::SendPong(None));
    assert_eq!(session.step(Event::Sent), Action::Receive);
}

#[test]
fn failed_pong_is_fatal() {
    let mut session = open_session();
    session.step(Event::Received(Frame::Ping(Some(vec![9]))));
    assert_eq!(session.step(Event::SendFailed("broken pipe".to_string())), Action::Stop);
    assert_eq!(
        session.outcome(),
        Some(&SessionOutcome::Error(StockfighterError::Io("broken pipe".to_string())))
    );
}

#[test]
fn pong_and_binary_frames_are_ignored() {
    let mut session = open_session();
    assert_eq!(session.step(Event::Received(Frame::Pong(Some(vec![1])))), Action::Receive);
    assert_eq!(session.step(Event::Received(Frame::Binary(vec![0, 255]))), Action::Receive);
    assert_eq!(*session.state(), SessionState::Open);
}

#[test]
fn undecodable_frame_is_fatal_and_not_delivered() {
    let mut session = open_session();
    let missing = "{\"ok\":true,\"symbol\":\"FOOBAR\",\"venue\":\"TESTEX\"}";
    assert_eq!(session.step(Event::Received(Frame::Text(missing.to_string()))), Action::Stop);
    assert_eq!(
        *session.state(),
        SessionState::Closed(SessionOutcome::Error(StockfighterError::JsonDecoder(
            DecodeError::MissingField
        )))
    );
    let mut session = open_session();
    assert_eq!(session.step(Event::Received(Frame::Text("{\"ok\":".to_string()))), Action::Stop);
    assert_eq!(
        session.outcome(),
        Some(&SessionOutcome::Error(StockfighterError::JsonDecoder(DecodeError::Syntax)))
    );
}

#[test]
fn read_failure_is_fatal() {
    let mut session = open_session();
    assert_eq!(session.step(Event::ReadFailed("connection reset".to_string())), Action::Stop);
    assert_eq!(
        session.outcome(),
        Some(&SessionOutcome::Error(StockfighterError::Io("connection reset".to_string())))
    );
}

#[test]
fn callback_failure_is_the_terminal_error() {
    let mut session = open_session();
    session.step(Event::Received(Frame::Text(TICK.to_string())));
    assert_eq!(session.step(Event::CallbackFailed("handler panicked".to_string())), Action::Stop);
    assert_eq!(
        session.outcome(),
        Some(&SessionOutcome::Error(StockfighterError::Callback("handler panicked".to_string())))
    );
}

#[test]
fn refused_connection_is_a_connect_error() {
    let mut session = Session::new(ConnectionTarget::ticker_tape("ACC", "VEN", None).unwrap());
    assert_eq!(session.outcome(), None);
    assert_eq!(session.step(Event::Sent), Action::Connect);
    assert_eq!(*session.state(), SessionState::Connecting);
    assert_eq!(session.step(Event::Refused("403".to_string())), Action::Stop);
    assert_eq!(
        session.outcome(),
        Some(&SessionOutcome::Error(StockfighterError::Connect("403".to_string())))
    );
}

#[test]
fn the_first_fatal_error_stays() {
    let mut session = open_session();
    session.step(Event::ReadFailed("first".to_string()));
    session.step(Event::ReadFailed("second".to_string()));
    session.step(Event::Received(Frame::Close(None)));
    assert_eq!(
        session.outcome(),
        Some(&SessionOutcome::Error(StockfighterError::Io("first".to_string())))
    );
}

#[test]
fn quotes_are_delivered_in_arrival_order() {
    let mut session = open_session();
    let mut seen = Vec::new();
    for last in [1usize, 2, 3] {
        let text = format!("{{\"ok\":true,\"symbol\":\"S\",\"venue\":\"V\",\"last\":{}}}", last);
        match session.step(Event::Received(Frame::Text(text))) {
            Action::Deliver(q) => seen.push(q.last),
            _ => panic!(),
        }
        assert_eq!(session.step(Event::Delivered), Action::Receive);
    }
    assert_eq!(seen, vec![1, 2, 3]);
}

#[test]
fn decode_keeps_last() {
    assert_eq!(decode(TICK).unwrap().last, 5050);
    assert_eq!(decode("{\"last\":0,\"venue\":\"V\",\"symbol\":\"S\",\"ok\":false}").unwrap().last, 0);
    let q = decode("{\"ok\":true,\"symbol\":\"S\",\"venue\":\"V\",\"last\":7,\"bid\":null,\"extra\":[1,2]}").unwrap();
    assert_eq!(q.last, 7);
    assert_eq!(q.bid, None);
}

#[test]
fn decode_refuses_deep_payloads() {
    let deep = format!("{{\"ok\":true,\"x\":{}}}", "[".repeat(200));
    assert_eq!(decode(&deep), Err(DecodeError::OverLimit));
    let mut session = open_session();
    assert_eq!(session.step(Event::Received(Frame::Text(deep))), Action::Stop);
    assert_eq!(
        session.outcome(),
        Some(&SessionOutcome::Error(StockfighterError::JsonDecoder(DecodeError::OverLimit)))
    );
}

#[test]
fn a_frame_with_a_dangling_comma_ends_the_session_with_a_syntax_error() {
    let mut session = open_session();
    let text = "[{\"k\":{\"a\":1,},\"x\":2}]".to_string();
    assert_eq!(session.step(Event::Received(Frame::Text(text))), Action::Stop);
    assert_eq!(
        session.outcome(),
        Some(&SessionOutcome::Error(StockfighterError::JsonDecoder(DecodeError::Syntax)))
    );
}

#[test]
fn decode_errors() {
    assert_eq!(decode(""), Err(DecodeError::Syntax));
    assert_eq!(decode("{\"ok\":true,"), Err(DecodeError::Syntax));
    assert_eq!(decode("[1,2]"), Err(DecodeError::Expected));
    assert_eq!(decode("{\"symbol\":\"S\",\"venue\":\"V\",\"last\":7}"), Err(DecodeError::MissingField));
    assert_eq!(decode("{\"ok\":true,\"symbol\":\"S\",\"venue\":\"V\"}"), Err(DecodeError::MissingField));
    assert_eq!(
        decode("{\"ok\":true,\"symbol\":\"S\",\"venue\":\"V\",\"last\":null}"),
        Err(DecodeError::Expected)
    );
    assert_eq!(
        decode("{\"ok\":true,\"symbol\":\"S\",\"venue\":\"V\",\"last\":\"7\"}"),
        Err(DecodeError::Expected)
    );
    assert_eq!(
        decode("{\"ok\":true,\"symbol\":\"S\",\"venue\":\"V\",\"last\":7.5}"),
        Err(DecodeError::Expected)
    );
    assert_eq!(
        decode("{\"ok\":true,\"symbol\":\"S\",\"venue\":\"V\",\"last\":-1}"),
        Err(DecodeError::Expected)
    );
    assert_eq!(
        decode("{\"ok\":true,\"symbol\":\"S\",\"venue\":\"V\",\"last\":7,\"bid\":\"x\"}"),
        Err(DecodeError::Expected)
    );
    assert_eq!(
        decode("{\"ok\":1,\"symbol\":\"S\",\"venue\":\"V\",\"last\":7}"),
        Err(DecodeError::Expected)
    );
}

#[test]
fn connection_targets() {
    let all = ConnectionTarget::ticker_tape("ACC", "VEN", None).unwrap();
    assert_eq!(all.host(), "api.stockfighter.io");
    assert_eq!(all.path(), "/ob/api/ws/ACC/venues/VEN/tickertape");
    assert_eq!(all.url(), "wss://api.stockfighter.io/ob/api/ws/ACC/venues/VEN/tickertape");
    let one = ConnectionTarget::ticker_tape("ACC", "VEN", Some("SYM")).unwrap();
    assert_eq!(one.path(), "/ob/api/ws/ACC/venues/VEN/tickertape/stocks/SYM");
    let session = Session::new(one.clone());
    assert_eq!(*session.target(), one);
    assert!(!session.is_closed());
}

#[test]
fn segments() {
    assert!(check_segment("EXB123456"));
    assert!(check_segment("a-b.c_d~e"));
    assert!(check_segment("0"));
    assert!(check_segment("azAZ09"));
    assert!(!check_segment(""));
    assert!(!check_segment("a/b"));
    assert!(!check_segment("a b"));
    assert!(!check_segment("a?b"));
    assert!(!check_segment("caf\u{e9}"));
    assert!(!check_segment("`"));
    assert!(!check_segment("{"));
    assert!(!check_segment("@"));
    assert!(!check_segment("["));
    assert!(!check_segment(":"));
}

#[test]
fn a_target_needs_segments() {
    assert_eq!(ConnectionTarget::ticker_tape("", "VEN", None), None);
    assert_eq!(ConnectionTarget::ticker_tape("ACC", "V/N", None), None);
    assert_eq!(ConnectionTarget::ticker_tape("ACC", "VEN", Some("")), None);
    assert_eq!(ConnectionTarget::ticker_tape("ACC", "VEN", Some("S M")), None);
    let sf = Stockfighter::new("");
    assert_eq!(
        sf.ticker_tape_venue_with("ACC", "../x").err(),
        Some(StockfighterError::Connect("invalid feed address".to_string()))
    );
    assert_eq!(
        sf.ticker_tape_venue_stock_with("ACC", "VEN", "a#b").err(),
        Some(StockfighterError::Connect("invalid feed address".to_string()))
    );
}

#[test]
fn a_run_of_events() {
    let mut session = Session::new(ConnectionTarget::ticker_tape("ACC", "VEN", None).unwrap());
    let actions = session.replay(vec![
        Event::Opened,
        Event::Received(Frame::Ping(Some(vec![7]))),
        Event::Sent,
        Event::Received(Frame::Text(TICK.to_string())),
        Event::Delivered,
        Event::Received(Frame::Close(None)),
        Event::SendFailed("gone".to_string()),
        Event::Received(Frame::Text(TICK.to_string())),
    ]);
    assert_eq!(actions.len(), 8);
    assert_eq!(actions[0], Action::Receive);
    assert_eq!(actions[1], Action::SendPong(Some(vec![7])));
    assert_eq!(actions[2], Action::Receive);
    assert!(matches!(&actions[3], Action::Deliver(q) if q.last == 5050));
    assert_eq!(actions[4], Action::Receive);
    assert_eq!(actions[5], Action::SendClose);
    assert_eq!(actions[6], Action::Stop);
    assert_eq!(actions[7], Action::Stop);
    assert_eq!(actions.iter().filter(|a| **a == Action::SendClose).count(), 1);
    assert_eq!(actions.iter().filter(|a| matches!(a, Action::SendPong(_))).count(), 1);
    assert_eq!(session.outcome(), Some(&SessionOutcome::Normal));
    assert_eq!(session.replay(vec![]), vec![]);
    assert_eq!(session.outcome(), Some(&SessionOutcome::Normal));
}

fn arrived(frame: Frame) -> Arrival {
    Arrival { frame, fault: None }
}

fn failed(frame: Frame, text: &str) -> Arrival {
    Arrival { frame, fault: Some(text.to_string()) }
}

fn tick(last: usize) -> Frame {
    Frame::Text(format!("{{\"ok\":true,\"symbol\":\"S\",\"venue\":\"V\",\"last\":{}}}", last))
}

#[test]
fn a_recorded_ping_and_close() {
    let mut session = open_session();
    let record = session.run_recorded(vec![
        arrived(Frame::Ping(Some(b"abc".to_vec()))),
        arrived(Frame::Close(None)),
    ]);
    assert_eq!(record.written, vec![Frame::Pong(Some(b"abc".to_vec())), Frame::Close(None)]);
    assert_eq!(record.delivered, vec![]);
    assert_eq!(session.outcome(), Some(&SessionOutcome::Normal));
}

#[test]
fn nothing_is_delivered_behind_a_recorded_close() {
    let mut session = open_session();
    let record = session.run_recorded(vec![
        arrived(Frame::Close(None)),
        arrived(Frame::Text(TICK.to_string())),
        arrived(Frame::Ping(None)),
    ]);
    assert_eq!(record.delivered.len(), 0);
    assert_eq!(record.written, vec![Frame::Close(None)]);
    assert_eq!(session.outcome(), Some(&SessionOutcome::Normal));
}

#[test]
fn a_recorded_close_with_a_payload_is_acknowledged_without_one() {
    let mut session = open_session();
    let record = session.run_recorded(vec![
        arrived(tick(1)),
        failed(Frame::Close(Some(vec![3, 232])), "broken pipe"),
        arrived(tick(2)),
    ]);
    assert_eq!(record.delivered.iter().map(|q| q.last).collect::<Vec<_>>(), vec![1]);
    assert_eq!(record.written, vec![Frame::Close(None)]);
    assert_eq!(session.outcome(), Some(&SessionOutcome::Normal));
}

#[test]
fn a_recorded_feed_stops_at_the_frame_that_does_not_decode() {
    let mut session = open_session();
    let record = session.run_recorded(vec![
        arrived(tick(1)),
        arrived(Frame::Ping(None)),
        arrived(Frame::Binary(vec![1])),
        arrived(tick(2)),
        arrived(Frame::Text("{\"ok\":true,\"symbol\":\"S\",\"venue\":\"V\"}".to_string())),
        arrived(tick(3)),
        arrived(Frame::Close(None)),
    ]);
    assert_eq!(record.delivered.iter().map(|q| q.last).collect::<Vec<_>>(), vec![1, 2]);
    assert_eq!(record.written, vec![Frame::Pong(None)]);
    assert_eq!(
        session.outcome(),
        Some(&SessionOutcome::Error(StockfighterError::JsonDecoder(DecodeError::MissingField)))
    );
}

#[test]
fn a_recorded_feed_stops_at_a_pong_that_cannot_be_written() {
    let mut session = open_session();
    let record = session.run_recorded(vec![
        failed(Frame::Ping(Some(vec![1])), "broken pipe"),
        arrived(tick(1)),
    ]);
    assert_eq!(record.written, vec![Frame::Pong(Some(vec![1]))]);
    assert_eq!(record.delivered.len(), 0);
    assert_eq!(
        session.outcome(),
        Some(&SessionOutcome::Error(StockfighterError::Io("broken pipe".to_string())))
    );
}

#[test]
fn a_recorded_feed_stops_at_a_handler_that_fails() {
    let mut session = open_session();
    let record = session.run_recorded(vec![
        arrived(tick(1)),
        failed(tick(2), "boom"),
        arrived(tick(3)),
    ]);
    assert_eq!(record.delivered.iter().map(|q| q.last).collect::<Vec<_>>(), vec![1, 2]);
    assert_eq!(
        session.outcome(),
        Some(&SessionOutcome::Error(StockfighterError::Callback("boom".to_string())))
    );
}

#[test]
fn a_recorded_feed_that_runs_out_leaves_the_session_open() {
    let mut session = open_session();
    let record = session.run_recorded(vec![arrived(tick(9)), arrived(Frame::Pong(None))]);
    assert_eq!(record.delivered.len(), 1);
    assert!(session.is_open());
    assert_eq!(session.outcome(), None);
    let none = session.run_recorded(vec![]);
    assert_eq!((none.delivered.len(), none.written.len()), (0, 0));
    let mut fresh = Session::new(ConnectionTarget::ticker_tape("ACC", "VEN", None).unwrap());
    let idle = fresh.run_recorded(vec![arrived(tick(1))]);
    assert_eq!(idle.delivered.len(), 0);
    assert_eq!(*fresh.state(), SessionState::Connecting);
}
