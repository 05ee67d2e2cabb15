use flashblocks_digestor::args::{Args, StreamType};
use flashblocks_digestor::channel::{Broadcaster, Delivery, Published, DEFAULT_CAPACITY};
use flashblocks_digestor::connection::{ConnectionAction, ConnectionEvent, ConnectionState};
use flashblocks_digestor::envelope::{frame_envelope, short_type_name, StreamEnvelope};
use flashblocks_digestor::error::StreamError;
use flashblocks_digestor::output::StreamOutput;
use flashblocks_digestor::print::PrintStream;
use flashblocks_digestor::registry::ClientRegistry;
use flashblocks_digestor::sse::{respond, serves, sse_event, sse_frame, SseServer};
use flashblocks_digestor::stream::{DataStream, Sent};
use flashblocks_digestor::websocket::WebSocketServer;

struct TestData {
    value: i32,
}

fn value_json(data: &TestData) -> String {
    let mut map = serde_json::Map::new();
    map.insert("value".to_string(), serde_json::Value::from(data.value));
    serde_json::to_string(&serde_json::Value::Object(map)).unwrap()
}

fn message_json(message: &str) -> String {
    let mut map = serde_json::Map::new();
    map.insert("message".to_string(), serde_json::Value::from(message));
    serde_json::to_string(&serde_json::Value::Object(map)).unwrap()
}

fn message_of(delivery: Delivery) -> String {
    match delivery {
        Delivery::Message(message) => message,
        other => panic!("expected a message, found {:?}", other),
    }
}

#[test]
fn test_envelope_serialization() {
    let data = TestData { value: 42 };
    let envelope = StreamEnvelope::new("TestData", value_json(&data));

    let json = envelope.to_json().unwrap();
    assert!(json.contains(r#""type":"TestData""#));
    assert!(json.contains(r#""data":{"value":42}"#));
    assert_eq!(json, r#"{"type":"TestData","data":{"value":42}}"#);
}

#[test]
fn test_envelope_from_type_name() {
    let data = TestData { value: 42 };
    let envelope = StreamEnvelope::from_type_name("streams::envelope::TestData", value_json(&data));

    assert_eq!(envelope.data_type, "TestData");
}

#[test]
fn test_sse_server_creation() {
    let server = SseServer::new(50);
    assert_eq!(server.capacity(), 50);
    assert_eq!(ClientRegistry::new().next_client_id(), 0);
}

#[test]
fn sse_test_send_message_no_clients() {
    let server = SseServer::with_default_capacity();
    let data = message_json("Hello");

    // Should not error even with no clients
    let result = server.send_auto("streams::TestData", &data);
    assert!(result.is_ok());
    assert!(matches!(result, Ok(Sent::Broadcast { published: Published::NoSubscribers, .. })));
}

#[test]
fn test_websocket_server_creation() {
    let server = WebSocketServer::new(50);
    assert_eq!(server.capacity(), 50);
    assert_eq!(ClientRegistry::new().next_client_id(), 0);
}

#[test]
fn websocket_test_send_message_no_clients() {
    let server = WebSocketServer::with_default_capacity();
    let data = message_json("Hello");

    // Should not error even with no clients
    let result = server.send_auto("streams::TestData", &data);
    assert!(result.is_ok());
    assert!(matches!(result, Ok(Sent::Broadcast { published: Published::NoSubscribers, .. })));
}

#[test]
fn the_default_capacity_is_one_hundred() {
    assert_eq!(DEFAULT_CAPACITY, 100);
    assert_eq!(WebSocketServer::with_default_capacity().capacity(), 100);
    assert_eq!(SseServer::with_default_capacity().capacity(), 100);
    assert_eq!(Broadcaster::new(1).capacity(), 1);
    assert!(Broadcaster::try_new(0).is_none());
    assert!(Broadcaster::try_new(usize::MAX).is_none());
    assert_eq!(Broadcaster::try_new(usize::MAX / 2 + 1).map(|b| b.capacity()), None);
    assert_eq!(Broadcaster::try_new(16).map(|b| b.capacity()), Some(16));
}

#[test]
fn a_label_is_quoted_as_json() {
    let envelope = StreamEnvelope::new("a\"b\\c\n", "1".to_string());
    assert_eq!(envelope.to_json().unwrap(), "{\"type\":\"a\\\"b\\\\c\\n\",\"data\":1}");
    let plain = StreamEnvelope::new("UniV3_swap", "{}".to_string());
    assert_eq!(plain.to_json().unwrap(), r#"{"type":"UniV3_swap","data":{}}"#);
    let parsed: serde_json::Value = serde_json::from_str(&plain.to_json().unwrap()).unwrap();
    assert_eq!(parsed["type"], "UniV3_swap");
}

#[test]
fn framing_puts_the_payload_after_the_label() {
    let text = frame_envelope(Ok("\"L\"".to_string()), "[1,2]").unwrap();
    assert_eq!(text, r#"{"type":"L","data":[1,2]}"#);
    let error = frame_envelope(Err("key must be a string".to_string()), "[1,2]").unwrap_err();
    assert_eq!(error.message(), "Send error: Failed to serialize data: key must be a string");
    assert!(matches!(error, StreamError::SendError(reason)
        if reason == "Failed to serialize data: key must be a string"));
}

#[test]
fn an_error_shows_its_reason() {
    let error = StreamError::SendError("Failed to bind to address x: denied".to_string());
    assert_eq!(error.message(), "Send error: Failed to bind to address x: denied");
    assert_eq!(
        StreamError::failed_to_serialize("boom").message(),
        "Send error: Failed to serialize data: boom"
    );
}

#[test]
fn the_short_name_is_what_follows_the_last_separator() {
    assert_eq!(short_type_name("my_crate::module::MyType"), "MyType");
    assert_eq!(short_type_name("MyType"), "MyType");
    assert_eq!(short_type_name(""), "");
    assert_eq!(short_type_name("::"), "");
    assert_eq!(short_type_name("a::"), "");
    assert_eq!(short_type_name("::a"), "a");
    assert_eq!(short_type_name("a:b"), "a:b");
    assert_eq!(short_type_name("a:::b"), "b");
    assert_eq!(short_type_name("a::b::"), "");
    assert_eq!(short_type_name("ünï::cødé"), "cødé");
    for path in ["my_crate::module::MyType", "a:::b", "x", "a::", ":::::", "é::ü"] {
        assert_eq!(short_type_name(path), path.rsplit("::").next().unwrap_or(path));
    }
}

#[test]
fn the_print_stream_hands_back_the_line() {
    let sent = PrintStream.send("Aave_supply", r#"{"amount":"0x1"}"#).unwrap();
    assert!(matches!(sent, Sent::Line(line)
        if line == r#"{"type":"Aave_supply","data":{"amount":"0x1"}}"#));
    let output = StreamOutput::print();
    assert!(!output.needs_listener());
    let sent = output.send_envelope(&StreamEnvelope::new("T", "null".to_string())).unwrap();
    assert!(matches!(sent, Sent::Line(line) if line == r#"{"type":"T","data":null}"#));
    let sent = output.send_auto("a::b::Thing", "7").unwrap();
    assert!(matches!(sent, Sent::Line(line) if line == r#"{"type":"Thing","data":7}"#));
}

#[test]
fn a_subscriber_gets_each_envelope_as_it_was_sent() {
    for output in [StreamOutput::websocket(), StreamOutput::sse_with_capacity(8)] {
        assert!(output.needs_listener());
        let mut subscription = match &output {
            StreamOutput::WebSocket(server) => server.subscribe(),
            StreamOutput::Sse(server) => server.subscribe(),
            StreamOutput::Print(_) => unreachable!(),
        };
        assert!(matches!(subscription.poll(), Delivery::Empty));
        let sent = output.send("UniV3_swap", r#"{"tick":-7}"#);
        assert!(matches!(sent, Ok(Sent::Broadcast { published: Published::Delivered(1), .. })));
        let sent = output.send_auto("x::ParsedSwap", "2");
        assert!(matches!(sent, Ok(Sent::Broadcast { published: Published::Delivered(1), .. })));
        assert_eq!(message_of(subscription.poll()), r#"{"type":"UniV3_swap","data":{"tick":-7}}"#);
        assert_eq!(message_of(subscription.poll()), r#"{"type":"ParsedSwap","data":2}"#);
        assert!(matches!(subscription.poll(), Delivery::Empty));
    }
    let sized = StreamOutput::websocket_with_capacity(3);
    assert!(matches!(&sized, StreamOutput::WebSocket(server) if server.capacity() == 3));
    assert!(matches!(StreamOutput::sse(), StreamOutput::Sse(server) if server.capacity() == 100));
}

#[test]
fn a_subscriber_sees_nothing_from_before_it_subscribed() {
    let server = WebSocketServer::new(4);
    let mut early = server.subscribe();
    assert!(matches!(server.send("L", "1"), Ok(Sent::Broadcast { published: Published::Delivered(1), .. })));
    let mut late = server.subscribe();
    assert!(matches!(server.send("L", "2"), Ok(Sent::Broadcast { published: Published::Delivered(2), .. })));
    assert_eq!(message_of(early.poll()), r#"{"type":"L","data":1}"#);
    assert_eq!(message_of(early.poll()), r#"{"type":"L","data":2}"#);
    assert_eq!(message_of(late.poll()), r#"{"type":"L","data":2}"#);
    assert!(matches!(late.poll(), Delivery::Empty));
}

#[test]
fn a_slow_subscriber_is_told_that_it_lagged() {
    let capacity = 4;
    let channel = Broadcaster::new(capacity);
    let mut slow = channel.subscribe();
    for i in 0..capacity + 2 {
        assert_eq!(channel.send(i.to_string()), Published::Delivered(1));
    }
    assert!(matches!(slow.poll(), Delivery::Lagged(2)));
    assert_eq!(message_of(slow.poll()), "2");
    assert_eq!(message_of(slow.poll()), "3");
    assert_eq!(message_of(slow.poll()), "4");
    assert_eq!(message_of(slow.poll()), "5");
    assert!(matches!(slow.poll(), Delivery::Empty));

    let event = Delivery::Lagged(2).into_event().unwrap();
    let (state, action) = ConnectionState::Streaming.step(event);
    assert_eq!(state, ConnectionState::Lagging);
    assert!(matches!(action, ConnectionAction::ReportLag(2)));
}

#[test]
fn a_channel_without_senders_is_closed() {
    let channel = Broadcaster::new(2);
    let mut subscription = channel.subscribe();
    let extra = channel.sender();
    assert_eq!(channel.send("last".to_string()), Published::Delivered(1));
    drop(channel);
    assert_eq!(message_of(subscription.poll()), "last");
    assert!(matches!(subscription.poll(), Delivery::Empty));
    assert_eq!(extra.send("more".to_string()).ok(), Some(1));
    assert_eq!(message_of(subscription.poll()), "more");
    drop(extra);
    assert!(matches!(subscription.poll(), Delivery::Closed));
    assert!(matches!(
        Delivery::Closed.into_event(),
        Some(ConnectionEvent::ChannelClosed)
    ));
    assert!(Delivery::Empty.into_event().is_none());
    assert_eq!(Published::from_answer(None), Published::NoSubscribers);
    assert_eq!(Published::from_answer(Some(3)), Published::Delivered(3));
}

#[test]
fn the_broadcast_sender_reaches_the_same_channel() {
    let server = SseServer::new(4);
    let mut subscription = server.subscribe();
    let sender = server.get_broadcast_sender();
    assert_eq!(sender.send("raw".to_string()).ok(), Some(1));
    assert_eq!(message_of(subscription.poll()), "raw");
    let receiver = server.subscribe().into_receiver();
    assert_eq!(sender.receiver_count(), 2);
    drop(receiver);
    let ws = WebSocketServer::new(4);
    assert_eq!(ws.get_broadcast_sender().receiver_count(), 0);
    assert!(ws.get_broadcast_sender().same_channel(&ws.get_broadcast_sender()));
    assert!(!ws.get_broadcast_sender().same_channel(&sender));
    let channel = Broadcaster::new(2);
    let shared = channel.sender();
    let mut listener = channel.subscribe().into_receiver();
    assert_eq!(shared.send("through the handle".to_string()).ok(), Some(1));
    assert_eq!(listener.try_recv().ok(), Some("through the handle".to_string()));
}

#[test]
fn server_sent_events_are_framed() {
    assert_eq!(sse_event("{\"a\":1}"), "data: {\"a\":1}\n\n");
    assert_eq!(sse_event(""), "data: \n\n");
    assert_eq!(sse_frame(&Delivery::Message("x".to_string())), Some("data: x\n\n".to_string()));
    assert_eq!(sse_frame(&Delivery::Lagged(3)), None);
    assert_eq!(sse_frame(&Delivery::Empty), None);
    assert_eq!(sse_frame(&Delivery::Closed), None);
}

#[test]
fn the_event_stream_is_served_under_two_paths() {
    assert!(serves("/events"));
    assert!(serves("/"));
    assert!(!serves("/event"));
    assert!(!serves(""));
    assert!(!serves("/events/"));
    let ok = respond("/events");
    assert_eq!(ok.status, 200);
    assert!(ok.streams);
    let headers: Vec<(&str, &str)> = ok.headers.iter().map(|h| (h.name, h.value)).collect();
    assert_eq!(
        headers,
        vec![
            ("Content-Type", "text/event-stream"),
            ("Cache-Control", "no-cache"),
            ("Connection", "keep-alive"),
            ("Access-Control-Allow-Origin", "*"),
        ]
    );
    assert_eq!(respond("/").status, 200);
    let missing = respond("/metrics");
    assert_eq!(missing.status, 404);
    assert!(!missing.streams);
    assert!(missing.headers.is_empty());
}

#[test]
fn ids_go_up_and_clients_come_and_go() {
    let mut registry = ClientRegistry::new();
    assert_eq!(registry.client_count(), 0);
    let a = registry.accept("127.0.0.1:5000".to_string());
    let b = registry.accept("127.0.0.1:5001".to_string());
    assert_eq!((a, b), (0, 1));
    assert_eq!(registry.next_client_id(), 2);
    assert_eq!(registry.client_count(), 2);
    assert!(registry.is_registered(a) && registry.is_registered(b));
    assert!(registry.unregister(a));
    assert!(!registry.unregister(a));
    assert!(!registry.is_registered(a));
    assert_eq!(registry.client_count(), 1);
    let c = registry.accept("127.0.0.1:5002".to_string());
    assert_eq!(c, 2);
    let d = registry.allocate_id();
    assert_eq!(d, 3);
    assert!(!registry.is_registered(d));
    registry.register(d, "127.0.0.1:5003".to_string());
    registry.register(d, "127.0.0.1:5004".to_string());
    assert_eq!(registry.client_count(), 3);
}

#[test]
fn a_connection_runs_its_course() {
    let mut state = ConnectionState::start();
    assert_eq!(state, ConnectionState::Accepted);
    assert!(!state.live() && !state.closed());
    let mut actions = Vec::new();
    for event in [
        ConnectionEvent::Registered,
        ConnectionEvent::Subscribed,
        ConnectionEvent::Published("one".to_string()),
        ConnectionEvent::PeerPing(vec![1, 2, 3]),
        ConnectionEvent::PeerText("hello".to_string()),
        ConnectionEvent::PeerOther,
        ConnectionEvent::Lagged(9),
        ConnectionEvent::Published("two".to_string()),
        ConnectionEvent::PeerClosed,
        ConnectionEvent::Published("three".to_string()),
        ConnectionEvent::WriteFailed,
    ] {
        let (next, action) = state.step(event);
        state = next;
        actions.push(action);
    }
    assert!(state.closed());
    assert!(matches!(actions[0], ConnectionAction::Nothing));
    assert!(matches!(actions[1], ConnectionAction::Nothing));
    assert!(matches!(&actions[2], ConnectionAction::SendText(m) if m == "one"));
    assert!(matches!(&actions[3], ConnectionAction::SendPong(p) if p == &vec![1, 2, 3]));
    assert!(matches!(actions[4], ConnectionAction::Nothing));
    assert!(matches!(actions[5], ConnectionAction::Nothing));
    assert!(matches!(actions[6], ConnectionAction::ReportLag(9)));
    assert!(matches!(&actions[7], ConnectionAction::SendText(m) if m == "two"));
    assert!(matches!(actions[8], ConnectionAction::Unregister));
    assert!(matches!(actions[9], ConnectionAction::Nothing));
    assert!(matches!(actions[10], ConnectionAction::Nothing));
    let unregistered =
        actions.iter().filter(|a| matches!(a, ConnectionAction::Unregister)).count();
    assert_eq!(unregistered, 1);
}

#[test]
fn every_failure_ends_a_connection() {
    for state in [
        ConnectionState::Accepted,
        ConnectionState::Registered,
        ConnectionState::Subscribed,
        ConnectionState::Streaming,
        ConnectionState::Lagging,
    ] {
        for event in [
            ConnectionEvent::HandshakeFailed,
            ConnectionEvent::PeerClosed,
            ConnectionEvent::PeerError,
            ConnectionEvent::ChannelClosed,
            ConnectionEvent::WriteFailed,
        ] {
            let (next, action) = state.step(event);
            assert_eq!(next, ConnectionState::Closed);
            assert!(matches!(action, ConnectionAction::Unregister));
        }
    }
    let (next, action) = ConnectionState::Closed.step(ConnectionEvent::PeerError);
    assert_eq!(next, ConnectionState::Closed);
    assert!(matches!(action, ConnectionAction::Nothing));
    let (next, action) = ConnectionState::Accepted.step(ConnectionEvent::Published("x".into()));
    assert_eq!(next, ConnectionState::Accepted);
    assert!(matches!(action, ConnectionAction::Nothing));
    let (next, _) = ConnectionState::Subscribed.step(ConnectionEvent::Published("x".into()));
    assert_eq!(next, ConnectionState::Streaming);
    assert!(next.live());
}

#[test]
fn the_arguments_have_their_defaults() {
    let args = Args::default();
    assert_eq!(args.url, "wss://sepolia.flashblocks.base.org/ws");
    assert_eq!(args.addr, "localhost:9001");
    assert_eq!(args.stream, StreamType::Websocket);
    assert_eq!(StreamType::default(), StreamType::Websocket);
}

#[test]
fn a_registration_is_found_under_its_id() {
    let mut registry = ClientRegistry::new();
    let id = registry.accept("10.0.0.1:4000".to_string());
    let found = registry.registration(id).unwrap();
    assert_eq!(found.client_id, id);
    assert_eq!(found.peer_address, "10.0.0.1:4000");
    assert!(registry.registration(id + 1).is_none());
    registry.unregister(id);
    assert!(registry.registration(id).is_none());
}

#[test]
fn a_broadcast_says_which_text_went_out() {
    for output in [StreamOutput::websocket(), StreamOutput::sse()] {
        match output.send("Aave_repay", r#"{"amount":"0x5"}"#) {
            Ok(Sent::Broadcast { text, published }) => {
                assert_eq!(text, r#"{"type":"Aave_repay","data":{"amount":"0x5"}}"#);
                assert_eq!(published, Published::NoSubscribers);
            }
            other => panic!("expected a broadcast, found {:?}", other),
        }
        let envelope = StreamEnvelope::new("quo\"te", "[]".to_string());
        match output.send_envelope(&envelope) {
            Ok(Sent::Broadcast { text, .. }) => {
                assert_eq!(text, "{\"type\":\"quo\\\"te\",\"data\":[]}")
            }
            other => panic!("expected a broadcast, found {:?}", other),
        }
    }
}

#[test]
fn every_envelope_is_rendered() {
    for label in ["", "plain", "with space", "tab\there", "\u{0}", "\u{7f}", "ünï", "back\\slash"] {
        let rendered = StreamEnvelope::new(label, "0".to_string()).to_json().unwrap();
        let parsed: serde_json::Value = serde_json::from_str(&rendered).unwrap();
        assert_eq!(parsed["type"], label);
        assert_eq!(parsed["data"], 0);
    }
    for label in ["", "plain", "with space", "\u{7f}", "ünï", "Morpho_withdraw_collateral"] {
        let rendered = StreamEnvelope::new(label, "0".to_string()).to_json().unwrap();
        assert_eq!(rendered, format!("{{\"type\":\"{}\",\"data\":0}}", label));
    }
}
