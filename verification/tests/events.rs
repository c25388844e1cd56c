use wsocket_io::inbound::parse_presence_member;
use wsocket_io::{
    Call, Client, Delivery, HistoryMessage, HistoryResult, Json, Message, MessageMeta, PingEvent,
    PingStep, PresenceMember, ReadEvent, ReadStep, Shutdown, PING_INTERVAL_SECS,
    RECONNECT_DELAY_SECS,
};

type TestClient = Client<u32, u32, u32, u32>;

fn client() -> TestClient {
    TestClient::connect("ws://localhost:9001", "k").1
}

fn text(s: &str) -> Json {
    Json::Text(s.to_string())
}

fn message(id: &str, channel: &str, timestamp: u64, data: Json) -> Message {
    Message {
        data,
        meta: MessageMeta {
            id: id.to_string(),
            channel: channel.to_string(),
            timestamp,
        },
    }
}

fn member(client_id: &str, data: Json, joined_at: u64) -> PresenceMember {
    PresenceMember {
        client_id: client_id.to_string(),
        data,
        joined_at,
    }
}

#[test]
fn the_url_carries_the_key() {
    let (url, client) = TestClient::connect("ws://localhost:9001", "your-api-key");
    assert_eq!(url, "ws://localhost:9001/?key=your-api-key");
    assert!(client.is_connected());
    assert_eq!(client.last_message_ts(), 0);
    assert_eq!(client.resume_token(), None);
    assert!(client.push.is_none());
}

#[test]
fn a_message_calls_every_subscriber_in_order() {
    let mut client = client();
    client.channel("a").subscribe(1, true);
    client.channel("b").subscribe(9, true);
    client.channel("a").subscribe(2, true);
    let delivery = client.handle_message(
        "{\"action\":\"message\",\"channel\":\"a\",\"id\":\"m1\",\"timestamp\":7,\"data\":[1]}",
    );
    let sent = message("m1", "a", 7, Json::Array(vec![Json::Uint(1)]));
    assert_eq!(
        delivery,
        Delivery::Message(vec![
            Call {
                callback: 1,
                argument: sent.clone()
            },
            Call {
                callback: 2,
                argument: sent
            },
        ])
    );
    assert_eq!(client.last_message_ts(), 7);
}

#[test]
fn a_message_without_fields_has_defaults() {
    let mut client = client();
    client.channel("").subscribe(1, true);
    let delivery = client.handle_message("{\"action\":\"message\",\"id\":5,\"timestamp\":-1}");
    assert_eq!(
        delivery,
        Delivery::Message(vec![Call {
            callback: 1,
            argument: message("", "", 0, Json::Null)
        }])
    );
}

#[test]
fn the_last_timestamp_does_not_go_back() {
    let mut client = client();
    client.channel("a");
    for (timestamp, last) in [(5, 5), (3, 5), (5, 5), (8, 8)] {
        let frame = format!(
            "{{\"action\":\"message\",\"channel\":\"a\",\"timestamp\":{}}}",
            timestamp
        );
        assert_eq!(client.handle_message(&frame), Delivery::Message(vec![]));
        assert_eq!(client.last_message_ts(), last);
    }
    client.handle_message("{\"action\":\"message\",\"channel\":\"b\",\"timestamp\":100}");
    assert_eq!(client.last_message_ts(), 8);
}

#[test]
fn an_unsubscribed_channel_is_silent() {
    let mut client = client();
    client.channel("a").subscribe(1, true);
    client.channel("a").on_history(2);
    client.channel("a").presence_mut().on_enter(3);
    client.channel("a").unsubscribe(true);
    assert_eq!(
        client.handle_message("{\"action\":\"message\",\"channel\":\"a\"}"),
        Delivery::Message(vec![])
    );
    assert_eq!(
        client.handle_message("{\"action\":\"history\",\"channel\":\"a\"}"),
        Delivery::History(vec![])
    );
    assert_eq!(
        client.handle_message("{\"action\":\"presence.enter\",\"channel\":\"a\"}"),
        Delivery::Member(vec![Call {
            callback: 3,
            argument: PresenceMember::default()
        }])
    );
}

#[test]
fn what_is_not_understood_is_ignored() {
    let mut client = client();
    client.channel("a").subscribe(1, true);
    for frame in [
        "not json",
        "[]",
        "null",
        "{}",
        "{\"action\":5}",
        "{\"action\":\"pong\",\"channel\":\"a\"}",
        "{\"action\":\"message\",\"channel\":\"nowhere\"}",
        "{\"action\":\"presence.enter\",\"channel\":\"nowhere\"}",
        "{\"action\":\"presence.members\",\"channel\":\"nowhere\"}",
        "{\"action\":\"history\",\"channel\":\"nowhere\"}",
    ] {
        assert_eq!(client.handle_message(frame), Delivery::Nothing);
    }
    assert_eq!(client.last_message_ts(), 0);
    assert!(client.pubsub.find("nowhere").is_none());
}

#[test]
fn presence_events_call_their_callbacks() {
    let mut client = client();
    let presence = client.channel("a").presence_mut();
    presence.on_enter(1);
    presence.on_leave(2);
    presence.on_update(3);
    presence.on_members(4);
    presence.on_enter(5);
    let data = "{\"clientId\":\"bob\",\"data\":{\"x\":1},\"joinedAt\":12}";
    let bob = member(
        "bob",
        Json::Object(vec![("x".to_string(), Json::Uint(1))]),
        12,
    );
    for (action, callbacks) in [
        ("presence.enter", vec![1, 5]),
        ("presence.leave", vec![2]),
        ("presence.update", vec![3]),
    ] {
        let frame = format!(
            "{{\"action\":\"{}\",\"channel\":\"a\",\"data\":{}}}",
            action, data
        );
        let calls = callbacks
            .into_iter()
            .map(|callback| Call {
                callback,
                argument: bob.clone(),
            })
            .collect();
        assert_eq!(client.handle_message(&frame), Delivery::Member(calls));
    }
    let frame = format!(
        "{{\"action\":\"presence.members\",\"channel\":\"a\",\"data\":[{},{{}},7]}}",
        data
    );
    assert_eq!(
        client.handle_message(&frame),
        Delivery::Members(vec![Call {
            callback: 4,
            argument: vec![bob, PresenceMember::default(), PresenceMember::default()]
        }])
    );
    assert_eq!(
        client.handle_message("{\"action\":\"presence.members\",\"channel\":\"a\",\"data\":{}}"),
        Delivery::Members(vec![Call {
            callback: 4,
            argument: vec![]
        }])
    );
}

#[test]
fn members_are_read_in_both_forms() {
    let default = PresenceMember::default();
    for (source, expected) in [
        ("{}", default.clone()),
        ("{\"clientId\":\"a\"}", member("a", Json::Null, 0)),
        ("{\"joinedAt\":3,\"more\":1}", member("", Json::Null, 3)),
        ("{\"clientId\":null}", default.clone()),
        ("{\"clientId\":\"a\",\"joinedAt\":\"3\"}", default.clone()),
        ("{\"clientId\":\"a\",\"joinedAt\":-3}", default.clone()),
        ("{\"clientId\":\"a\",\"joinedAt\":1.5}", default.clone()),
        ("[]", default.clone()),
        ("[\"a\"]", member("a", Json::Null, 0)),
        ("[\"a\",true,3]", member("a", Json::Bool(true), 3)),
        ("[\"a\",true,3,4]", default.clone()),
        ("[1]", default.clone()),
        ("\"a\"", default.clone()),
        ("null", default.clone()),
    ] {
        let json = Json::parse(source).unwrap();
        assert_eq!(parse_presence_member(Some(&json)), expected);
    }
    assert_eq!(parse_presence_member(None), default);
}

#[test]
fn history_answers_reach_their_callbacks() {
    let mut client = client();
    client.channel("a").on_history(1);
    client.channel("a").on_history(2);
    let frame = "{\"action\":\"history\",\"channel\":\"a\",\"data\":{\"channel\":\"z\",\
        \"hasMore\":true,\"messages\":[{\"id\":\"m\",\"channel\":\"c\",\"data\":5,\
        \"publisherId\":\"p\",\"timestamp\":6,\"sequence\":7},{}]}}";
    let result = HistoryResult {
        channel: "z".to_string(),
        messages: vec![
            HistoryMessage {
                id: "m".to_string(),
                channel: "c".to_string(),
                data: Json::Uint(5),
                publisher_id: "p".to_string(),
                timestamp: 6,
                sequence: 7,
            },
            HistoryMessage {
                id: "".to_string(),
                channel: "a".to_string(),
                data: Json::Null,
                publisher_id: "".to_string(),
                timestamp: 0,
                sequence: 0,
            },
        ],
        has_more: true,
    };
    assert_eq!(
        client.handle_message(frame),
        Delivery::History(vec![
            Call {
                callback: 1,
                argument: result.clone()
            },
            Call {
                callback: 2,
                argument: result
            },
        ])
    );
    let empty = HistoryResult {
        channel: "a".to_string(),
        messages: vec![],
        has_more: false,
    };
    for frame in [
        "{\"action\":\"history\",\"channel\":\"a\"}",
        "{\"action\":\"history\",\"channel\":\"a\",\"data\":{\"hasMore\":1,\"messages\":{}}}",
    ] {
        match client.handle_message(frame) {
            Delivery::History(calls) => assert_eq!(calls[1].argument, empty),
            other => panic!("{:?}", other),
        }
    }
}

#[test]
fn a_resumption_sets_the_token() {
    let mut client = client();
    for frame in [
        "{\"action\":\"ack\",\"id\":\"m1\",\"data\":{\"resumeToken\":\"x\"}}",
        "{\"action\":\"ack\",\"data\":{\"resumeToken\":\"x\"}}",
        "{\"action\":\"ack\",\"id\":\"resume\"}",
        "{\"action\":\"ack\",\"id\":\"resume\",\"data\":{\"resumeToken\":1}}",
    ] {
        assert_eq!(client.handle_message(frame), Delivery::Nothing);
        assert_eq!(client.resume_token(), None);
    }
    let frame = "{\"action\":\"ack\",\"id\":\"resume\",\"data\":{\"resumeToken\":\"t\"}}";
    assert_eq!(client.handle_message(frame), Delivery::Nothing);
    assert_eq!(client.resume_token(), Some("t"));
    client.handle_message("{\"action\":\"ack\",\"id\":\"resume\"}");
    assert_eq!(client.resume_token(), Some("t"));
}

#[test]
fn errors_are_logged() {
    let mut client = client();
    assert_eq!(
        client.handle_message("{\"action\":\"error\",\"error\":\"denied\"}"),
        Delivery::Log("[wSocket] Error: denied".to_string())
    );
    assert_eq!(
        client.handle_message("{\"action\":\"error\",\"error\":1}"),
        Delivery::Log("[wSocket] Error: unknown".to_string())
    );
}

#[test]
fn reading_goes_on_until_the_client_disconnects() {
    let mut client = client();
    client.channel("a").subscribe(1, true);
    let frame = "{\"action\":\"message\",\"channel\":\"a\"}".to_string();
    assert_eq!(
        client.read_step(ReadEvent::Text(frame)),
        ReadStep::Deliver(Delivery::Message(vec![Call {
            callback: 1,
            argument: message("", "a", 0, Json::Null)
        }]))
    );
    assert_eq!(
        client.read_step(ReadEvent::Text("?".to_string())),
        ReadStep::Deliver(Delivery::Nothing)
    );
    assert_eq!(
        client.read_step(ReadEvent::OtherFrame),
        ReadStep::Deliver(Delivery::Nothing)
    );
    assert_eq!(client.read_step(ReadEvent::Failed), ReadStep::Reconnect);
    assert_eq!(
        client.read_step(ReadEvent::ReconnectFailed),
        ReadStep::Reconnect
    );
    client.reconnected();
    assert_eq!(client.read_step(ReadEvent::Closed), ReadStep::Reconnect);
    client.disconnect();
    assert_eq!(client.read_step(ReadEvent::Failed), ReadStep::Stop);
    assert_eq!(client.read_step(ReadEvent::Closed), ReadStep::Stop);
    assert_eq!(client.read_step(ReadEvent::ReconnectFailed), ReadStep::Stop);
}

#[test]
fn a_new_connection_subscribes_what_is_listened_to() {
    assert_eq!(RECONNECT_DELAY_SECS, 1);
    let mut client = client();
    client.channel("a").subscribe_with_rewind(1, 5, true);
    client.channel("b").subscribe(2, false);
    client.channel("c");
    client.channel("d").subscribe(3, true);
    client.channel("d").unsubscribe(true);
    client.channel("d").presence_mut().on_enter(4);
    assert_eq!(client.read_step(ReadEvent::Closed), ReadStep::Reconnect);
    let mut frames = client.reconnected();
    frames.sort();
    assert_eq!(
        frames,
        vec![
            "{\"action\":\"subscribe\",\"channel\":\"a\"}",
            "{\"action\":\"subscribe\",\"channel\":\"b\"}",
        ]
    );
    assert_eq!(client.channel("a").subscribe(5, true), None);
    assert_eq!(client.channel("b").subscribe(6, true), None);
    assert!(client.channel("c").subscribe(7, true).is_some());
    assert!(client.channel("d").subscribe(8, true).is_some());
    assert_eq!(
        client.handle_message("{\"action\":\"message\",\"channel\":\"a\"}"),
        Delivery::Message(vec![
            Call {
                callback: 1,
                argument: message("", "a", 0, Json::Null)
            },
            Call {
                callback: 5,
                argument: message("", "a", 0, Json::Null)
            },
        ])
    );
}

#[test]
fn missed_messages_are_asked_for() {
    let mut client = client();
    client.channel("a").subscribe(1, true);
    assert_eq!(client.resume(), None);
    client.handle_message("{\"action\":\"message\",\"channel\":\"a\",\"timestamp\":7}");
    assert_eq!(
        client.resume().unwrap(),
        "{\"action\":\"resume\",\"id\":\"resume\",\"timestamp\":7}"
    );
    client.handle_message(
        "{\"action\":\"ack\",\"id\":\"resume\",\"data\":{\"resumeToken\":\"t\"}}",
    );
    assert_eq!(
        client.resume().unwrap(),
        "{\"action\":\"resume\",\"id\":\"resume\",\"resumeToken\":\"t\",\"timestamp\":7}"
    );
    client.disconnect();
    assert_eq!(client.resume(), None);
}

#[test]
fn a_disconnected_client_is_not_brought_back() {
    let mut client = client();
    client.channel("a").subscribe(1, true);
    client.disconnect();
    assert!(client.reconnected().is_empty());
    assert!(client.ask_members_again().is_empty());
    assert!(!client.is_connected());
}

#[test]
fn who_asks_for_members_is_told_once() {
    let mut client = client();
    let presence = client.channel("a").presence_mut();
    presence.on_members(1);
    assert!(presence.get(2, true).is_some());
    assert_eq!(presence.get(3, false), None);
    assert_eq!(
        client.ask_members_again(),
        vec!["{\"action\":\"presence.get\",\"channel\":\"a\"}"]
    );
    let frame = "{\"action\":\"presence.members\",\"channel\":\"a\",\"data\":[[\"bob\"]]}";
    let call = |callback| Call {
        callback,
        argument: vec![member("bob", Json::Null, 0)],
    };
    assert_eq!(
        client.handle_message("{\"action\":\"presence.members\",\"channel\":\"b\"}"),
        Delivery::Nothing
    );
    assert_eq!(
        client.handle_message(frame),
        Delivery::Members(vec![call(1), call(2)])
    );
    assert_eq!(
        client.handle_message(frame),
        Delivery::Members(vec![call(1)])
    );
    assert!(client.ask_members_again().is_empty());
}

#[test]
fn disconnecting_lets_go_of_who_waits_for_members() {
    let mut client = client();
    client.channel("a").presence_mut().get(2, true);
    client.disconnect();
    assert_eq!(
        client.handle_message("{\"action\":\"presence.members\",\"channel\":\"a\"}"),
        Delivery::Members(vec![])
    );
}

#[test]
fn pings_go_out_while_connected() {
    let mut client = client();
    assert_eq!(PING_INTERVAL_SECS, 30);
    assert_eq!(client.ping_step(PingEvent::Started), PingStep::Wait);
    assert_eq!(
        client.ping_step(PingEvent::Tick),
        PingStep::Send("{\"action\":\"ping\"}".to_string())
    );
    assert_eq!(client.ping_step(PingEvent::Sent), PingStep::Wait);
    assert_eq!(client.ping_step(PingEvent::SendFailed), PingStep::Stop);
    client.disconnect();
    assert_eq!(client.ping_step(PingEvent::Tick), PingStep::Stop);
}

#[test]
fn disconnecting_happens_once() {
    let mut client = client();
    client.channel("a").subscribe(1, true);
    assert_eq!(
        client.disconnect(),
        Shutdown {
            abort_ping: true,
            abort_read: true,
            close_connection: true
        }
    );
    assert!(!client.is_connected());
    assert!(!client.wait());
    assert_eq!(
        client.disconnect(),
        Shutdown {
            abort_ping: false,
            abort_read: false,
            close_connection: false
        }
    );
    assert!(client.pubsub.find("a").unwrap().has_listeners());
}

#[test]
fn the_reader_is_waited_for_once() {
    let mut client = client();
    assert!(client.wait());
    assert!(!client.wait());
}

#[test]
fn disconnecting_stops_a_reader_that_is_waited_for() {
    let mut client = client();
    assert!(client.wait());
    assert_eq!(
        client.disconnect(),
        Shutdown {
            abort_ping: true,
            abort_read: true,
            close_connection: true
        }
    );
    assert!(!client.wait());
}

#[test]
fn an_event_can_come_as_a_value() {
    let mut client = client();
    client.channel("a").subscribe(1, true);
    let root = Json::Object(vec![
        ("action".to_string(), text("message")),
        ("channel".to_string(), text("a")),
        ("timestamp".to_string(), Json::Uint(4)),
    ]);
    assert_eq!(
        client.handle_event(&root),
        Delivery::Message(vec![Call {
            callback: 1,
            argument: message("", "a", 4, Json::Null)
        }])
    );
}
