use wsocket_io::{Client, HistoryOptions, Json};

type TestClient = Client<u32, u32, u32, u32>;

fn client() -> TestClient {
    TestClient::connect("ws://localhost:9001", "k").1
}

fn text(s: &str) -> Json {
    Json::Text(s.to_string())
}

#[test]
fn the_first_subscription_sends_a_request() {
    let mut client = client();
    let chat = client.channel("chat:general");
    assert_eq!(
        chat.subscribe(1, true),
        Some("{\"action\":\"subscribe\",\"channel\":\"chat:general\"}".to_string())
    );
    assert_eq!(chat.subscribe(2, true), None);
    assert_eq!(chat.subscribe_with_rewind(3, 10, true), None);
}

#[test]
fn a_subscription_mentions_a_rewind() {
    let mut client = client();
    assert_eq!(
        client.channel("a").subscribe_with_rewind(1, 10, true),
        Some("{\"action\":\"subscribe\",\"channel\":\"a\",\"rewind\":10}".to_string())
    );
    assert_eq!(
        client.channel("b").subscribe_with_rewind(1, 0, true),
        Some("{\"action\":\"subscribe\",\"channel\":\"b\"}".to_string())
    );
}

#[test]
fn without_a_connection_nothing_is_sent_and_the_channel_counts_as_subscribed() {
    let mut client = client();
    let chat = client.channel("a");
    assert_eq!(chat.subscribe(1, false), None);
    assert_eq!(chat.subscribe(2, true), None);
    assert!(chat.has_listeners());
    assert_eq!(chat.publish(Json::Null, false), None);
    assert_eq!(chat.history(HistoryOptions::default(), false), None);
    assert_eq!(chat.presence_mut().get(9, false), None);
    assert_eq!(chat.unsubscribe(false), None);
    assert!(!chat.has_listeners());
}

#[test]
fn a_channel_can_be_subscribed_again() {
    let mut client = client();
    let chat = client.channel("a");
    assert!(chat.subscribe(1, true).is_some());
    assert_eq!(
        chat.unsubscribe(true),
        Some("{\"action\":\"unsubscribe\",\"channel\":\"a\"}".to_string())
    );
    assert!(!chat.has_listeners());
    assert!(chat.subscribe(2, true).is_some());
    chat.mark_for_resubscribe();
    assert!(chat.has_listeners());
    assert!(chat.subscribe(3, true).is_some());
}

#[test]
fn publishing_carries_the_data_and_a_fresh_id() {
    let mut client = client();
    let chat = client.channel("a");
    let mut ids = Vec::new();
    for _ in 0..2 {
        let frame = chat.publish(text("hi"), true).unwrap();
        let message = Json::parse(&frame).unwrap();
        assert_eq!(message.get("action"), Some(&text("publish")));
        assert_eq!(message.get("channel"), Some(&text("a")));
        assert_eq!(message.get("data"), Some(&text("hi")));
        assert_eq!(message.get("persist"), None);
        let id = message.get("id").unwrap().as_str().unwrap().to_string();
        assert_eq!(id.len(), 36);
        for (i, c) in id.chars().enumerate() {
            match i {
                8 | 13 | 18 | 23 => assert_eq!(c, '-'),
                14 => assert_eq!(c, '4'),
                19 => assert!("89ab".contains(c)),
                _ => assert!("0123456789abcdef".contains(c)),
            }
        }
        ids.push(id);
    }
    assert_ne!(ids[0], ids[1]);
}

#[test]
fn publishing_mentions_persist_only_when_off() {
    let mut client = client();
    let chat = client.channel("a");
    assert_eq!(
        chat.publish_with_id(Json::Uint(1), "i", false, true).unwrap(),
        "{\"action\":\"publish\",\"channel\":\"a\",\"data\":1,\"id\":\"i\",\"persist\":false}"
    );
    assert_eq!(
        chat.publish_with_id(Json::Uint(1), "i", true, true).unwrap(),
        "{\"action\":\"publish\",\"channel\":\"a\",\"data\":1,\"id\":\"i\"}"
    );
    let frame = chat.publish_with_opts(Json::Uint(1), false, true).unwrap();
    let message = Json::parse(&frame).unwrap();
    assert_eq!(message.get("persist"), Some(&Json::Bool(false)));
}

#[test]
fn history_queries_mention_what_is_set() {
    let mut client = client();
    let chat = client.channel("a");
    assert_eq!(
        chat.history(HistoryOptions::default(), true).unwrap(),
        "{\"action\":\"history\",\"channel\":\"a\"}"
    );
    assert_eq!(
        chat.history(
            HistoryOptions {
                limit: Some(50),
                ..Default::default()
            },
            true
        )
        .unwrap(),
        "{\"action\":\"history\",\"channel\":\"a\",\"limit\":50}"
    );
    assert_eq!(
        chat.history(
            HistoryOptions {
                limit: Some(0),
                before: Some(u64::MAX),
                after: Some(1),
                direction: Some("backward".to_string()),
            },
            true
        )
        .unwrap(),
        "{\"action\":\"history\",\"after\":1,\"before\":18446744073709551615,\"channel\":\"a\",\
         \"direction\":\"backward\",\"limit\":0}"
    );
}

#[test]
fn presence_actions_name_the_channel() {
    let mut client = client();
    let chat = client.channel("chat:general");
    let data = Json::Object(vec![("name".to_string(), text("Alice"))]);
    assert_eq!(
        chat.presence().enter(data.clone(), true).unwrap(),
        "{\"action\":\"presence.enter\",\"channel\":\"chat:general\",\"data\":{\"name\":\"Alice\"}}"
    );
    assert_eq!(
        chat.presence().update(Json::Null, true).unwrap(),
        "{\"action\":\"presence.update\",\"channel\":\"chat:general\",\"data\":null}"
    );
    assert_eq!(
        chat.presence().leave(true).unwrap(),
        "{\"action\":\"presence.leave\",\"channel\":\"chat:general\"}"
    );
    assert_eq!(
        chat.presence_mut().get(9, true).unwrap(),
        "{\"action\":\"presence.get\",\"channel\":\"chat:general\"}"
    );
}

#[test]
fn a_channel_is_kept() {
    let mut client = client();
    client.channel("a").subscribe(1, true);
    client.pubsub.channel("b").subscribe(2, true);
    assert_eq!(client.pubsub.channel("a").name, "a");
    assert!(client.pubsub.channel("a").has_listeners());
    assert_eq!(client.channel("a").subscribe(3, true), None);
    assert_eq!(client.channel("b").subscribe(4, true), None);
    assert!(client.pubsub.find("c").is_none());
    assert!(!client.channel("c").has_listeners());
    assert!(client.pubsub.find("c").is_some());
}

#[test]
fn the_namespace_holds_the_channels_of_the_client() {
    let mut client = client();
    client.namespace().channel("a").subscribe(1, true);
    assert!(client.channel("a").has_listeners());
    assert_eq!(client.channel("a").name, "a");
    client.channel("a").unsubscribe(true);
    assert!(!client.namespace().channel("a").has_listeners());
}

#[test]
fn different_ids_make_different_frames() {
    let mut client = client();
    let chat = client.channel("a");
    assert_ne!(
        chat.publish_with_id(Json::Null, "i", true, true),
        chat.publish_with_id(Json::Null, "j", true, true)
    );
}

#[test]
fn published_data_reads_back_up_to_a_depth() {
    let mut client = client();
    let chat = client.channel("a");
    let mut data = Json::Null;
    for _ in 0..126 {
        data = Json::Array(vec![data]);
    }
    let frame = chat.publish(data.clone(), true).unwrap();
    assert_eq!(Json::parse(&frame).unwrap().get("data"), Some(&data));
    let frame = chat.publish(Json::Array(vec![data]), true).unwrap();
    assert!(Json::parse(&frame).is_err());
}
