use wsocket_io::push::{api_result, registration_result, removal_result};
use wsocket_io::text::{decimal_text, trim_trailing_slashes};
use wsocket_io::{ApiRequest, Client, Json, Method, PushClient, PushError};

fn push() -> PushClient {
    PushClient::new("http://localhost:9001//", "admin-token", "app-id")
}

fn request(method: Method, path: &str, body: &str) -> ApiRequest {
    ApiRequest {
        method,
        url: format!("http://localhost:9001{}", path),
        authorization: "Bearer admin-token".to_string(),
        content_type: "application/json".to_string(),
        body: Some(body.to_string()),
    }
}

#[test]
fn devices_are_registered() {
    assert_eq!(
        push().register_fcm("device-token", "user1"),
        request(
            Method::Post,
            "/api/push/register",
            "{\"deviceToken\":\"device-token\",\"memberId\":\"user1\",\"platform\":\"fcm\"}"
        )
    );
    assert_eq!(
        push().register_apns("device-token", "user1"),
        request(
            Method::Post,
            "/api/push/register",
            "{\"deviceToken\":\"device-token\",\"memberId\":\"user1\",\"platform\":\"apns\"}"
        )
    );
}

#[test]
fn devices_are_unregistered() {
    assert_eq!(
        push().unregister("user1", Some("fcm")),
        request(
            Method::Delete,
            "/api/push/unregister",
            "{\"memberId\":\"user1\",\"platform\":\"fcm\"}"
        )
    );
    assert_eq!(
        push().unregister("user1", None),
        request(
            Method::Delete,
            "/api/push/unregister",
            "{\"memberId\":\"user1\"}"
        )
    );
}

#[test]
fn notifications_are_sent() {
    assert_eq!(
        push().send_to_member("user1", "Hello", Some("World")),
        request(
            Method::Post,
            "/api/push/send",
            "{\"body\":\"World\",\"memberId\":\"user1\",\"title\":\"Hello\"}"
        )
    );
    assert_eq!(
        push().broadcast("News", None),
        request(
            Method::Post,
            "/api/push/broadcast",
            "{\"body\":null,\"title\":\"News\"}"
        )
    );
}

#[test]
fn a_call_may_have_no_body() {
    assert_eq!(push().api(Method::Post, "/x", None).body, None);
}

#[test]
fn answers_are_read() {
    assert_eq!(
        api_result(200, "{\"sent\":1}").unwrap(),
        Json::Object(vec![("sent".to_string(), Json::Uint(1))])
    );
    assert_eq!(
        registration_result(201, "{\"subscriptionId\":\"s1\"}").unwrap(),
        "s1"
    );
    assert_eq!(registration_result(299, "{}").unwrap(), "");
    assert_eq!(registration_result(200, "[]").unwrap(), "");
    assert_eq!(removal_result(200, "{\"removed\":3}").unwrap(), 3);
    assert_eq!(removal_result(200, "{\"removed\":\"3\"}").unwrap(), 0);
}

#[test]
fn refusals_carry_the_status_and_the_text() {
    for (status, expected) in [
        (404, "Push API error 404: {}"),
        (300, "Push API error 300: {}"),
        (199, "Push API error 199: {}"),
    ] {
        match api_result(status, "{}") {
            Err(PushError::Api(message)) => assert_eq!(message, expected),
            other => panic!("{:?}", other),
        }
    }
    assert!(matches!(
        registration_result(500, "oops"),
        Err(PushError::Api(_))
    ));
    assert!(matches!(
        removal_result(401, ""),
        Err(PushError::Api(_))
    ));
}

#[test]
fn answers_that_are_not_json_are_errors() {
    assert!(matches!(api_result(200, "oops"), Err(PushError::Json(_))));
    assert!(matches!(
        registration_result(200, ""),
        Err(PushError::Json(_))
    ));
    assert!(matches!(removal_result(204, ""), Err(PushError::Json(_))));
}

#[test]
fn the_server_url_loses_its_trailing_slashes() {
    assert_eq!(trim_trailing_slashes("http://a//"), "http://a");
    assert_eq!(trim_trailing_slashes("http://a"), "http://a");
    assert_eq!(trim_trailing_slashes("///"), "");
    assert_eq!(trim_trailing_slashes(""), "");
    assert_eq!(trim_trailing_slashes("é/"), "é");
}

#[test]
fn numbers_are_written_in_decimal() {
    for n in [0u16, 7, 10, 99, 100, 404, 65535] {
        assert_eq!(decimal_text(n), n.to_string());
    }
}

#[test]
fn push_is_configured_on_the_client() {
    let mut client = Client::<u32, u32, u32, u32>::connect("ws://a", "k").1;
    assert!(client.configured_push().is_none());
    let push = client.configure_push("http://a/", "t", "app");
    let expected = push.broadcast("x", None);
    assert_eq!(expected.url, "http://a/api/push/broadcast");
    assert_eq!(
        client.configured_push().unwrap().broadcast("x", None),
        expected
    );
    assert_eq!(client.push.unwrap().broadcast("x", None), expected);
}
