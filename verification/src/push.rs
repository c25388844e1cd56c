//! Push notifications over REST.

use crate::codec::{reads_back, text_reading, value_text};
use crate::inbound::{number_at, number_member, text_at, text_member};
use crate::json::{members_view, put_member, Json, JsonView};
use crate::text::{decimal, decimal_text, trim_trailing_slashes, without_trailing_slashes};
use crate::types::{optional_str, optional_text};
use vstd::prelude::*;

verus! {

/// REST-based push notification client. Its methods give the HTTP requests to
/// make; what comes back goes to [`registration_result`], [`removal_result`] or
/// [`api_result`].
pub struct PushClient {
    base_url: String,
    token: String,
    app_id: String,
}

/// What a push client was made with.
pub struct PushView {
    pub base_url: Seq<char>,
    pub token: Seq<char>,
    pub app_id: Seq<char>,
}

impl View for PushClient {
    type V = PushView;

    closed spec fn view(&self) -> PushView {
        PushView { base_url: self.base_url@, token: self.token@, app_id: self.app_id@ }
    }
}

/// The client for a server, a token and an app: the server's URL is kept
/// without trailing slashes.
pub open spec fn push_client(
    base_url: Seq<char>,
    token: Seq<char>,
    app_id: Seq<char>,
) -> PushView {
    PushView { base_url: without_trailing_slashes(base_url), token, app_id }
}

/// The HTTP methods that the push API uses.
#[derive(Debug, Clone, Copy, PartialEq, Eq, Structural)]
pub enum Method {
    Post,
    Delete,
}

/// An HTTP request to make.
#[derive(Debug, PartialEq)]
pub struct ApiRequest {
    pub method: Method,
    pub url: String,
    pub authorization: String,
    pub content_type: String,
    pub body: Option<String>,
}

/// The parts of an HTTP request.
pub struct ApiRequestView {
    pub method: Method,
    pub url: Seq<char>,
    pub authorization: Seq<char>,
    pub content_type: Seq<char>,
    pub body: Option<Seq<char>>,
}

impl View for ApiRequest {
    type V = ApiRequestView;

    open spec fn view(&self) -> ApiRequestView {
        ApiRequestView {
            method: self.method,
            url: self.url@,
            authorization: self.authorization@,
            content_type: self.content_type@,
            body: optional_text(self.body),
        }
    }
}

/// The request to `path` with the text of `body`.
pub open spec fn api_request(
    client: PushView,
    method: Method,
    path: Seq<char>,
    body: Option<JsonView>,
) -> ApiRequestView {
    ApiRequestView {
        method,
        url: client.base_url + path,
        authorization: "Bearer "@ + client.token,
        content_type: "application/json"@,
        body: match body {
            Some(body) => Some(value_text(body)),
            None => None,
        },
    }
}

/// `request` is the one to `path` with `body`. A body without floats and not
/// nested too deep is what its text reads back as.
pub open spec fn asks(
    request: ApiRequest,
    client: PushView,
    method: Method,
    path: Seq<char>,
    body: Option<JsonView>,
) -> bool {
    &&& request@ == api_request(client, method, path, body)
    &&& body matches Some(json) ==> reads_back(json, 127) ==> text_reading(request@.body->0)
        == Some(json)
}

/// The body that registers a device of a member.
pub open spec fn registration(
    platform: Seq<char>,
    member_id: Seq<char>,
    device_token: Seq<char>,
) -> JsonView {
    JsonView::Object(
        map![
            "platform"@ => JsonView::Text(platform),
            "memberId"@ => JsonView::Text(member_id),
            "deviceToken"@ => JsonView::Text(device_token),
        ],
    )
}

/// The body that removes a member's subscriptions, on one platform or on all.
pub open spec fn removal(member_id: Seq<char>, platform: Option<Seq<char>>) -> JsonView {
    let members = map!["memberId"@ => JsonView::Text(member_id)];
    JsonView::Object(
        match platform {
            Some(platform) => members.insert("platform"@, JsonView::Text(platform)),
            None => members,
        },
    )
}

/// The body that notifies one member, or all where none is named. A missing
/// notification text is sent as null.
pub open spec fn notification(
    member_id: Option<Seq<char>>,
    title: Seq<char>,
    body: Option<Seq<char>>,
) -> JsonView {
    let members = map![
        "title"@ => JsonView::Text(title),
        "body"@ => match body {
            Some(body) => JsonView::Text(body),
            None => JsonView::Null,
        },
    ];
    JsonView::Object(
        match member_id {
            Some(member_id) => members.insert("memberId"@, JsonView::Text(member_id)),
            None => members,
        },
    )
}

/// Sets the member under `key` to a string.
fn put_text(members: &mut Vec<(String, Json)>, key: &str, text: &str)
    ensures
        members_view(final(members)@) == members_view(old(members)@).insert(
            key@,
            JsonView::Text(text@),
        ),
{
    put_member(members, key, Json::Text(text.to_owned()));
}

/// Builds the body of a registration.
pub fn registration_body(platform: &str, member_id: &str, device_token: &str) -> (body: Json)
    ensures
        body@ == registration(platform@, member_id@, device_token@),
{
    let mut members: Vec<(String, Json)> = Vec::new();
    put_text(&mut members, "platform", platform);
    put_text(&mut members, "memberId", member_id);
    put_text(&mut members, "deviceToken", device_token);
    Json::Object(members)
}

/// Builds the body of a removal.
pub fn removal_body(member_id: &str, platform: Option<&str>) -> (body: Json)
    ensures
        body@ == removal(member_id@, optional_str(platform)),
{
    let mut members: Vec<(String, Json)> = Vec::new();
    put_text(&mut members, "memberId", member_id);
    if let Some(platform) = platform {
        put_text(&mut members, "platform", platform);
    }
    Json::Object(members)
}

/// Builds the body of a notification.
pub fn notification_body(member_id: Option<&str>, title: &str, body: Option<&str>) -> (json: Json)
    ensures
        json@ == notification(optional_str(member_id), title@, optional_str(body)),
{
    let mut members: Vec<(String, Json)> = Vec::new();
    put_text(&mut members, "title", title);
    match body {
        Some(body) => put_text(&mut members, "body", body),
        None => put_member(&mut members, "body", Json::Null),
    }
    if let Some(member_id) = member_id {
        put_text(&mut members, "memberId", member_id);
    }
    Json::Object(members)
}

impl PushClient {
    /// Create a new push notification client.
    pub fn new(base_url: &str, token: &str, app_id: &str) -> (client: PushClient)
        ensures
            client@ == push_client(base_url@, token@, app_id@),
    {
        PushClient {
            base_url: trim_trailing_slashes(base_url),
            token: token.to_owned(),
            app_id: app_id.to_owned(),
        }
    }

    /// The HTTP request for an API call.
    pub fn api(&self, method: Method, path: &str, body: Option<&Json>) -> (request: ApiRequest)
        ensures
            asks(
                request,
                self@,
                method,
                path@,
                crate::inbound::optional_view(body),
            ),
    {
        let url = self.base_url.clone().concat(path);
        let authorization = "Bearer ".to_owned().concat(self.token.as_str());
        ApiRequest {
            method,
            url,
            authorization,
            content_type: "application/json".to_owned(),
            body: match body {
                Some(body) => Some(body.to_text()),
                None => None,
            },
        }
    }

    /// Register an FCM device token (Android).
    pub fn register_fcm(&self, device_token: &str, member_id: &str) -> (request: ApiRequest)
        ensures
            asks(
                request,
                self@,
                Method::Post,
                "/api/push/register"@,
                Some(registration("fcm"@, member_id@, device_token@)),
            ),
    {
        let body = registration_body("fcm", member_id, device_token);
        self.api(Method::Post, "/api/push/register", Some(&body))
    }

    /// Register an APNs device token (iOS).
    pub fn register_apns(&self, device_token: &str, member_id: &str) -> (request: ApiRequest)
        ensures
            asks(
                request,
                self@,
                Method::Post,
                "/api/push/register"@,
                Some(registration("apns"@, member_id@, device_token@)),
            ),
    {
        let body = registration_body("apns", member_id, device_token);
        self.api(Method::Post, "/api/push/register", Some(&body))
    }

    /// Unregister push subscriptions for a member.
    pub fn unregister(&self, member_id: &str, platform: Option<&str>) -> (request: ApiRequest)
        ensures
            asks(
                request,
                self@,
                Method::Delete,
                "/api/push/unregister"@,
                Some(removal(member_id@, optional_str(platform))),
            ),
    {
        let body = removal_body(member_id, platform);
        self.api(Method::Delete, "/api/push/unregister", Some(&body))
    }

    /// Send a push notification to a specific member.
    pub fn send_to_member(&self, member_id: &str, title: &str, body: Option<&str>) -> (request:
        ApiRequest)
        ensures
            asks(
                request,
                self@,
                Method::Post,
                "/api/push/send"@,
                Some(notification(Some(member_id@), title@, optional_str(body))),
            ),
    {
        let body = notification_body(Some(member_id), title, body);
        self.api(Method::Post, "/api/push/send", Some(&body))
    }

    /// Broadcast a push notification to all app subscribers.
    pub fn broadcast(&self, title: &str, body: Option<&str>) -> (request: ApiRequest)
        ensures
            asks(
                request,
                self@,
                Method::Post,
                "/api/push/broadcast"@,
                Some(notification(None, title@, optional_str(body))),
            ),
    {
        let body = notification_body(None, title, body);
        self.api(Method::Post, "/api/push/broadcast", Some(&body))
    }
}

/// Why an API call failed.
#[derive(Debug)]
pub enum PushError {
    /// The server refused; this is the message that says so.
    Api(String),
    /// The server's answer is not JSON.
    Json(serde_json::Error),
}

/// The HTTP statuses that mean success.
pub open spec fn is_success(status: u16) -> bool {
    200 <= status < 300
}

/// The message for a refused request.
pub open spec fn refusal(status: u16, text: Seq<char>) -> Seq<char> {
    "Push API error "@ + decimal(status as nat) + ": "@ + text
}

/// `error` is what an HTTP answer with this status and text fails with.
pub open spec fn fails(error: PushError, status: u16, text: Seq<char>) -> bool {
    match error {
        PushError::Api(message) => !is_success(status) && message@ == refusal(status, text),
        PushError::Json(_) => is_success(status) && text_reading(text) is None,
    }
}

/// What the server answered to an API call.
pub fn api_result(status: u16, text: &str) -> (result: Result<Json, PushError>)
    ensures
        match result {
            Ok(json) => is_success(status) && text_reading(text@) == Some(json@),
            Err(error) => fails(error, status, text@),
        },
{
    if !(200 <= status && status < 300) {
        let message = "Push API error ".to_owned().concat(decimal_text(status).as_str()).concat(
            ": ",
        ).concat(text);
        return Err(PushError::Api(message));
    }
    match Json::parse(text) {
        Ok(json) => Ok(json),
        Err(error) => Err(PushError::Json(error)),
    }
}

/// The subscription id in the answer to a registration; empty where there is none.
pub fn subscription_id(answer: &Json) -> (id: String)
    ensures
        id@ == text_at(answer@, "subscriptionId"@, Seq::empty()),
{
    proof {
        reveal_strlit("");
        assert(""@ =~= Seq::empty());
    }
    text_member(answer, "subscriptionId", "")
}

/// The number of subscriptions that a removal took out; zero where it is not told.
pub fn removed_count(answer: &Json) -> (count: u64)
    ensures
        count == number_at(answer@, "removed"@),
{
    number_member(answer, "removed")
}

/// The subscription id that a registration got.
pub fn registration_result(status: u16, text: &str) -> (result: Result<String, PushError>)
    ensures
        match result {
            Ok(id) => is_success(status) && (text_reading(text@) matches Some(answer) && id@
                == text_at(answer, "subscriptionId"@, Seq::empty())),
            Err(error) => fails(error, status, text@),
        },
{
    match api_result(status, text) {
        Ok(answer) => Ok(subscription_id(&answer)),
        Err(error) => Err(error),
    }
}

/// The number of subscriptions that a removal took out.
pub fn removal_result(status: u16, text: &str) -> (result: Result<u64, PushError>)
    ensures
        match result {
            Ok(count) => is_success(status) && (text_reading(text@) matches Some(answer) && count
                == number_at(answer, "removed"@)),
            Err(error) => fails(error, status, text@),
        },
{
    match api_result(status, text) {
        Ok(answer) => Ok(removed_count(&answer)),
        Err(error) => Err(error),
    }
}

} // verus!
