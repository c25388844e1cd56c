//! What the push requests are, part by part, and what their answers give.

use crate::codec::{reads_back, text_reading, value_text};
use crate::json::{Json, JsonView};
use crate::laws::outgoing::lemma_wire_names;
use crate::laws::values::{is_notation, lemma_decimal, members_of, reads_number, reads_text};
use crate::push::{
    api_result, notification, notification_body, registration, registration_body,
    registration_result, removal, removal_body, removal_result, removed_count, subscription_id,
    ApiRequest, Method, PushClient, PushError,
};
use crate::types::optional_str;
use vstd::prelude::*;

verus! {

// The bodies.

/// The body of a notification has the title under `title`, under `body` the
/// text where one is given and null otherwise, and the member under `memberId`
/// just where one is named; it has no other member.
pub proof fn law_notification_members(
    member_id: Option<&str>,
    title: &str,
    body: Option<&str>,
    json: Json,
)
    requires
        call_ensures(notification_body, (member_id, title, body), json),
    ensures
        json@ matches JsonView::Object(members) && {
            &&& members["title"@] == JsonView::Text(title@)
            &&& body matches Some(text) ==> members["body"@] == JsonView::Text(text@)
            &&& body is None ==> members["body"@] == JsonView::Null
            &&& member_id matches Some(id) ==> members["memberId"@] == JsonView::Text(id@)
            &&& forall|key: Seq<char>| #[trigger]
                members.contains_key(key) <==> (key == "title"@ || key == "body"@ || (key
                    == "memberId"@ && member_id is Some))
        },
{
    lemma_wire_names();
}

/// The body of a registration has the platform, the member and the device token
/// under their names, each as it is given, and nothing else.
pub proof fn law_registration_members(
    platform: &str,
    member_id: &str,
    device_token: &str,
    json: Json,
)
    requires
        call_ensures(registration_body, (platform, member_id, device_token), json),
    ensures
        json@ matches JsonView::Object(members) && {
            &&& members["platform"@] == JsonView::Text(platform@)
            &&& members["memberId"@] == JsonView::Text(member_id@)
            &&& members["deviceToken"@] == JsonView::Text(device_token@)
            &&& forall|key: Seq<char>| #[trigger]
                members.contains_key(key) <==> (key == "platform"@ || key == "memberId"@ || key
                    == "deviceToken"@)
        },
{
    lemma_wire_names();
}

/// The body of a removal has the member under `memberId`, and the platform under
/// `platform` just where one is named; it has no other member.
pub proof fn law_removal_members(member_id: &str, platform: Option<&str>, json: Json)
    requires
        call_ensures(removal_body, (member_id, platform), json),
    ensures
        json@ matches JsonView::Object(members) && {
            &&& members["memberId"@] == JsonView::Text(member_id@)
            &&& platform matches Some(name) ==> members["platform"@] == JsonView::Text(name@)
            &&& forall|key: Seq<char>| #[trigger]
                members.contains_key(key) <==> (key == "memberId"@ || (key == "platform"@
                    && platform is Some))
        },
{
    lemma_wire_names();
}

// The requests.

/// The client keeps the token and the app as they are given, and the URL up to
/// slashes at its end.
pub proof fn law_push_client_keeps(
    base_url: &str,
    token: &str,
    app_id: &str,
    client: PushClient,
)
    requires
        call_ensures(PushClient::new, (base_url, token, app_id), client),
    ensures
        client@.token == token@,
        client@.app_id == app_id@,
        client@.base_url.len() > 0 ==> client@.base_url.last() != '/',
        client@.base_url.is_prefix_of(base_url@),
        forall|i: int| client@.base_url.len() <= i < base_url@.len() ==> base_url@[i] == '/',
{
    crate::laws::law_push_url(base_url@, token@, app_id@);
}

/// The request goes by this method to this path under the client's URL, bears
/// the client's token, and has the text of an object with these members as its
/// JSON body. An object without floats and not nested too deep is what the text
/// is read as.
pub open spec fn is_request(
    request: ApiRequest,
    client: PushClient,
    method: Method,
    path: Seq<char>,
    members: Map<Seq<char>, JsonView>,
) -> bool {
    &&& request.method == method
    &&& request.url@ == client@.base_url + path
    &&& request.authorization@ == "Bearer "@ + client@.token
    &&& request.content_type@ == "application/json"@
    &&& request.body matches Some(text) && {
        &&& text@ == value_text(JsonView::Object(members))
        &&& reads_back(JsonView::Object(members), 127) ==> text_reading(text@) == Some(
            JsonView::Object(members),
        )
    }
}

/// Any API call goes by its method to its path under the client's URL, bears
/// the client's token, and has the text of its body just where it has one.
pub proof fn law_api_request(
    client: PushClient,
    method: Method,
    path: &str,
    body: Option<&Json>,
    request: ApiRequest,
)
    requires
        call_ensures(PushClient::api, (&client, method, path, body), request),
    ensures
        request.method == method,
        request.url@ == client@.base_url + path@,
        request.authorization@ == "Bearer "@ + client@.token,
        request.content_type@ == "application/json"@,
        request.body is Some <==> body is Some,
        body matches Some(json) ==> request.body->0@ == value_text(json@) && (reads_back(
            json@,
            127,
        ) ==> text_reading(request.body->0@) == Some(json@)),
{
}

/// Registering a device posts its token, its member and its platform, which is
/// `fcm` or `apns` as the device is of the one or the other kind.
pub proof fn law_register_request(
    client: PushClient,
    device_token: &str,
    member_id: &str,
    fcm: ApiRequest,
    apns: ApiRequest,
) -> (sent: (Map<Seq<char>, JsonView>, Map<Seq<char>, JsonView>))
    requires
        call_ensures(PushClient::register_fcm, (&client, device_token, member_id), fcm),
        call_ensures(PushClient::register_apns, (&client, device_token, member_id), apns),
    ensures
        is_request(fcm, client, Method::Post, "/api/push/register"@, sent.0),
        is_request(apns, client, Method::Post, "/api/push/register"@, sent.1),
        sent.0["platform"@] == JsonView::Text("fcm"@),
        sent.1["platform"@] == JsonView::Text("apns"@),
        sent.0["memberId"@] == JsonView::Text(member_id@),
        sent.1["memberId"@] == JsonView::Text(member_id@),
        sent.0["deviceToken"@] == JsonView::Text(device_token@),
        sent.1["deviceToken"@] == JsonView::Text(device_token@),
        forall|key: Seq<char>| #[trigger]
            sent.0.contains_key(key) <==> (key == "platform"@ || key == "memberId"@ || key
                == "deviceToken"@),
        forall|key: Seq<char>| #[trigger]
            sent.1.contains_key(key) <==> (key == "platform"@ || key == "memberId"@ || key
                == "deviceToken"@),
{
    lemma_wire_names();
    (
        registration("fcm"@, member_id@, device_token@)->Object_0,
        registration("apns"@, member_id@, device_token@)->Object_0,
    )
}

/// Unregistering deletes what a member has, on one platform where one is named.
pub proof fn law_unregister_request(
    client: PushClient,
    member_id: &str,
    platform: Option<&str>,
    request: ApiRequest,
) -> (members: Map<Seq<char>, JsonView>)
    requires
        call_ensures(PushClient::unregister, (&client, member_id, platform), request),
    ensures
        is_request(request, client, Method::Delete, "/api/push/unregister"@, members),
        members["memberId"@] == JsonView::Text(member_id@),
        platform matches Some(name) ==> members["platform"@] == JsonView::Text(name@),
        forall|key: Seq<char>| #[trigger]
            members.contains_key(key) <==> (key == "memberId"@ || (key == "platform"@
                && platform is Some)),
{
    lemma_wire_names();
    removal(member_id@, optional_str(platform))->Object_0
}

/// Notifying a member posts the member, the title, and the text or null where
/// none is given.
pub proof fn law_send_request(
    client: PushClient,
    member_id: &str,
    title: &str,
    body: Option<&str>,
    request: ApiRequest,
) -> (members: Map<Seq<char>, JsonView>)
    requires
        call_ensures(PushClient::send_to_member, (&client, member_id, title, body), request),
    ensures
        is_request(request, client, Method::Post, "/api/push/send"@, members),
        members["memberId"@] == JsonView::Text(member_id@),
        members["title"@] == JsonView::Text(title@),
        body matches Some(text) ==> members["body"@] == JsonView::Text(text@),
        body is None ==> members["body"@] == JsonView::Null,
        forall|key: Seq<char>| #[trigger]
            members.contains_key(key) <==> (key == "memberId"@ || key == "title"@ || key
                == "body"@),
{
    lemma_wire_names();
    notification(Some(member_id@), title@, optional_str(body))->Object_0
}

/// A broadcast posts the title, and the text or null where none is given.
pub proof fn law_broadcast_request(
    client: PushClient,
    title: &str,
    body: Option<&str>,
    request: ApiRequest,
) -> (members: Map<Seq<char>, JsonView>)
    requires
        call_ensures(PushClient::broadcast, (&client, title, body), request),
    ensures
        is_request(request, client, Method::Post, "/api/push/broadcast"@, members),
        members["title"@] == JsonView::Text(title@),
        body matches Some(text) ==> members["body"@] == JsonView::Text(text@),
        body is None ==> members["body"@] == JsonView::Null,
        forall|key: Seq<char>| #[trigger]
            members.contains_key(key) <==> (key == "title"@ || key == "body"@),
{
    lemma_wire_names();
    notification(None, title@, optional_str(body))->Object_0
}

// The answers.

/// `error` is the refusal with this status and text: the status in its usual
/// decimal notation, and the text as it came.
pub open spec fn is_refusal(
    error: PushError,
    status: u16,
    text: Seq<char>,
    digits: Seq<char>,
) -> bool {
    &&& is_notation(digits, status as int)
    &&& error matches PushError::Api(message) && message@ == "Push API error "@ + digits + ": "@
        + text
}

/// An answer with a status from 200 up to 299 gives what its text reads as, or
/// says that it cannot be read; any other is a refusal, whatever its text.
pub proof fn law_api_answer(
    status: u16,
    text: &str,
    result: Result<Json, PushError>,
) -> (digits: Seq<char>)
    requires
        call_ensures(api_result, (status, text), result),
    ensures
        !(200 <= status <= 299) ==> (result matches Err(error) && is_refusal(
            error,
            status,
            text@,
            digits,
        )),
        200 <= status <= 299 && text_reading(text@) is None ==> (result matches Err(error)
            && error is Json),
        200 <= status <= 299 && text_reading(text@) is Some ==> (result matches Ok(json)
            && text_reading(text@) == Some(json@)),
{
    lemma_decimal(status as nat);
    crate::text::decimal(status as nat)
}

/// The answer to a registration gives the text under `subscriptionId`, or the
/// empty one where none stands there; it fails as any answer does.
pub proof fn law_registration_answer(
    status: u16,
    text: &str,
    result: Result<String, PushError>,
) -> (digits: Seq<char>)
    requires
        call_ensures(registration_result, (status, text), result),
    ensures
        !(200 <= status <= 299) ==> (result matches Err(error) && is_refusal(
            error,
            status,
            text@,
            digits,
        )),
        200 <= status <= 299 && text_reading(text@) is None ==> (result matches Err(error)
            && error is Json),
        200 <= status <= 299 && text_reading(text@) is Some ==> (result matches Ok(id)
            && reads_text(
            members_of(text_reading(text@)->0),
            "subscriptionId"@,
            Seq::empty(),
            id@,
        )),
{
    lemma_decimal(status as nat);
    crate::text::decimal(status as nat)
}

/// The answer to a removal gives the number under `removed`, or zero where none
/// stands there; it fails as any answer does.
pub proof fn law_removal_answer(
    status: u16,
    text: &str,
    result: Result<u64, PushError>,
) -> (digits: Seq<char>)
    requires
        call_ensures(removal_result, (status, text), result),
    ensures
        !(200 <= status <= 299) ==> (result matches Err(error) && is_refusal(
            error,
            status,
            text@,
            digits,
        )),
        200 <= status <= 299 && text_reading(text@) is None ==> (result matches Err(error)
            && error is Json),
        200 <= status <= 299 && text_reading(text@) is Some ==> (result matches Ok(count)
            && reads_number(members_of(text_reading(text@)->0), "removed"@, count)),
{
    lemma_decimal(status as nat);
    crate::text::decimal(status as nat)
}

/// What an answer says of a subscription id and of a number of removals.
pub proof fn law_answer_members(answer: Json, id: String, count: u64)
    requires
        call_ensures(subscription_id, (&answer,), id),
        call_ensures(removed_count, (&answer,), count),
    ensures
        reads_text(members_of(answer@), "subscriptionId"@, Seq::empty(), id@),
        reads_number(members_of(answer@), "removed"@, count),
{
}

} // verus!
