//! The requests that the client sends, as JSON values.

use crate::codec::{reads_back, text_reading, value_text};
use crate::json::{put_member, Json, JsonView};
use crate::types::{optional_str, HistoryOptions, HistoryOptionsView};
use vstd::prelude::*;

verus! {

/// The members that every request on a channel has.
pub open spec fn channel_members(action: Seq<char>, channel: Seq<char>) -> Map<
    Seq<char>,
    JsonView,
> {
    map!["action"@ => JsonView::Text(action), "channel"@ => JsonView::Text(channel)]
}

/// `members` with `value` under `key` if there is one.
pub open spec fn with_optional(
    members: Map<Seq<char>, JsonView>,
    key: Seq<char>,
    value: Option<JsonView>,
) -> Map<Seq<char>, JsonView> {
    match value {
        Some(value) => members.insert(key, value),
        None => members,
    }
}

/// The request for a presence action, with `data` if the action has any.
pub open spec fn presence_message(
    action: Seq<char>,
    channel: Seq<char>,
    data: Option<JsonView>,
) -> JsonView {
    JsonView::Object(with_optional(channel_members(action, channel), "data"@, data))
}

/// The request to subscribe; `rewind` is mentioned only above zero.
pub open spec fn subscribe_message(channel: Seq<char>, rewind: u32) -> JsonView {
    let rewind_value = if rewind > 0 {
        Some(JsonView::Integer(rewind as int))
    } else {
        None
    };
    JsonView::Object(
        with_optional(channel_members("subscribe"@, channel), "rewind"@, rewind_value),
    )
}

/// The request to unsubscribe.
pub open spec fn unsubscribe_message(channel: Seq<char>) -> JsonView {
    JsonView::Object(channel_members("unsubscribe"@, channel))
}

/// The request to publish `data` under the message id `id`; `persist` is
/// mentioned only when it is off.
pub open spec fn publish_message(
    channel: Seq<char>,
    data: JsonView,
    id: Seq<char>,
    persist: bool,
) -> JsonView {
    let members = channel_members("publish"@, channel).insert("data"@, data).insert(
        "id"@,
        JsonView::Text(id),
    );
    JsonView::Object(
        if persist {
            members
        } else {
            members.insert("persist"@, JsonView::Bool(false))
        },
    )
}

/// The history query; only the options that are set are mentioned.
pub open spec fn history_message(channel: Seq<char>, options: HistoryOptionsView) -> JsonView {
    let members = channel_members("history"@, channel);
    let members = with_optional(
        members,
        "limit"@,
        match options.limit {
            Some(limit) => Some(JsonView::Integer(limit as int)),
            None => None,
        },
    );
    let members = with_optional(
        members,
        "before"@,
        match options.before {
            Some(before) => Some(JsonView::Integer(before as int)),
            None => None,
        },
    );
    let members = with_optional(
        members,
        "after"@,
        match options.after {
            Some(after) => Some(JsonView::Integer(after as int)),
            None => None,
        },
    );
    JsonView::Object(
        with_optional(
            members,
            "direction"@,
            match options.direction {
                Some(direction) => Some(JsonView::Text(direction)),
                None => None,
            },
        ),
    )
}

/// The request for the messages that were missed while there was no connection.
///
/// Its form rests on what the server is known to send: it acknowledges a
/// resumption under the id `resume`, with a `resumeToken` for the next one, and
/// each of its messages carries a `timestamp`. The request presents, under the
/// same names, the token, if there is one yet, and the latest timestamp. Nothing
/// else fixes the form, nor how the missed messages come; they are taken in as
/// the messages that they are.
pub open spec fn resume_message(token: Option<Seq<char>>, last_message_ts: u64) -> JsonView {
    let members = map![
        "action"@ => JsonView::Text("resume"@),
        "id"@ => JsonView::Text("resume"@),
        "timestamp"@ => JsonView::Integer(last_message_ts as int),
    ];
    JsonView::Object(
        with_optional(
            members,
            "resumeToken"@,
            match token {
                Some(token) => Some(JsonView::Text(token)),
                None => None,
            },
        ),
    )
}

/// The ping that keeps a connection alive.
pub open spec fn ping_message() -> JsonView {
    JsonView::Object(map!["action"@ => JsonView::Text("ping"@)])
}

/// What goes out for `message`: its text while the client is connected, and
/// otherwise nothing. A message without floats and not nested too deep is what
/// the text reads back as.
pub open spec fn sends(frame: Option<String>, connected: bool, message: JsonView) -> bool {
    match frame {
        Some(text) => {
            &&& connected
            &&& text@ == value_text(message)
            &&& reads_back(message, 127) ==> text_reading(text@) == Some(message)
        },
        None => !connected,
    }
}

/// The text of a request, if there is a connection to send it on.
pub(crate) fn frame_of(request: &Json, connected: bool) -> (frame: Option<String>)
    ensures
        sends(frame, connected, request@),
{
    if connected {
        Some(request.to_text())
    } else {
        None
    }
}

/// A JSON string.
fn text(content: &str) -> (json: Json)
    ensures
        json@ == JsonView::Text(content@),
{
    Json::Text(content.to_owned())
}

/// The members that every request on a channel has.
fn start_request(action: &str, channel: &str) -> (members: Vec<(String, Json)>)
    ensures
        crate::json::members_view(members@) == channel_members(action@, channel@),
{
    let mut members: Vec<(String, Json)> = Vec::new();
    put_member(&mut members, "action", text(action));
    put_member(&mut members, "channel", text(channel));
    members
}

/// Builds the request for a presence action.
pub fn presence_request(action: &str, channel: &str, data: Option<Json>) -> (request: Json)
    ensures
        request@ == presence_message(
            action@,
            channel@,
            match data {
                Some(data) => Some(data@),
                None => None,
            },
        ),
{
    let mut members = start_request(action, channel);
    if let Some(data) = data {
        put_member(&mut members, "data", data);
    }
    Json::Object(members)
}

/// Builds the request to subscribe.
pub fn subscribe_request(channel: &str, rewind: u32) -> (request: Json)
    ensures
        request@ == subscribe_message(channel@, rewind),
{
    let mut members = start_request("subscribe", channel);
    if rewind > 0 {
        put_member(&mut members, "rewind", Json::Uint(rewind as u64));
    }
    Json::Object(members)
}

/// Builds the request to unsubscribe.
pub fn unsubscribe_request(channel: &str) -> (request: Json)
    ensures
        request@ == unsubscribe_message(channel@),
{
    Json::Object(start_request("unsubscribe", channel))
}

/// Builds the request to publish.
pub fn publish_request(channel: &str, data: Json, id: &str, persist: bool) -> (request: Json)
    ensures
        request@ == publish_message(channel@, data@, id@, persist),
{
    let mut members = start_request("publish", channel);
    put_member(&mut members, "data", data);
    put_member(&mut members, "id", text(id));
    if !persist {
        put_member(&mut members, "persist", Json::Bool(false));
    }
    Json::Object(members)
}

/// Builds the history query.
pub fn history_request(channel: &str, options: &HistoryOptions) -> (request: Json)
    ensures
        request@ == history_message(channel@, options@),
{
    let mut members = start_request("history", channel);
    if let Some(limit) = options.limit {
        put_member(&mut members, "limit", Json::Uint(limit as u64));
    }
    if let Some(before) = options.before {
        put_member(&mut members, "before", Json::Uint(before));
    }
    if let Some(after) = options.after {
        put_member(&mut members, "after", Json::Uint(after));
    }
    if let Some(direction) = &options.direction {
        put_member(&mut members, "direction", text(direction.as_str()));
    }
    Json::Object(members)
}

/// Builds the ping.
pub fn ping_request() -> (request: Json)
    ensures
        request@ == ping_message(),
{
    let mut members: Vec<(String, Json)> = Vec::new();
    put_member(&mut members, "action", text("ping"));
    Json::Object(members)
}

/// Builds the request for the messages that were missed.
pub fn resume_request(token: Option<&str>, last_message_ts: u64) -> (request: Json)
    ensures
        request@ == resume_message(optional_str(token), last_message_ts),
{
    let mut members: Vec<(String, Json)> = Vec::new();
    put_member(&mut members, "action", text("resume"));
    put_member(&mut members, "id", text("resume"));
    put_member(&mut members, "timestamp", Json::Uint(last_message_ts));
    if let Some(token) = token {
        put_member(&mut members, "resumeToken", text(token));
    }
    Json::Object(members)
}

} // verus!
