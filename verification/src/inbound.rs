//! Reading what the server sends.

use crate::json::{items_view, json_view, Json, JsonView};
use crate::types::{
    default_member, HistoryMessage, HistoryMessageView, HistoryResult, HistoryResultView,
    PresenceMember, PresenceMemberView,
};
use vstd::prelude::*;

verus! {

/// The string under `key`, or `default` where there is none.
pub open spec fn text_at(value: JsonView, key: Seq<char>, default: Seq<char>) -> Seq<char> {
    match value.get(key) {
        Some(member) => match member.as_str() {
            Some(text) => text,
            None => default,
        },
        None => default,
    }
}

/// The `u64` under `key`, or zero where there is none.
pub open spec fn number_at(value: JsonView, key: Seq<char>) -> u64 {
    match value.get(key) {
        Some(member) => match member.as_u64() {
            Some(number) => number,
            None => 0,
        },
        None => 0,
    }
}

/// The boolean under `key`, or false where there is none.
pub open spec fn flag_at(value: JsonView, key: Seq<char>) -> bool {
    match value.get(key) {
        Some(member) => member.as_bool() == Some(true),
        None => false,
    }
}

/// What stands under `data`, or null where nothing does.
pub open spec fn data_at(value: JsonView) -> JsonView {
    match value.get("data"@) {
        Some(data) => data,
        None => JsonView::Null,
    }
}

/// Reads the string under `key`.
pub(crate) fn text_member(value: &Json, key: &str, default: &str) -> (text: String)
    ensures
        text@ == text_at(value@, key@, default@),
{
    match value.get(key) {
        Some(member) => match member.as_str() {
            Some(text) => text.to_owned(),
            None => default.to_owned(),
        },
        None => default.to_owned(),
    }
}

/// Reads the `u64` under `key`.
pub(crate) fn number_member(value: &Json, key: &str) -> (number: u64)
    ensures
        number == number_at(value@, key@),
{
    match value.get(key) {
        Some(member) => match member.as_u64() {
            Some(number) => number,
            None => 0,
        },
        None => 0,
    }
}

/// Reads the boolean under `key`.
pub(crate) fn flag_member(value: &Json, key: &str) -> (flag: bool)
    ensures
        flag == flag_at(value@, key@),
{
    match value.get(key) {
        Some(member) => match member.as_bool() {
            Some(flag) => flag,
            None => false,
        },
        None => false,
    }
}

/// Copies what stands under `data`.
pub(crate) fn data_member(value: &Json) -> (data: Json)
    ensures
        data@ == data_at(value@),
{
    match value.get("data") {
        Some(data) => data.clone(),
        None => Json::Null,
    }
}

/// A member out of its three fields. A field that is missing has its default;
/// one of the wrong type fails the whole.
pub open spec fn member_of_fields(
    client_id: Option<JsonView>,
    data: Option<JsonView>,
    joined_at: Option<JsonView>,
) -> Option<PresenceMemberView> {
    let client_id = match client_id {
        Some(value) => value.as_str(),
        None => Some(Seq::empty()),
    };
    let joined_at = match joined_at {
        Some(value) => value.as_u64(),
        None => Some(0u64),
    };
    match (client_id, joined_at) {
        (Some(client_id), Some(joined_at)) => Some(
            PresenceMemberView {
                client_id,
                data: match data {
                    Some(data) => data,
                    None => JsonView::Null,
                },
                joined_at,
            },
        ),
        _ => None,
    }
}

/// The item at `i`, of a sequence that is long enough.
pub open spec fn item_at(items: Seq<JsonView>, i: int) -> Option<JsonView> {
    if 0 <= i < items.len() {
        Some(items[i])
    } else {
        None
    }
}

/// A member as an object with the members `clientId`, `data` and `joinedAt`, or
/// as an array of those three in that order.
pub open spec fn decoded_member(value: JsonView) -> Option<PresenceMemberView> {
    match value {
        JsonView::Object(_) => member_of_fields(
            value.get("clientId"@),
            value.get("data"@),
            value.get("joinedAt"@),
        ),
        JsonView::Array(items) if items.len() <= 3 => member_of_fields(
            item_at(items, 0),
            item_at(items, 1),
            item_at(items, 2),
        ),
        _ => None,
    }
}

/// The member that `data` stands for: the default one where it is missing or
/// does not have the form of a member.
pub open spec fn presence_member(data: Option<JsonView>) -> PresenceMemberView {
    match data {
        Some(value) => match decoded_member(value) {
            Some(member) => member,
            None => default_member(),
        },
        None => default_member(),
    }
}

/// The view of a value that may be missing.
pub open spec fn optional_view(value: Option<&Json>) -> Option<JsonView> {
    match value {
        Some(value) => Some(value@),
        None => None,
    }
}

/// Reads a member out of its three fields.
fn take_member(client_id: Option<&Json>, data: Option<&Json>, joined_at: Option<&Json>) -> (member:
    Option<PresenceMember>)
    ensures
        match member {
            Some(member) => member_of_fields(
                optional_view(client_id),
                optional_view(data),
                optional_view(joined_at),
            ) == Some(member@),
            None => member_of_fields(
                optional_view(client_id),
                optional_view(data),
                optional_view(joined_at),
            ) is None,
        },
{
    let client_id = match client_id {
        Some(value) => match value.as_str() {
            Some(text) => text.to_owned(),
            None => return None,
        },
        None => String::new(),
    };
    let joined_at: u64 = match joined_at {
        Some(value) => match value.as_u64() {
            Some(number) => number,
            None => return None,
        },
        None => 0,
    };
    let data = match data {
        Some(value) => value.clone(),
        None => Json::Null,
    };
    Some(PresenceMember { client_id, data, joined_at })
}

/// The item at `i`, if there is one.
fn item(items: &Vec<Json>, i: usize) -> (found: Option<&Json>)
    ensures
        optional_view(found) == item_at(items_view(items@), i as int),
{
    if i < items.len() {
        Some(&items[i])
    } else {
        None
    }
}

/// Reads a presence member.
pub fn parse_presence_member(data: Option<&Json>) -> (member: PresenceMember)
    ensures
        member@ == presence_member(optional_view(data)),
{
    let decoded = match data {
        Some(value) => match value {
            Json::Object(_) => take_member(
                value.get("clientId"),
                value.get("data"),
                value.get("joinedAt"),
            ),
            Json::Array(items) => if items.len() <= 3 {
                take_member(item(items, 0), item(items, 1), item(items, 2))
            } else {
                None
            },
            _ => None,
        },
        None => None,
    };
    match decoded {
        Some(member) => member,
        None => PresenceMember::default(),
    }
}

/// The members that an array of them stands for; none where it is not an array.
pub open spec fn presence_members(data: Option<JsonView>) -> Seq<PresenceMemberView> {
    match data {
        Some(JsonView::Array(items)) => items.map_values(
            |item: JsonView| presence_member(Some(item)),
        ),
        _ => Seq::empty(),
    }
}

/// Reads a list of presence members.
pub fn parse_presence_members(data: Option<&Json>) -> (members: Vec<PresenceMember>)
    ensures
        members.deep_view() == presence_members(optional_view(data)),
{
    let mut members: Vec<PresenceMember> = Vec::new();
    if let Some(Json::Array(items)) = data {
        for i in 0..items.len()
            invariant
                members@.len() == i,
                forall|j: int|
                    0 <= j < i ==> (#[trigger] members@[j])@ == presence_member(
                        Some(json_view(items@[j])),
                    ),
        {
            members.push(parse_presence_member(Some(&items[i])));
        }
    }
    assert(members.deep_view() =~= presence_members(optional_view(data)));
    members
}

/// A message of a history answer; it belongs to `channel` unless it names another.
pub open spec fn history_entry(value: JsonView, channel: Seq<char>) -> HistoryMessageView {
    HistoryMessageView {
        id: text_at(value, "id"@, Seq::empty()),
        channel: text_at(value, "channel"@, channel),
        data: data_at(value),
        publisher_id: text_at(value, "publisherId"@, Seq::empty()),
        timestamp: number_at(value, "timestamp"@),
        sequence: number_at(value, "sequence"@),
    }
}

/// The history answer in a frame on `channel`; it is for `channel` unless it
/// names another.
pub open spec fn history_answer(data: Option<JsonView>, channel: Seq<char>) -> HistoryResultView {
    match data {
        Some(value) => HistoryResultView {
            channel: text_at(value, "channel"@, channel),
            messages: match value.get("messages"@) {
                Some(JsonView::Array(items)) => items.map_values(
                    |item: JsonView| history_entry(item, channel),
                ),
                _ => Seq::empty(),
            },
            has_more: flag_at(value, "hasMore"@),
        },
        None => HistoryResultView { channel, messages: Seq::empty(), has_more: false },
    }
}

/// Reads a history answer.
pub fn parse_history_result(data: Option<&Json>, channel: &str) -> (result: HistoryResult)
    ensures
        result@ == history_answer(optional_view(data), channel@),
{
    let mut result = HistoryResult {
        channel: channel.to_owned(),
        messages: Vec::new(),
        has_more: false,
    };
    if let Some(value) = data {
        result.channel = text_member(value, "channel", channel);
        result.has_more = flag_member(value, "hasMore");
        if let Some(messages) = value.get("messages") {
            if let Some(items) = messages.as_array() {
                let mut taken: Vec<HistoryMessage> = Vec::new();
                for i in 0..items.len()
                    invariant
                        taken@.len() == i,
                        forall|j: int|
                            0 <= j < i ==> (#[trigger] taken@[j])@ == history_entry(
                                json_view(items@[j]),
                                channel@,
                            ),
                {
                    let message = &items[i];
                    proof {
                        reveal_strlit("");
                        assert(""@ =~= Seq::empty());
                    }
                    taken.push(
                        HistoryMessage {
                            id: text_member(message, "id", ""),
                            channel: text_member(message, "channel", channel),
                            data: data_member(message),
                            publisher_id: text_member(message, "publisherId", ""),
                            timestamp: number_member(message, "timestamp"),
                            sequence: number_member(message, "sequence"),
                        },
                    );
                }
                result.messages = taken;
            }
        }
    }
    assert(result@.messages =~= history_answer(optional_view(data), channel@).messages);
    result
}

} // verus!
