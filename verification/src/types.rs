//! What goes to and comes from users of the client.

use crate::json::{Json, JsonView};
use vstd::prelude::*;

verus! {

/// What comes along with a published message.
#[derive(Debug, PartialEq)]
pub struct MessageMeta {
    pub id: String,
    pub channel: String,
    pub timestamp: u64,
}

/// A message as it is handed to the subscribers of its channel.
#[derive(Debug, PartialEq)]
pub struct Message {
    pub data: Json,
    pub meta: MessageMeta,
}

/// A client in a channel's presence set.
#[derive(Debug, PartialEq)]
pub struct PresenceMember {
    pub client_id: String,
    pub data: Json,
    pub joined_at: u64,
}

/// A message out of a channel's history.
#[derive(Debug, PartialEq)]
pub struct HistoryMessage {
    pub id: String,
    pub channel: String,
    pub data: Json,
    pub publisher_id: String,
    pub timestamp: u64,
    pub sequence: u64,
}

/// The answer to a history query.
#[derive(Debug, PartialEq)]
pub struct HistoryResult {
    pub channel: String,
    pub messages: Vec<HistoryMessage>,
    pub has_more: bool,
}

/// What part of a channel's history to ask for; what is `None` is not mentioned
/// in the query.
#[derive(Debug, PartialEq)]
pub struct HistoryOptions {
    pub limit: Option<u32>,
    pub before: Option<u64>,
    pub after: Option<u64>,
    pub direction: Option<String>,
}

/// The fields of a push notification.
#[derive(Debug, PartialEq)]
pub struct PushPayload {
    pub title: String,
    pub body: Option<String>,
    pub icon: Option<String>,
    pub url: Option<String>,
    pub data: Option<Json>,
}

pub struct MessageMetaView {
    pub id: Seq<char>,
    pub channel: Seq<char>,
    pub timestamp: u64,
}

pub struct MessageView {
    pub data: JsonView,
    pub meta: MessageMetaView,
}

pub struct PresenceMemberView {
    pub client_id: Seq<char>,
    pub data: JsonView,
    pub joined_at: u64,
}

pub struct HistoryMessageView {
    pub id: Seq<char>,
    pub channel: Seq<char>,
    pub data: JsonView,
    pub publisher_id: Seq<char>,
    pub timestamp: u64,
    pub sequence: u64,
}

pub struct HistoryResultView {
    pub channel: Seq<char>,
    pub messages: Seq<HistoryMessageView>,
    pub has_more: bool,
}

pub struct HistoryOptionsView {
    pub limit: Option<u32>,
    pub before: Option<u64>,
    pub after: Option<u64>,
    pub direction: Option<Seq<char>>,
}

pub struct PushPayloadView {
    pub title: Seq<char>,
    pub body: Option<Seq<char>>,
    pub icon: Option<Seq<char>>,
    pub url: Option<Seq<char>>,
    pub data: Option<JsonView>,
}

/// The characters of a string that may be missing.
pub open spec fn optional_text(text: Option<String>) -> Option<Seq<char>> {
    match text {
        Some(text) => Some(text@),
        None => None,
    }
}

/// The characters of a string slice that may be missing.
pub open spec fn optional_str(text: Option<&str>) -> Option<Seq<char>> {
    match text {
        Some(text) => Some(text@),
        None => None,
    }
}

impl View for MessageMeta {
    type V = MessageMetaView;

    open spec fn view(&self) -> MessageMetaView {
        MessageMetaView { id: self.id@, channel: self.channel@, timestamp: self.timestamp }
    }
}

impl View for Message {
    type V = MessageView;

    open spec fn view(&self) -> MessageView {
        MessageView { data: self.data@, meta: self.meta@ }
    }
}

impl View for PresenceMember {
    type V = PresenceMemberView;

    open spec fn view(&self) -> PresenceMemberView {
        PresenceMemberView {
            client_id: self.client_id@,
            data: self.data@,
            joined_at: self.joined_at,
        }
    }
}

impl View for HistoryMessage {
    type V = HistoryMessageView;

    open spec fn view(&self) -> HistoryMessageView {
        HistoryMessageView {
            id: self.id@,
            channel: self.channel@,
            data: self.data@,
            publisher_id: self.publisher_id@,
            timestamp: self.timestamp,
            sequence: self.sequence,
        }
    }
}

impl View for HistoryResult {
    type V = HistoryResultView;

    open spec fn view(&self) -> HistoryResultView {
        HistoryResultView {
            channel: self.channel@,
            messages: self.messages@.map_values(|message: HistoryMessage| message@),
            has_more: self.has_more,
        }
    }
}

impl View for HistoryOptions {
    type V = HistoryOptionsView;

    open spec fn view(&self) -> HistoryOptionsView {
        HistoryOptionsView {
            limit: self.limit,
            before: self.before,
            after: self.after,
            direction: optional_text(self.direction),
        }
    }
}

impl View for PushPayload {
    type V = PushPayloadView;

    open spec fn view(&self) -> PushPayloadView {
        PushPayloadView {
            title: self.title@,
            body: optional_text(self.body),
            icon: optional_text(self.icon),
            url: optional_text(self.url),
            data: match self.data {
                Some(data) => Some(data@),
                None => None,
            },
        }
    }
}

impl DeepView for PresenceMember {
    type V = PresenceMemberView;

    open spec fn deep_view(&self) -> PresenceMemberView {
        self@
    }
}

impl DeepView for HistoryResult {
    type V = HistoryResultView;

    open spec fn deep_view(&self) -> HistoryResultView {
        self@
    }
}

impl DeepView for Message {
    type V = MessageView;

    open spec fn deep_view(&self) -> MessageView {
        self@
    }
}

impl Clone for Message {
    fn clone(&self) -> (copy: Message)
        ensures
            copy@ == self@,
    {
        Message { data: self.data.clone(), meta: self.meta.clone() }
    }
}

impl Clone for MessageMeta {
    fn clone(&self) -> (copy: MessageMeta)
        ensures
            copy@ == self@,
    {
        MessageMeta {
            id: self.id.clone(),
            channel: self.channel.clone(),
            timestamp: self.timestamp,
        }
    }
}

impl Clone for PresenceMember {
    fn clone(&self) -> (copy: PresenceMember)
        ensures
            copy@ == self@,
    {
        PresenceMember {
            client_id: self.client_id.clone(),
            data: self.data.clone(),
            joined_at: self.joined_at,
        }
    }
}

impl Clone for HistoryMessage {
    fn clone(&self) -> (copy: HistoryMessage)
        ensures
            copy@ == self@,
    {
        HistoryMessage {
            id: self.id.clone(),
            channel: self.channel.clone(),
            data: self.data.clone(),
            publisher_id: self.publisher_id.clone(),
            timestamp: self.timestamp,
            sequence: self.sequence,
        }
    }
}

impl Clone for HistoryResult {
    fn clone(&self) -> (copy: HistoryResult)
        ensures
            copy@ == self@,
    {
        let copy = HistoryResult {
            channel: self.channel.clone(),
            messages: self.messages.clone(),
            has_more: self.has_more,
        };
        assert(copy@.messages =~= self@.messages) by {
            assert forall|i: int| 0 <= i < self.messages@.len() implies copy.messages@[i]@
                == self.messages@[i]@ by {
                assert(cloned(self.messages@[i], copy.messages@[i]));
            }
        }
        copy
    }
}

impl Clone for HistoryOptions {
    fn clone(&self) -> (copy: HistoryOptions)
        ensures
            copy@ == self@,
    {
        HistoryOptions {
            limit: self.limit,
            before: self.before,
            after: self.after,
            direction: self.direction.clone(),
        }
    }
}

impl Clone for PushPayload {
    fn clone(&self) -> (copy: PushPayload)
        ensures
            copy@ == self@,
    {
        PushPayload {
            title: self.title.clone(),
            body: self.body.clone(),
            icon: self.icon.clone(),
            url: self.url.clone(),
            data: self.data.clone(),
        }
    }
}

/// A member with no client id and no data, who joined at time zero.
pub open spec fn default_member() -> PresenceMemberView {
    PresenceMemberView { client_id: Seq::empty(), data: JsonView::Null, joined_at: 0 }
}

impl Default for PresenceMember {
    fn default() -> (member: PresenceMember)
        ensures
            member@ == default_member(),
    {
        PresenceMember { client_id: String::new(), data: Json::Null, joined_at: 0 }
    }
}

impl Default for HistoryOptions {
    fn default() -> (options: HistoryOptions)
        ensures
            options@ == (HistoryOptionsView {
                limit: None,
                before: None,
                after: None,
                direction: None,
            }),
    {
        HistoryOptions { limit: None, before: None, after: None, direction: None }
    }
}

} // verus!
