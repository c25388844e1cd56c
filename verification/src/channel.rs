//! Channels.

use crate::call::{calls_all, fan_out, Call};
use crate::json::Json;
use crate::presence::{fresh_presence, PresenceHandle, PresenceView};
use crate::request::{
    frame_of, history_message, history_request, publish_message, publish_request, sends,
    subscribe_message, subscribe_request, unsubscribe_message, unsubscribe_request,
};
use crate::types::{HistoryOptions, HistoryResult, Message, MessageMeta, MessageView};
use vstd::prelude::*;

verus! {

/// A channel: whether it is subscribed, the callbacks of type `M` for its
/// messages and of type `H` for its history, and its presence side.
pub struct ChannelHandle<M, H, P, L> {
    pub name: String,
    subscribed: bool,
    callbacks: Vec<M>,
    history_cbs: Vec<H>,
    presence: PresenceHandle<P, L>,
}

/// The state of a channel.
#[verifier::ext_equal]
pub struct ChannelView<M, H, P, L> {
    pub name: Seq<char>,
    pub subscribed: bool,
    pub callbacks: Seq<M>,
    pub history_cbs: Seq<H>,
    pub presence: PresenceView<P, L>,
}

impl<M, H, P, L> View for ChannelHandle<M, H, P, L> {
    type V = ChannelView<M, H, P, L>;

    closed spec fn view(&self) -> ChannelView<M, H, P, L> {
        ChannelView {
            name: self.name@,
            subscribed: self.subscribed,
            callbacks: self.callbacks@,
            history_cbs: self.history_cbs@,
            presence: self.presence@,
        }
    }
}

/// A channel that has just been made.
pub open spec fn fresh_channel<M, H, P, L>(name: Seq<char>) -> ChannelView<M, H, P, L> {
    ChannelView {
        name,
        subscribed: false,
        callbacks: Seq::empty(),
        history_cbs: Seq::empty(),
        presence: fresh_presence(name),
    }
}

impl<M, H, P, L> ChannelView<M, H, P, L> {
    /// The channel once one more callback has subscribed.
    pub open spec fn subscribe(self, cb: M) -> ChannelView<M, H, P, L> {
        ChannelView { subscribed: true, callbacks: self.callbacks.push(cb), ..self }
    }

    /// The channel once it has been unsubscribed.
    pub open spec fn unsubscribe(self) -> ChannelView<M, H, P, L> {
        ChannelView {
            subscribed: false,
            callbacks: Seq::empty(),
            history_cbs: Seq::empty(),
            ..self
        }
    }

    /// The channel once it has to be subscribed anew.
    pub open spec fn mark_for_resubscribe(self) -> ChannelView<M, H, P, L> {
        ChannelView { subscribed: false, ..self }
    }

    /// The channel once a lost connection has been replaced: subscribed just
    /// where there is somebody to listen.
    pub open spec fn reopened(self) -> ChannelView<M, H, P, L> {
        ChannelView { subscribed: self.callbacks.len() > 0, ..self }
    }

    /// The channel once nobody waits for its members any more.
    pub open spec fn nobody_waits(self) -> ChannelView<M, H, P, L> {
        ChannelView { presence: self.presence.nobody_waits(), ..self }
    }
}

/// A lower-case hexadecimal digit.
pub open spec fn is_hex_digit(c: char) -> bool {
    '0' <= c <= '9' || 'a' <= c <= 'f'
}

/// A random id in its hyphenated form, such as
/// `67e55044-10b1-426f-9247-bb680e5fe0c8`.
pub open spec fn is_message_id(id: Seq<char>) -> bool {
    &&& id.len() == 36
    &&& forall|i: int|
        0 <= i < 36 ==> if i == 8 || i == 13 || i == 18 || i == 23 {
            #[trigger] id[i] == '-'
        } else {
            is_hex_digit(id[i])
        }
    &&& id[14] == '4'
    &&& id[19] == '8' || id[19] == '9' || id[19] == 'a' || id[19] == 'b'
}

/// Draws an id with `uuid::Uuid::new_v4` and prints it with `Uuid`'s `Display`.
/// Whatever is drawn, the text has the hyphenated form, with the version and
/// variant digits of a random id. Which id it is, is left to chance; where the
/// operating system has no random bytes to give, the draw panics.
#[verifier::external_body]
fn new_message_id() -> (id: String)
    ensures
        is_message_id(id@),
{
    uuid::Uuid::new_v4().to_string()
}

impl<M, H, P, L> ChannelHandle<M, H, P, L> {
    /// A new channel.
    pub(crate) fn new(name: String) -> (channel: ChannelHandle<M, H, P, L>)
        ensures
            channel@ == fresh_channel::<M, H, P, L>(name@),
    {
        let presence = PresenceHandle::new(name.clone());
        ChannelHandle {
            name,
            subscribed: false,
            callbacks: Vec::new(),
            history_cbs: Vec::new(),
            presence,
        }
    }

    /// Get the presence API for this channel.
    pub fn presence(&self) -> (presence: &PresenceHandle<P, L>)
        ensures
            presence@ == self@.presence,
    {
        &self.presence
    }

    /// Get the presence API for this channel, to register callbacks.
    pub fn presence_mut(&mut self) -> (presence: &mut PresenceHandle<P, L>)
        ensures
            presence@ == old(self)@.presence,
            final(self)@ == (ChannelView { presence: final(presence)@, ..old(self)@ }),
    {
        &mut self.presence
    }

    /// Subscribe to messages on this channel. The frame is to be sent.
    pub fn subscribe(&mut self, cb: M, connected: bool) -> (frame: Option<String>)
        ensures
            final(self)@ == old(self)@.subscribe(cb),
            sends(
                frame,
                connected && !old(self)@.subscribed,
                subscribe_message(old(self)@.name, 0),
            ),
    {
        self.subscribe_with_rewind(cb, 0, connected)
    }

    /// Subscribe with optional rewind. The frame is to be sent; there is none
    /// when the channel is already subscribed.
    pub fn subscribe_with_rewind(&mut self, cb: M, rewind: u32, connected: bool) -> (frame: Option<
        String,
    >)
        ensures
            final(self)@ == old(self)@.subscribe(cb),
            sends(
                frame,
                connected && !old(self)@.subscribed,
                subscribe_message(old(self)@.name, rewind),
            ),
    {
        self.callbacks.push(cb);
        if !self.subscribed {
            let request = subscribe_request(self.name.as_str(), rewind);
            self.subscribed = true;
            frame_of(&request, connected)
        } else {
            None
        }
    }

    /// Publish data to this channel. The frame is to be sent.
    pub fn publish(&self, data: Json, connected: bool) -> (frame: Option<String>)
        ensures
            exists|id: Seq<char>| #[trigger]
                is_message_id(id) && sends(
                    frame,
                    connected,
                    publish_message(self@.name, data@, id, true),
                ),
    {
        self.publish_with_opts(data, true, connected)
    }

    /// Publish with persist option. The frame is to be sent; it carries a fresh
    /// random message id.
    pub fn publish_with_opts(&self, data: Json, persist: bool, connected: bool) -> (frame: Option<
        String,
    >)
        ensures
            exists|id: Seq<char>| #[trigger]
                is_message_id(id) && sends(
                    frame,
                    connected,
                    publish_message(self@.name, data@, id, persist),
                ),
    {
        let id = new_message_id();
        self.publish_with_id(data, id.as_str(), persist, connected)
    }

    /// Publish under a given message id. The frame is to be sent.
    pub fn publish_with_id(&self, data: Json, id: &str, persist: bool, connected: bool) -> (frame:
        Option<String>)
        ensures
            sends(frame, connected, publish_message(self@.name, data@, id@, persist)),
    {
        frame_of(&publish_request(self.name.as_str(), data, id, persist), connected)
    }

    /// Query message history. The frame is to be sent.
    pub fn history(&self, opts: HistoryOptions, connected: bool) -> (frame: Option<String>)
        ensures
            sends(frame, connected, history_message(self@.name, opts@)),
    {
        frame_of(&history_request(self.name.as_str(), &opts), connected)
    }

    /// Listen for history query results.
    pub fn on_history(&mut self, cb: H)
        ensures
            final(self)@ == (ChannelView {
                history_cbs: old(self)@.history_cbs.push(cb),
                ..old(self)@
            }),
    {
        self.history_cbs.push(cb);
    }

    /// Unsubscribe from this channel. The frame is to be sent. The message and
    /// history callbacks are dropped; those for presence stay.
    pub fn unsubscribe(&mut self, connected: bool) -> (frame: Option<String>)
        ensures
            final(self)@ == old(self)@.unsubscribe(),
            sends(frame, connected, unsubscribe_message(old(self)@.name)),
    {
        let request = unsubscribe_request(self.name.as_str());
        self.subscribed = false;
        self.callbacks.clear();
        self.history_cbs.clear();
        frame_of(&request, connected)
    }

    /// Have the next subscription send a request again.
    pub fn mark_for_resubscribe(&mut self)
        ensures
            final(self)@ == old(self)@.mark_for_resubscribe(),
    {
        self.subscribed = false;
    }

    /// Subscribe anew over a connection that replaces a lost one. The frame is
    /// to be sent; there is none where nobody listens.
    pub fn resubscribe(&mut self) -> (frame: Option<String>)
        ensures
            final(self)@ == old(self)@.reopened(),
            sends(
                frame,
                old(self)@.callbacks.len() > 0,
                subscribe_message(old(self)@.name, 0),
            ),
    {
        self.mark_for_resubscribe();
        if self.has_listeners() {
            self.subscribed = true;
            frame_of(&subscribe_request(self.name.as_str(), 0), true)
        } else {
            None
        }
    }

    /// Whether any callback waits for messages.
    pub fn has_listeners(&self) -> (listening: bool)
        ensures
            listening == (self@.callbacks.len() > 0),
    {
        self.callbacks.len() > 0
    }
}

impl<M: Clone, H: Clone, P: Clone, L: Clone> ChannelHandle<M, H, P, L> {
    /// The calls for a message.
    pub fn emit(&self, data: Json, meta: MessageMeta) -> (calls: Vec<Call<M, Message>>)
        ensures
            calls_all(calls@, self@.callbacks, (MessageView { data: data@, meta: meta@ })),
    {
        fan_out(&self.callbacks, &Message { data, meta })
    }

    /// The calls for a history query's answer.
    pub fn emit_history(&self, result: HistoryResult) -> (calls: Vec<Call<H, HistoryResult>>)
        ensures
            calls_all(calls@, self@.history_cbs, result@),
    {
        fan_out(&self.history_cbs, &result)
    }
}

} // verus!
