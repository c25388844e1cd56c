//! What the requests are, member by member, as the server gets them.

use crate::channel::ChannelHandle;
use crate::client::{Client, PingEvent, PingStep, PING_INTERVAL_SECS};
use crate::codec::{reads_back, text_reading, value_text};
use crate::json::{Json, JsonView};
use crate::presence::PresenceHandle;
use crate::request::{
    history_message, history_request, ping_message, ping_request, presence_message,
    presence_request, publish_message, publish_request, resume_message, resume_request,
    subscribe_message, subscribe_request, unsubscribe_message, unsubscribe_request,
};
use crate::types::HistoryOptions;
use vstd::prelude::*;

verus! {

/// No two of the names that stand for members on the wire are the same.
pub(crate) proof fn lemma_wire_names()
    ensures
        "id"@.len() == 2,
        "data"@.len() == 4 && "data"@[0] == 'd',
        "body"@.len() == 4 && "body"@[0] == 'b',
        "limit"@.len() == 5 && "limit"@[0] == 'l',
        "after"@.len() == 5 && "after"@[0] == 'a',
        "title"@.len() == 5 && "title"@[0] == 't',
        "error"@.len() == 5 && "error"@[0] == 'e',
        "action"@.len() == 6 && "action"@[0] == 'a',
        "rewind"@.len() == 6 && "rewind"@[0] == 'r',
        "before"@.len() == 6 && "before"@[0] == 'b',
        "channel"@.len() == 7 && "channel"@[0] == 'c',
        "persist"@.len() == 7 && "persist"@[0] == 'p',
        "hasMore"@.len() == 7 && "hasMore"@[0] == 'h',
        "platform"@.len() == 8 && "platform"@[0] == 'p',
        "memberId"@.len() == 8 && "memberId"@[0] == 'm' && "memberId"@[2] == 'm',
        "messages"@.len() == 8 && "messages"@[0] == 'm' && "messages"@[2] == 's',
        "clientId"@.len() == 8 && "clientId"@[0] == 'c',
        "joinedAt"@.len() == 8 && "joinedAt"@[0] == 'j',
        "sequence"@.len() == 8 && "sequence"@[0] == 's',
        "direction"@.len() == 9 && "direction"@[0] == 'd',
        "timestamp"@.len() == 9 && "timestamp"@[0] == 't',
        "resumeToken"@.len() == 11 && "resumeToken"@[0] == 'r',
        "deviceToken"@.len() == 11 && "deviceToken"@[0] == 'd',
        "publisherId"@.len() == 11 && "publisherId"@[0] == 'p',
{
    reveal_strlit("id");
    reveal_strlit("data");
    reveal_strlit("body");
    reveal_strlit("limit");
    reveal_strlit("after");
    reveal_strlit("title");
    reveal_strlit("error");
    reveal_strlit("action");
    reveal_strlit("rewind");
    reveal_strlit("before");
    reveal_strlit("channel");
    reveal_strlit("persist");
    reveal_strlit("hasMore");
    reveal_strlit("platform");
    reveal_strlit("memberId");
    reveal_strlit("messages");
    reveal_strlit("clientId");
    reveal_strlit("joinedAt");
    reveal_strlit("sequence");
    reveal_strlit("direction");
    reveal_strlit("timestamp");
    reveal_strlit("resumeToken");
    reveal_strlit("deviceToken");
    reveal_strlit("publisherId");
}

// The requests as values.

/// The request to publish has under `data` just the data given, under `channel`
/// the channel, under `action` the text `publish`, under `id` the id, and under
/// `persist` false where persistence is off; it has no other member.
pub proof fn law_publish_members(
    channel: &str,
    data: Json,
    id: &str,
    persist: bool,
    request: Json,
)
    requires
        call_ensures(publish_request, (channel, data, id, persist), request),
    ensures
        request@ matches JsonView::Object(members) && {
            &&& members["action"@] == JsonView::Text("publish"@)
            &&& members["channel"@] == JsonView::Text(channel@)
            &&& members["data"@] == data@
            &&& members["id"@] == JsonView::Text(id@)
            &&& !persist ==> members["persist"@] == JsonView::Bool(false)
            &&& forall|key: Seq<char>| #[trigger]
                members.contains_key(key) <==> (key == "action"@ || key == "channel"@ || key
                    == "data"@ || key == "id"@ || (key == "persist"@ && !persist))
        },
{
    lemma_wire_names();
}

/// The request for a presence action with data has under `data` just that data,
/// under `action` the action and under `channel` the channel; without data it
/// has just the last two. It has no other member.
pub proof fn law_presence_members(
    action: &str,
    channel: &str,
    data: Option<Json>,
    request: Json,
)
    requires
        call_ensures(presence_request, (action, channel, data), request),
    ensures
        request@ matches JsonView::Object(members) && {
            &&& members["action"@] == JsonView::Text(action@)
            &&& members["channel"@] == JsonView::Text(channel@)
            &&& data matches Some(data) ==> members["data"@] == data@
            &&& forall|key: Seq<char>| #[trigger]
                members.contains_key(key) <==> (key == "action"@ || key == "channel"@ || (key
                    == "data"@ && data is Some))
        },
{
    lemma_wire_names();
}

/// The request to subscribe names the channel, and has the number of messages
/// to rewind just where that is not zero; it has no other member.
pub proof fn law_subscribe_members(channel: &str, rewind: u32, request: Json)
    requires
        call_ensures(subscribe_request, (channel, rewind), request),
    ensures
        request@ matches JsonView::Object(members) && {
            &&& members["action"@] == JsonView::Text("subscribe"@)
            &&& members["channel"@] == JsonView::Text(channel@)
            &&& rewind > 0 ==> members["rewind"@] == JsonView::Integer(rewind as int)
            &&& forall|key: Seq<char>| #[trigger]
                members.contains_key(key) <==> (key == "action"@ || key == "channel"@ || (key
                    == "rewind"@ && rewind > 0))
        },
{
    lemma_wire_names();
}

/// The request to unsubscribe names the channel and nothing else.
pub proof fn law_unsubscribe_members(channel: &str, request: Json)
    requires
        call_ensures(unsubscribe_request, (channel,), request),
    ensures
        request@ matches JsonView::Object(members) && {
            &&& members["action"@] == JsonView::Text("unsubscribe"@)
            &&& members["channel"@] == JsonView::Text(channel@)
            &&& forall|key: Seq<char>| #[trigger]
                members.contains_key(key) <==> (key == "action"@ || key == "channel"@)
        },
{
    lemma_wire_names();
}

/// The history query names the channel, and has each of the limit, the two
/// bounds in time and the direction just where it is set, as it is set; it has
/// no other member.
pub proof fn law_history_members(channel: &str, options: HistoryOptions, request: Json)
    requires
        call_ensures(history_request, (channel, &options), request),
    ensures
        request@ matches JsonView::Object(members) && {
            &&& members["action"@] == JsonView::Text("history"@)
            &&& members["channel"@] == JsonView::Text(channel@)
            &&& options.limit matches Some(n) ==> members["limit"@] == JsonView::Integer(n as int)
            &&& options.before matches Some(n) ==> members["before"@] == JsonView::Integer(n as int)
            &&& options.after matches Some(n) ==> members["after"@] == JsonView::Integer(n as int)
            &&& options.direction matches Some(text) ==> members["direction"@] == JsonView::Text(
                text@,
            )
            &&& forall|key: Seq<char>| #[trigger]
                members.contains_key(key) <==> (key == "action"@ || key == "channel"@ || (key
                    == "limit"@ && options.limit is Some) || (key == "before"@
                    && options.before is Some) || (key == "after"@ && options.after is Some) || (key
                    == "direction"@ && options.direction is Some))
        },
{
    lemma_wire_names();
}

/// The ping has an action and nothing else.
pub proof fn law_ping_members(request: Json)
    requires
        call_ensures(ping_request, (), request),
    ensures
        request@ matches JsonView::Object(members) && {
            &&& members["action"@] == JsonView::Text("ping"@)
            &&& forall|key: Seq<char>| #[trigger]
                members.contains_key(key) <==> key == "action"@
        },
{
}

/// The request for missed messages has the latest timestamp as it is given, and
/// the token, as it is given, just where there is one; besides, it has its
/// action and its id, and no other member.
pub proof fn law_resume_members(token: Option<&str>, last_message_ts: u64, request: Json)
    requires
        call_ensures(resume_request, (token, last_message_ts), request),
    ensures
        request@ matches JsonView::Object(members) && {
            &&& members["action"@] == JsonView::Text("resume"@)
            &&& members["id"@] == JsonView::Text("resume"@)
            &&& members["timestamp"@] == JsonView::Integer(last_message_ts as int)
            &&& token matches Some(token) ==> members["resumeToken"@] == JsonView::Text(token@)
            &&& forall|key: Seq<char>| #[trigger]
                members.contains_key(key) <==> (key == "action"@ || key == "id"@ || key
                    == "timestamp"@ || (key == "resumeToken"@ && token is Some))
        },
{
    lemma_wire_names();
}

// The requests as frames.

/// `frame` is the text of an object with these members, and is there just when
/// it `goes_out`. An object without floats and not nested too deep is what the
/// text is read as.
pub open spec fn is_frame(
    frame: Option<String>,
    goes_out: bool,
    members: Map<Seq<char>, JsonView>,
) -> bool {
    &&& frame is Some <==> goes_out
    &&& frame matches Some(text) ==> text@ == value_text(JsonView::Object(members))
    &&& frame matches Some(text) ==> reads_back(JsonView::Object(members), 127) ==> text_reading(
        text@,
    ) == Some(JsonView::Object(members))
}

/// Publishing under an id sends, while there is a connection, the channel's own
/// name, the data and the id as they are given, and that persistence is off
/// where it is.
pub proof fn law_publish_frame<M, H, P, L>(
    channel: ChannelHandle<M, H, P, L>,
    data: Json,
    id: &str,
    persist: bool,
    connected: bool,
    frame: Option<String>,
) -> (members: Map<Seq<char>, JsonView>)
    requires
        call_ensures(
            ChannelHandle::<M, H, P, L>::publish_with_id,
            (&channel, data, id, persist, connected),
            frame,
        ),
    ensures
        is_frame(frame, connected, members),
        members["action"@] == JsonView::Text("publish"@),
        members["channel"@] == JsonView::Text(channel@.name),
        members["data"@] == data@,
        members["id"@] == JsonView::Text(id@),
        !persist ==> members["persist"@] == JsonView::Bool(false),
        forall|key: Seq<char>| #[trigger]
            members.contains_key(key) <==> (key == "action"@ || key == "channel"@ || key == "data"@
                || key == "id"@ || (key == "persist"@ && !persist)),
{
    lemma_wire_names();
    publish_message(channel@.name, data@, id@, persist)->Object_0
}

/// The form of a message id: thirty-six characters, hyphens at four places, the
/// digits of version and variant at two, and hexadecimal digits at the others.
pub open spec fn has_id_form(id: Seq<char>) -> bool {
    &&& id.len() == 36
    &&& id[8] == '-' && id[13] == '-' && id[18] == '-' && id[23] == '-'
    &&& id[14] == '4'
    &&& id[19] == '8' || id[19] == '9' || id[19] == 'a' || id[19] == 'b'
    &&& forall|i: int|
        0 <= i < 36 && i != 8 && i != 13 && i != 18 && i != 23 ==> '0' <= #[trigger] id[i] <= '9'
            || 'a' <= id[i] <= 'f'
}

/// Publishing sends, while there is a connection, the channel's own name, the
/// data as it is given and an id of the proper form, and that persistence is
/// off just where the caller says so.
pub proof fn law_publish_with_opts_frame<M, H, P, L>(
    channel: ChannelHandle<M, H, P, L>,
    data: Json,
    persist: bool,
    connected: bool,
    frame: Option<String>,
) -> (sent: (Seq<char>, Map<Seq<char>, JsonView>))
    requires
        call_ensures(
            ChannelHandle::<M, H, P, L>::publish_with_opts,
            (&channel, data, persist, connected),
            frame,
        ),
    ensures
        has_id_form(sent.0),
        is_frame(frame, connected, sent.1),
        sent.1["action"@] == JsonView::Text("publish"@),
        sent.1["channel"@] == JsonView::Text(channel@.name),
        sent.1["data"@] == data@,
        sent.1["id"@] == JsonView::Text(sent.0),
        !persist ==> sent.1["persist"@] == JsonView::Bool(false),
        forall|key: Seq<char>| #[trigger]
            sent.1.contains_key(key) <==> (key == "action"@ || key == "channel"@ || key == "data"@
                || key == "id"@ || (key == "persist"@ && !persist)),
{
    lemma_wire_names();
    let id = choose|id: Seq<char>| #[trigger]
        crate::channel::is_message_id(id) && crate::request::sends(
            frame,
            connected,
            publish_message(channel@.name, data@, id, persist),
        );
    (id, publish_message(channel@.name, data@, id, persist)->Object_0)
}

/// To publish without an option is to publish with persistence on.
pub proof fn law_publish_persists<M, H, P, L>(
    channel: ChannelHandle<M, H, P, L>,
    data: Json,
    connected: bool,
    frame: Option<String>,
) -> (sent: (Seq<char>, Map<Seq<char>, JsonView>))
    requires
        call_ensures(ChannelHandle::<M, H, P, L>::publish, (&channel, data, connected), frame),
    ensures
        has_id_form(sent.0),
        is_frame(frame, connected, sent.1),
        sent.1["action"@] == JsonView::Text("publish"@),
        sent.1["channel"@] == JsonView::Text(channel@.name),
        sent.1["data"@] == data@,
        sent.1["id"@] == JsonView::Text(sent.0),
        forall|key: Seq<char>| #[trigger]
            sent.1.contains_key(key) <==> (key == "action"@ || key == "channel"@ || key == "data"@
                || key == "id"@),
{
    lemma_wire_names();
    let id = choose|id: Seq<char>| #[trigger]
        crate::channel::is_message_id(id) && crate::request::sends(
            frame,
            connected,
            publish_message(channel@.name, data@, id, true),
        );
    (id, publish_message(channel@.name, data@, id, true)->Object_0)
}

/// The history query of a channel sends, while there is a connection, the
/// channel's own name and just the options that are set, as they are set.
pub proof fn law_history_frame<M, H, P, L>(
    channel: ChannelHandle<M, H, P, L>,
    options: HistoryOptions,
    connected: bool,
    frame: Option<String>,
) -> (members: Map<Seq<char>, JsonView>)
    requires
        call_ensures(
            ChannelHandle::<M, H, P, L>::history,
            (&channel, options, connected),
            frame,
        ),
    ensures
        is_frame(frame, connected, members),
        members["action"@] == JsonView::Text("history"@),
        members["channel"@] == JsonView::Text(channel@.name),
        options.limit matches Some(n) ==> members["limit"@] == JsonView::Integer(n as int),
        options.before matches Some(n) ==> members["before"@] == JsonView::Integer(n as int),
        options.after matches Some(n) ==> members["after"@] == JsonView::Integer(n as int),
        options.direction matches Some(text) ==> members["direction"@] == JsonView::Text(text@),
        forall|key: Seq<char>| #[trigger]
            members.contains_key(key) <==> (key == "action"@ || key == "channel"@ || (key
                == "limit"@ && options.limit is Some) || (key == "before"@
                && options.before is Some) || (key == "after"@ && options.after is Some) || (key
                == "direction"@ && options.direction is Some)),
{
    lemma_wire_names();
    history_message(channel@.name, options@)->Object_0
}

/// Subscribing sends the channel's own name and the rewind, where that is not
/// zero, just where there is a connection and the channel is not subscribed
/// yet; either way the callback is the last to listen, the channel is
/// subscribed, and all else stays as it was.
pub proof fn law_subscribe_frame<M, H, P, L>(
    channel: &mut ChannelHandle<M, H, P, L>,
    cb: M,
    rewind: u32,
    connected: bool,
    frame: Option<String>,
) -> (members: Map<Seq<char>, JsonView>)
    requires
        call_ensures(
            ChannelHandle::<M, H, P, L>::subscribe_with_rewind,
            (channel, cb, rewind, connected),
            frame,
        ),
    ensures
        is_frame(frame, connected && !old(channel)@.subscribed, members),
        members["action"@] == JsonView::Text("subscribe"@),
        members["channel"@] == JsonView::Text(old(channel)@.name),
        rewind > 0 ==> members["rewind"@] == JsonView::Integer(rewind as int),
        forall|key: Seq<char>| #[trigger]
            members.contains_key(key) <==> (key == "action"@ || key == "channel"@ || (key
                == "rewind"@ && rewind > 0)),
        final(channel)@.subscribed,
        final(channel)@.callbacks == old(channel)@.callbacks + seq![cb],
        final(channel)@.name == old(channel)@.name,
        final(channel)@.history_cbs == old(channel)@.history_cbs,
        final(channel)@.presence == old(channel)@.presence,
{
    lemma_wire_names();
    subscribe_message(old(channel)@.name, rewind)->Object_0
}

/// To subscribe without a rewind is to subscribe with a rewind of zero.
pub proof fn law_subscribe_without_rewind<M, H, P, L>(
    channel: &mut ChannelHandle<M, H, P, L>,
    cb: M,
    connected: bool,
    frame: Option<String>,
) -> (members: Map<Seq<char>, JsonView>)
    requires
        call_ensures(
            ChannelHandle::<M, H, P, L>::subscribe,
            (channel, cb, connected),
            frame,
        ),
    ensures
        is_frame(frame, connected && !old(channel)@.subscribed, members),
        members["action"@] == JsonView::Text("subscribe"@),
        members["channel"@] == JsonView::Text(old(channel)@.name),
        forall|key: Seq<char>| #[trigger]
            members.contains_key(key) <==> (key == "action"@ || key == "channel"@),
        final(channel)@.subscribed,
        final(channel)@.callbacks == old(channel)@.callbacks + seq![cb],
        final(channel)@.name == old(channel)@.name,
        final(channel)@.history_cbs == old(channel)@.history_cbs,
        final(channel)@.presence == old(channel)@.presence,
{
    lemma_wire_names();
    subscribe_message(old(channel)@.name, 0)->Object_0
}

/// Unsubscribing sends the channel's own name while there is a connection, be
/// the channel subscribed or not; either way nobody listens to its messages or
/// history any more, and all else stays as it was.
pub proof fn law_unsubscribe_frame<M, H, P, L>(
    channel: &mut ChannelHandle<M, H, P, L>,
    connected: bool,
    frame: Option<String>,
) -> (members: Map<Seq<char>, JsonView>)
    requires
        call_ensures(
            ChannelHandle::<M, H, P, L>::unsubscribe,
            (channel, connected),
            frame,
        ),
    ensures
        is_frame(frame, connected, members),
        members["action"@] == JsonView::Text("unsubscribe"@),
        members["channel"@] == JsonView::Text(old(channel)@.name),
        forall|key: Seq<char>| #[trigger]
            members.contains_key(key) <==> (key == "action"@ || key == "channel"@),
        !final(channel)@.subscribed,
        final(channel)@.callbacks.len() == 0,
        final(channel)@.history_cbs.len() == 0,
        final(channel)@.name == old(channel)@.name,
        final(channel)@.presence == old(channel)@.presence,
{
    lemma_wire_names();
    unsubscribe_message(old(channel)@.name)->Object_0
}

/// Over a connection that replaces a lost one a channel is subscribed, without
/// a rewind, just where somebody listens to it; all else stays as it was.
pub proof fn law_resubscribe_frame<M, H, P, L>(
    channel: &mut ChannelHandle<M, H, P, L>,
    frame: Option<String>,
) -> (members: Map<Seq<char>, JsonView>)
    requires
        call_ensures(ChannelHandle::<M, H, P, L>::resubscribe, (channel,), frame),
    ensures
        is_frame(frame, old(channel)@.callbacks.len() > 0, members),
        members["action"@] == JsonView::Text("subscribe"@),
        members["channel"@] == JsonView::Text(old(channel)@.name),
        forall|key: Seq<char>| #[trigger]
            members.contains_key(key) <==> (key == "action"@ || key == "channel"@),
        final(channel)@.subscribed <==> old(channel)@.callbacks.len() > 0,
        final(channel)@.callbacks == old(channel)@.callbacks,
        final(channel)@.name == old(channel)@.name,
        final(channel)@.history_cbs == old(channel)@.history_cbs,
        final(channel)@.presence == old(channel)@.presence,
{
    lemma_wire_names();
    subscribe_message(old(channel)@.name, 0)->Object_0
}

/// Entering the presence set of a channel sends, while there is a connection,
/// the channel's own name and the data as it is given.
pub proof fn law_enter_frame<P, L>(
    presence: PresenceHandle<P, L>,
    data: Json,
    connected: bool,
    frame: Option<String>,
) -> (members: Map<Seq<char>, JsonView>)
    requires
        call_ensures(PresenceHandle::<P, L>::enter, (&presence, data, connected), frame),
    ensures
        is_frame(frame, connected, members),
        members["action"@] == JsonView::Text("presence.enter"@),
        members["channel"@] == JsonView::Text(presence@.channel_name),
        members["data"@] == data@,
        forall|key: Seq<char>| #[trigger]
            members.contains_key(key) <==> (key == "action"@ || key == "channel"@ || key
                == "data"@),
{
    lemma_wire_names();
    presence_message("presence.enter"@, presence@.channel_name, Some(data@))->Object_0
}

/// Updating one's data in the presence set of a channel sends, while there is a
/// connection, the channel's own name and the data as it is given.
pub proof fn law_update_frame<P, L>(
    presence: PresenceHandle<P, L>,
    data: Json,
    connected: bool,
    frame: Option<String>,
) -> (members: Map<Seq<char>, JsonView>)
    requires
        call_ensures(PresenceHandle::<P, L>::update, (&presence, data, connected), frame),
    ensures
        is_frame(frame, connected, members),
        members["action"@] == JsonView::Text("presence.update"@),
        members["channel"@] == JsonView::Text(presence@.channel_name),
        members["data"@] == data@,
        forall|key: Seq<char>| #[trigger]
            members.contains_key(key) <==> (key == "action"@ || key == "channel"@ || key
                == "data"@),
{
    lemma_wire_names();
    presence_message("presence.update"@, presence@.channel_name, Some(data@))->Object_0
}

/// Leaving the presence set of a channel sends, while there is a connection,
/// the channel's own name and no data.
pub proof fn law_leave_frame<P, L>(
    presence: PresenceHandle<P, L>,
    connected: bool,
    frame: Option<String>,
) -> (members: Map<Seq<char>, JsonView>)
    requires
        call_ensures(PresenceHandle::<P, L>::leave, (&presence, connected), frame),
    ensures
        is_frame(frame, connected, members),
        members["action"@] == JsonView::Text("presence.leave"@),
        members["channel"@] == JsonView::Text(presence@.channel_name),
        forall|key: Seq<char>| #[trigger]
            members.contains_key(key) <==> (key == "action"@ || key == "channel"@),
{
    lemma_wire_names();
    presence_message("presence.leave"@, presence@.channel_name, None)->Object_0
}

/// Asking for the members of a channel sends, while there is a connection, the
/// channel's own name and no data, and then the callback waits behind those who
/// wait already; without a connection nobody more waits. All else stays as it was.
pub proof fn law_get_frame<P, L>(
    presence: &mut PresenceHandle<P, L>,
    cb: L,
    connected: bool,
    frame: Option<String>,
) -> (members: Map<Seq<char>, JsonView>)
    requires
        call_ensures(PresenceHandle::<P, L>::get, (presence, cb, connected), frame),
    ensures
        is_frame(frame, connected, members),
        members["action"@] == JsonView::Text("presence.get"@),
        members["channel"@] == JsonView::Text(old(presence)@.channel_name),
        forall|key: Seq<char>| #[trigger]
            members.contains_key(key) <==> (key == "action"@ || key == "channel"@),
        connected ==> final(presence)@.waiting_cbs == old(presence)@.waiting_cbs + seq![cb],
        !connected ==> final(presence)@.waiting_cbs == old(presence)@.waiting_cbs,
        final(presence)@.channel_name == old(presence)@.channel_name,
        final(presence)@.enter_cbs == old(presence)@.enter_cbs,
        final(presence)@.leave_cbs == old(presence)@.leave_cbs,
        final(presence)@.update_cbs == old(presence)@.update_cbs,
        final(presence)@.members_cbs == old(presence)@.members_cbs,
{
    lemma_wire_names();
    presence_message("presence.get"@, old(presence)@.channel_name, None)->Object_0
}

/// A client asks for missed messages just where it is connected and has either
/// a token or a timestamp that is not zero to resume from; it presents the
/// timestamp, and the token if it has one.
pub proof fn law_resume_frame<M, H, P, L>(
    client: Client<M, H, P, L>,
    frame: Option<String>,
) -> (members: Map<Seq<char>, JsonView>)
    requires
        call_ensures(Client::<M, H, P, L>::resume, (&client,), frame),
    ensures
        is_frame(
            frame,
            client@.connected && (client@.resume_token is Some || client@.last_message_ts != 0),
            members,
        ),
        members["action"@] == JsonView::Text("resume"@),
        members["id"@] == JsonView::Text("resume"@),
        members["timestamp"@] == JsonView::Integer(client@.last_message_ts as int),
        client@.resume_token matches Some(token) ==> members["resumeToken"@] == JsonView::Text(
            token,
        ),
        forall|key: Seq<char>| #[trigger]
            members.contains_key(key) <==> (key == "action"@ || key == "id"@ || key == "timestamp"@
                || (key == "resumeToken"@ && client@.resume_token is Some)),
{
    lemma_wire_names();
    resume_message(client@.resume_token, client@.last_message_ts)->Object_0
}

/// Whenever the timer, which does so every thirty seconds, fires again, a
/// connected client pings, and another stops; between that it waits, and when a
/// ping cannot be sent it stops.
pub proof fn law_ping_frame<M, H, P, L>(
    client: Client<M, H, P, L>,
    event: PingEvent,
    step: PingStep,
) -> (members: Map<Seq<char>, JsonView>)
    requires
        call_ensures(Client::<M, H, P, L>::ping_step, (&client, event), step),
    ensures
        PING_INTERVAL_SECS == 30,
        step is Send <==> event is Tick && client@.connected,
        step is Wait <==> event is Started || event is Sent,
        step matches PingStep::Send(text) ==> is_frame(Some(text), true, members),
        members["action"@] == JsonView::Text("ping"@),
        forall|key: Seq<char>| #[trigger] members.contains_key(key) <==> key == "action"@,
{
    ping_message()->Object_0
}

} // verus!
