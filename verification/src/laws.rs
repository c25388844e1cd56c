//! What holds of the library as a whole.

pub mod incoming;
pub mod notifications;
pub mod outgoing;
pub mod state;
pub mod values;

use crate::channel::{fresh_channel, ChannelView};
use crate::client::{
    channel_or_fresh, delivery_for, event_channel, event_kind, event_message,
    event_token, fresh_client, kind_of, listened,
    ClientView, DeliveryView, EventKind, ReadEvent, ReadStep,
};
use crate::codec::{reads_back, text_reading};
use crate::inbound::{history_answer, history_entry, number_at, presence_member, presence_members};
use crate::json::JsonView;
use crate::presence::PresenceView;
use crate::push::{notification, push_client, registration, removal};
use crate::request::{
    history_message, ping_message, presence_message, publish_message, resume_message,
    sends,
    subscribe_message, unsubscribe_message,
};
use crate::text::without_trailing_slashes;
use crate::types::{
    HistoryMessageView, HistoryOptionsView, HistoryResultView, MessageView, PresenceMemberView,
};
use vstd::prelude::*;

verus! {

// Channels.

/// However many callbacks subscribe to a channel, only the first sends a
/// request, and all of them listen, in the order in which they subscribed.
pub proof fn law_subscribed_once<M, H, P, L>(
    channel: ChannelView<M, H, P, L>,
    first: M,
    second: M,
    rewind: u32,
    connected: bool,
    frame: Option<String>,
)
    requires
        sends(
            frame,
            connected && !channel.subscribe(first).subscribed,
            subscribe_message(channel.subscribe(first).name, rewind),
        ),
    ensures
        frame is None,
        channel.subscribe(first).subscribe(second).callbacks == channel.callbacks + seq![
            first,
            second,
        ],
{
}

/// Once a channel is unsubscribed, nobody listens to its messages and history,
/// what it told about presence it still tells, and unsubscribing it again
/// changes nothing.
pub proof fn law_unsubscribe_clears<M, H, P, L>(channel: ChannelView<M, H, P, L>)
    ensures
        !channel.unsubscribe().subscribed,
        channel.unsubscribe().callbacks.len() == 0,
        channel.unsubscribe().history_cbs.len() == 0,
        channel.unsubscribe().presence == channel.presence,
        channel.unsubscribe().name == channel.name,
        channel.unsubscribe().unsubscribe() == channel.unsubscribe(),
{
}

/// Unsubscribing undoes whatever subscription came before.
pub proof fn law_unsubscribe_undoes_subscribe<M, H, P, L>(
    channel: ChannelView<M, H, P, L>,
    cb: M,
)
    ensures
        channel.subscribe(cb).unsubscribe() == channel.unsubscribe(),
{
}

/// The first subscription after a channel was unsubscribed, or marked for
/// resubscription, sends a request again while there is a connection. The mark
/// keeps the callbacks.
pub proof fn law_subscribed_again<M, H, P, L>(
    channel: ChannelView<M, H, P, L>,
    cb: M,
    rewind: u32,
    after_unsubscribe: Option<String>,
    after_mark: Option<String>,
)
    requires
        sends(
            after_unsubscribe,
            !channel.unsubscribe().subscribed,
            subscribe_message(channel.name, rewind),
        ),
        sends(
            after_mark,
            !channel.mark_for_resubscribe().subscribed,
            subscribe_message(channel.name, rewind),
        ),
    ensures
        after_unsubscribe is Some,
        after_mark is Some,
        channel.unsubscribe().subscribe(cb).callbacks == seq![cb],
        channel.mark_for_resubscribe().subscribe(cb).callbacks == channel.callbacks.push(cb),
{
}

/// A channel that has been got by name is there to be got again, as it was
/// left, and getting it leaves all others alone.
pub proof fn law_channel_is_kept<M, H, P, L>(
    channels: Map<Seq<char>, ChannelView<M, H, P, L>>,
    name: Seq<char>,
    left: ChannelView<M, H, P, L>,
    other: Seq<char>,
)
    requires
        other != name,
    ensures
        channel_or_fresh(channels.insert(name, left), name) == left,
        channel_or_fresh(channels.insert(name, left), other) == channel_or_fresh(channels, other),
        channels.insert(name, left).contains_key(other) == channels.contains_key(other),
{
}

/// Every channel goes by the name that it is kept under, on its presence side too.
pub open spec fn all_named<M, H, P, L>(
    channels: Map<Seq<char>, ChannelView<M, H, P, L>>,
) -> bool {
    forall|name: Seq<char>| #[trigger]
        channels.contains_key(name) ==> channels[name].name == name
            && channels[name].presence.channel_name == name
}

/// Channels go by their names from the start, and whatever is subscribed,
/// unsubscribed, marked, received, or registered for presence or history.
pub proof fn law_channels_keep_their_names<M, H, P, L>(
    client: ClientView<M, H, P, L>,
    name: Seq<char>,
    cb: M,
    history_cbs: Seq<H>,
    presence: PresenceView<P, L>,
    root: JsonView,
)
    requires
        all_named(client.channels),
        presence.channel_name == channel_or_fresh(client.channels, name).presence.channel_name,
    ensures
        all_named(fresh_client::<M, H, P, L>().channels),
        ({
            let channel = channel_or_fresh(client.channels, name);
            &&& all_named(client.channels.insert(name, channel))
            &&& all_named(client.channels.insert(name, channel.subscribe(cb)))
            &&& all_named(client.channels.insert(name, channel.unsubscribe()))
            &&& all_named(client.channels.insert(name, channel.mark_for_resubscribe()))
            &&& all_named(client.channels.insert(name, channel.reopened()))
            &&& all_named(
                client.channels.insert(name, (ChannelView { history_cbs, presence, ..channel })),
            )
        }),
        all_named(client.receive(root).channels),
        all_named(client.disconnect().channels),
        all_named(client.reopened().channels),
{
}

// What the server sends.

/// Each known kind of event goes by one action, and no two by the same.
pub proof fn law_actions_told_apart(action: Seq<char>)
    ensures
        kind_of(action) == EventKind::Message <==> action == "message"@,
        kind_of(action) == EventKind::PresenceEnter <==> action == "presence.enter"@,
        kind_of(action) == EventKind::PresenceLeave <==> action == "presence.leave"@,
        kind_of(action) == EventKind::PresenceUpdate <==> action == "presence.update"@,
        kind_of(action) == EventKind::PresenceMembers <==> action == "presence.members"@,
        kind_of(action) == EventKind::History <==> action == "history"@,
        kind_of(action) == EventKind::Ack <==> action == "ack"@,
        kind_of(action) == EventKind::Error <==> action == "error"@,
{
    reveal_strlit("message");
    reveal_strlit("presence.enter");
    reveal_strlit("presence.leave");
    reveal_strlit("presence.update");
    reveal_strlit("presence.members");
    reveal_strlit("history");
    reveal_strlit("ack");
    reveal_strlit("error");
    assert("message"@.len() == 7);
    assert("presence.enter"@.len() == 14);
    assert("presence.leave"@.len() == 14);
    assert("presence.update"@.len() == 15);
    assert("presence.members"@.len() == 16);
    assert("history"@.len() == 7);
    assert("ack"@.len() == 3);
    assert("error"@.len() == 5);
    assert("presence.enter"@[9] != "presence.leave"@[9]);
    assert("message"@[0] != "history"@[0]);
}

/// Receiving never opens or closes a channel, nor touches the connection or the
/// push client; and all it does to a channel is that, when its members are
/// listed, whoever asked for them no longer waits.
pub proof fn law_receive_leaves_the_rest<M, H, P, L>(
    client: ClientView<M, H, P, L>,
    root: JsonView,
    name: Seq<char>,
)
    ensures
        client.receive(root) == (ClientView {
            last_message_ts: client.receive(root).last_message_ts,
            resume_token: client.receive(root).resume_token,
            channels: client.receive(root).channels,
            ..client
        }),
        client.receive(root).channels.contains_key(name) == client.channels.contains_key(name),
        client.channels.contains_key(name) ==> client.receive(root).channels[name] == (
        if event_kind(root) == EventKind::PresenceMembers && event_channel(root) == name {
            client.channels[name].nobody_waits()
        } else {
            client.channels[name]
        }),
{
}

/// A text that is not JSON changes nothing and calls nobody.
pub proof fn law_not_json_is_ignored<M, H, P, L>(
    client: ClientView<M, H, P, L>,
    raw: Seq<char>,
)
    requires
        text_reading(raw) is None,
    ensures
        client.receive_text(raw) == client,
        client.delivery_of_text(raw) == DeliveryView::<M, H, P, L>::Nothing,
{
}

/// An event without a known action changes nothing and calls nobody, and so
/// does one on a channel that was never asked for, unless it is an
/// acknowledgement or an error, which are on no channel.
pub proof fn law_unknown_is_ignored<M, H, P, L>(client: ClientView<M, H, P, L>, root: JsonView)
    requires
        event_kind(root) == EventKind::Other || (!client.channels.contains_key(
            event_channel(root),
        ) && event_kind(root) != EventKind::Ack && event_kind(root) != EventKind::Error),
    ensures
        client.receive(root) == client,
        delivery_for(client.channels, root) == DeliveryView::<M, H, P, L>::Nothing,
{
}

/// What an event calls depends on the channel that it is about, and on no other.
pub proof fn law_delivered_to_its_channel<M, H, P, L>(
    channels: Map<Seq<char>, ChannelView<M, H, P, L>>,
    root: JsonView,
    other: Seq<char>,
    channel: ChannelView<M, H, P, L>,
)
    requires
        other != event_channel(root),
    ensures
        delivery_for(channels.insert(other, channel), root) == delivery_for(channels, root),
{
}

/// A message calls all the callbacks that subscribed to its channel and no
/// other; after the channel was unsubscribed it calls none.
pub proof fn law_message_calls_subscribers<M, H, P, L>(
    channels: Map<Seq<char>, ChannelView<M, H, P, L>>,
    root: JsonView,
)
    requires
        event_kind(root) == EventKind::Message,
        channels.contains_key(event_channel(root)),
    ensures
        ({
            let name = event_channel(root);
            &&& delivery_for(channels, root) matches DeliveryView::Message(called, message)
                && called == channels[name].callbacks && message.meta.channel == name
            &&& delivery_for(channels.insert(name, channels[name].unsubscribe()), root) matches
                DeliveryView::Message(called, _) && called.len() == 0
        }),
{
}

/// The client after a sequence of frames.
pub open spec fn after_frames<M, H, P, L>(
    client: ClientView<M, H, P, L>,
    frames: Seq<JsonView>,
) -> ClientView<M, H, P, L>
    decreases frames.len(),
{
    if frames.len() == 0 {
        client
    } else {
        after_frames(client, frames.drop_last()).receive(frames.last())
    }
}

/// The frame is a message on one of the channels.
pub open spec fn is_delivered<M, H, P, L>(
    channels: Map<Seq<char>, ChannelView<M, H, P, L>>,
    frame: JsonView,
) -> bool {
    event_kind(frame) == EventKind::Message && channels.contains_key(event_channel(frame))
}

/// After any frames, the last message timestamp is the greatest among the one
/// that there was and those of the messages that were delivered. It never goes
/// back.
pub proof fn law_last_timestamp_is_greatest<M, H, P, L>(
    client: ClientView<M, H, P, L>,
    frames: Seq<JsonView>,
)
    ensures
        client.last_message_ts <= after_frames(client, frames).last_message_ts,
        forall|i: int|
            #![trigger frames[i]]
            0 <= i < frames.len() && is_delivered(client.channels, frames[i]) ==> number_at(
                frames[i],
                "timestamp"@,
            ) <= after_frames(client, frames).last_message_ts,
        after_frames(client, frames).last_message_ts == client.last_message_ts || exists|i: int|
            #![trigger frames[i]]
            0 <= i < frames.len() && is_delivered(client.channels, frames[i]) && number_at(
                frames[i],
                "timestamp"@,
            ) == after_frames(client, frames).last_message_ts,
        forall|name: Seq<char>| #[trigger]
            after_frames(client, frames).channels.contains_key(name)
                == client.channels.contains_key(name),
    decreases frames.len(),
{
    if frames.len() > 0 {
        let rest = frames.drop_last();
        law_last_timestamp_is_greatest(client, rest);
        let before = after_frames(client, rest);
        let last = frames[frames.len() - 1];
        assert(last == frames.last());
        assert forall|i: int| #![trigger frames[i]]
            0 <= i < frames.len() && is_delivered(client.channels, frames[i]) implies number_at(
            frames[i],
            "timestamp"@,
        ) <= after_frames(client, frames).last_message_ts by {
            if i < rest.len() {
                assert(rest[i] == frames[i]);
            }
        }
        if after_frames(client, frames).last_message_ts == before.last_message_ts
            && before.last_message_ts != client.last_message_ts {
            let i = choose|i: int|
                #![trigger rest[i]]
                0 <= i < rest.len() && is_delivered(client.channels, rest[i]) && number_at(
                    rest[i],
                    "timestamp"@,
                ) == before.last_message_ts;
            assert(frames[i] == rest[i]);
        }
    }
}

/// Only an acknowledged resumption with a token sets the token to resume with,
/// to that one; once there is a token there always is one.
pub proof fn law_resume_token<M, H, P, L>(client: ClientView<M, H, P, L>, root: JsonView)
    ensures
        client.receive(root).resume_token == (if event_kind(root) == EventKind::Ack && event_token(
            root,
        ) is Some {
            event_token(root)
        } else {
            client.resume_token
        }),
        client.resume_token is Some ==> client.receive(root).resume_token is Some,
{
}

/// A member under the wire names of its fields is read as that member, as an
/// object and as an array.
pub proof fn law_member_reads_back(member: PresenceMemberView)
    ensures
        presence_member(
            Some(
                JsonView::Object(
                    map![
                        "clientId"@ => JsonView::Text(member.client_id),
                        "data"@ => member.data,
                        "joinedAt"@ => JsonView::Integer(member.joined_at as int),
                    ],
                ),
            ),
        ) == member,
        presence_member(
            Some(
                JsonView::Array(
                    seq![
                        JsonView::Text(member.client_id),
                        member.data,
                        JsonView::Integer(member.joined_at as int),
                    ],
                ),
            ),
        ) == member,
{
    reveal_strlit("clientId");
    reveal_strlit("data");
    reveal_strlit("joinedAt");
    assert("clientId"@[0] != "joinedAt"@[0]);
}

/// A message under the wire names of its fields is delivered as that message.
pub proof fn law_message_reads_back(message: MessageView)
    ensures
        ({
            let root = JsonView::Object(
                map![
                    "action"@ => JsonView::Text("message"@),
                    "channel"@ => JsonView::Text(message.meta.channel),
                    "data"@ => message.data,
                    "id"@ => JsonView::Text(message.meta.id),
                    "timestamp"@ => JsonView::Integer(message.meta.timestamp as int),
                ],
            );
            &&& event_kind(root) == EventKind::Message
            &&& event_message(root) == message
        }),
{
    reveal_strlit("action");
    reveal_strlit("channel");
    reveal_strlit("data");
    reveal_strlit("id");
    reveal_strlit("timestamp");
    assert("action"@.len() == 6);
    assert("channel"@.len() == 7);
    assert("data"@.len() == 4);
    assert("id"@.len() == 2);
    assert("timestamp"@.len() == 9);
}

/// The wire form of a message in a history answer.
pub open spec fn history_entry_json(message: HistoryMessageView) -> JsonView {
    JsonView::Object(
        map![
            "id"@ => JsonView::Text(message.id),
            "channel"@ => JsonView::Text(message.channel),
            "data"@ => message.data,
            "publisherId"@ => JsonView::Text(message.publisher_id),
            "timestamp"@ => JsonView::Integer(message.timestamp as int),
            "sequence"@ => JsonView::Integer(message.sequence as int),
        ],
    )
}

/// A history answer under the wire names of its fields is read as that answer,
/// whatever channel the frame is on.
pub proof fn law_history_reads_back(result: HistoryResultView, frame_channel: Seq<char>)
    ensures
        history_answer(
            Some(
                JsonView::Object(
                    map![
                        "channel"@ => JsonView::Text(result.channel),
                        "hasMore"@ => JsonView::Bool(result.has_more),
                        "messages"@ => JsonView::Array(
                            result.messages.map_values(
                                |message: HistoryMessageView| history_entry_json(message),
                            ),
                        ),
                    ],
                ),
            ),
            frame_channel,
        ) == result,
{
    reveal_strlit("id");
    reveal_strlit("channel");
    reveal_strlit("data");
    reveal_strlit("publisherId");
    reveal_strlit("timestamp");
    reveal_strlit("sequence");
    reveal_strlit("hasMore");
    reveal_strlit("messages");
    assert("id"@.len() == 2);
    assert("channel"@.len() == 7);
    assert("data"@.len() == 4);
    assert("publisherId"@.len() == 11);
    assert("timestamp"@.len() == 9);
    assert("sequence"@.len() == 8);
    assert("hasMore"@.len() == 7 && "hasMore"@[0] != "channel"@[0]);
    assert("messages"@.len() == 8);
    assert forall|message: HistoryMessageView| #[trigger]
        history_entry(history_entry_json(message), frame_channel) == message by {}
    let items = result.messages.map_values(
        |message: HistoryMessageView| history_entry_json(message),
    );
    assert(items.map_values(|item: JsonView| history_entry(item, frame_channel))
        =~= result.messages);
}

/// Who asks for the members of a channel is told of the next list on it, after
/// those who are told of every list, and of no later one. Who asks without a
/// connection does not wait.
pub proof fn law_members_told_once<M, H, P, L>(
    client: ClientView<M, H, P, L>,
    name: Seq<char>,
    cb: L,
    list: JsonView,
    later: JsonView,
)
    requires
        event_kind(list) == EventKind::PresenceMembers,
        event_kind(later) == EventKind::PresenceMembers,
        event_channel(list) == name,
        event_channel(later) == name,
    ensures
        ({
            let channel = channel_or_fresh(client.channels, name);
            let asked = client.with_channel(
                name,
                ChannelView { presence: channel.presence.get(cb, true), ..channel },
            );
            &&& delivery_for(asked.channels, list) == DeliveryView::<M, H, P, L>::Members(
                channel.presence.told_of_members().push(cb),
                presence_members(list.get("data"@)),
            )
            &&& delivery_for(asked.receive(list).channels, later) == DeliveryView::<
                M,
                H,
                P,
                L,
            >::Members(channel.presence.members_cbs, presence_members(later.get("data"@)))
            &&& channel.presence.get(cb, false) == channel.presence
        }),
{
    let channel = channel_or_fresh(client.channels, name);
    assert(channel.presence.get(cb, true).told_of_members()
        =~= channel.presence.told_of_members().push(cb));
    assert(channel.presence.nobody_waits().told_of_members() =~= channel.presence.members_cbs);
}

// The connection.

/// The reader stops only for a client that has been disconnected, and then only
/// when the connection fails or ends. A lost connection is otherwise always to
/// be replaced.
pub proof fn law_reader_runs_until_disconnected<M: Clone, H: Clone, P: Clone, L: Clone>(
    client: ClientView<M, H, P, L>,
    event: ReadEvent,
    step: ReadStep<M, H, P, L>,
)
    requires
        client.reads(event, step),
    ensures
        step is Stop ==> !client.connected && (event is Failed || event is Closed
            || event is ReconnectFailed),
        client.connected && (event is Failed || event is Closed || event is ReconnectFailed)
            ==> step is Reconnect,
        client.after_read(event).connected == client.connected,
        client.after_read(event).reading == client.reading,
{
}

/// The client after its reader has met a sequence of events.
pub open spec fn after_reads<M, H, P, L>(
    client: ClientView<M, H, P, L>,
    events: Seq<ReadEvent>,
) -> ClientView<M, H, P, L>
    decreases events.len(),
{
    if events.len() == 0 {
        client
    } else {
        after_reads(client, events.drop_last()).after_read(events.last())
    }
}

/// Whatever the reader meets, a wait stays pending until somebody disconnects:
/// the client stays connected, its reader running and waited for, and the next
/// event does not stop the reader. A further wait has nothing to wait for, and
/// disconnecting stops the reader that is waited for.
pub proof fn law_wait_lasts_until_disconnected<M: Clone, H: Clone, P: Clone, L: Clone>(
    client: ClientView<M, H, P, L>,
    events: Seq<ReadEvent>,
    event: ReadEvent,
    step: ReadStep<M, H, P, L>,
)
    requires
        client.connected,
        client.has_reader_to_await(),
        after_reads(client.wait(), events).reads(event, step),
    ensures
        step !is Stop,
        !after_reads(client.wait(), events).has_reader_to_await(),
        after_reads(client.wait(), events).shutdown().abort_read,
        !after_reads(client.wait(), events).disconnect().reading,
{
    lemma_reads_keep_the_connection(client.wait(), events);
}

/// Reading neither disconnects a client nor stops or awaits its reader.
proof fn lemma_reads_keep_the_connection<M, H, P, L>(
    client: ClientView<M, H, P, L>,
    events: Seq<ReadEvent>,
)
    ensures
        after_reads(client, events).connected == client.connected,
        after_reads(client, events).reading == client.reading,
        after_reads(client, events).awaited == client.awaited,
    decreases events.len(),
{
    if events.len() > 0 {
        lemma_reads_keep_the_connection(client, events.drop_last());
    }
}

/// Disconnecting has the reader stopped, whether or not somebody waits for it.
pub proof fn law_disconnect_ends_a_wait<M, H, P, L>(client: ClientView<M, H, P, L>)
    ensures
        client.wait().shutdown() == client.shutdown(),
        client.wait().shutdown().abort_read == client.reading,
        !client.wait().has_reader_to_await(),
        !client.wait().disconnect().reading,
{
}

/// After a lost connection has been replaced, every channel that is listened to
/// is subscribed, also one that was subscribed while there was nothing to send
/// on; the others are not; and whoever was registered for anything still is, so
/// that every event calls whom it called before. The latest timestamp and the
/// token to resume with are kept, and a pending wait goes on.
pub proof fn law_recovery<M, H, P, L>(
    client: ClientView<M, H, P, L>,
    name: Seq<char>,
    root: JsonView,
)
    requires
        client.connected,
        client.channels.contains_key(name),
    ensures
        client.reopened().connected,
        client.reopened().reading == client.reading,
        client.reopened().awaited == client.awaited,
        client.reopened().channels[name].subscribed == listened(client.channels).contains(name),
        client.reopened().channels[name].callbacks == client.channels[name].callbacks,
        client.reopened().channels[name].history_cbs == client.channels[name].history_cbs,
        client.reopened().channels[name].presence == client.channels[name].presence,
        client.reopened().channels.dom() == client.channels.dom(),
        delivery_for(client.reopened().channels, root) == delivery_for(client.channels, root),
        client.reopened().last_message_ts == client.last_message_ts,
        client.reopened().resume_token == client.resume_token,
        client.reopened().reopened() == client.reopened(),
{
    assert(client.reopened().channels.dom() =~= client.channels.dom());
}

/// A token that an acknowledged resumption gave is the one that the next request
/// for missed messages presents, along with the greatest timestamp delivered. A
/// message that was delivered with a timestamp gives something to resume from.
pub proof fn law_resumes_where_it_was<M, H, P, L>(
    client: ClientView<M, H, P, L>,
    root: JsonView,
)
    ensures
        event_kind(root) == EventKind::Ack && event_token(root) is Some ==> {
            &&& client.receive(root).can_resume()
            &&& resume_message(
                client.receive(root).resume_token,
                client.receive(root).last_message_ts,
            ) == resume_message(event_token(root), client.last_message_ts)
        },
        is_delivered(client.channels, root) && number_at(root, "timestamp"@) > 0
            ==> client.receive(root).can_resume(),
{
}

/// The client and its namespace keep one channel under a name: what is done to
/// it through either is what the other then has.
pub proof fn law_one_channel_under_a_name<M, H, P, L>(
    client: ClientView<M, H, P, L>,
    name: Seq<char>,
    left: ChannelView<M, H, P, L>,
)
    ensures
        client.with_channel(name, left) == (ClientView {
            channels: client.channels.insert(name, left),
            ..client
        }),
        channel_or_fresh(client.with_channel(name, left).channels, name) == left,
        fresh_channel::<M, H, P, L>(name).name == name,
{
}

// What goes out.

/// Requests to publish under different ids are different, even for equal data.
pub proof fn law_ids_tell_publications_apart(
    channel: Seq<char>,
    data: JsonView,
    persist: bool,
    id: Seq<char>,
    other: Seq<char>,
)
    requires
        id != other,
    ensures
        publish_message(channel, data, id, persist).get("id"@) == Some(JsonView::Text(id)),
        publish_message(channel, data, id, persist) != publish_message(
            channel,
            data,
            other,
            persist,
        ),
{
    reveal_strlit("id");
    reveal_strlit("persist");
    assert("id"@.len() == 2);
    assert("persist"@.len() == 7);
    assert(publish_message(channel, data, other, persist).get("id"@) == Some(
        JsonView::Text(other),
    ));
}

/// Once disconnected, a client sends nothing, has nothing to wait for, and has
/// nothing left to undo; disconnecting again changes nothing, and no connection
/// brings it back. It keeps its channels, with all that is registered on them but
/// those who waited for members.
pub proof fn law_disconnected_is_silent<M, H, P, L>(
    client: ClientView<M, H, P, L>,
    message: JsonView,
    frame: Option<String>,
    name: Seq<char>,
)
    requires
        sends(frame, client.disconnect().connected, message),
    ensures
        frame is None,
        !client.disconnect().has_reader_to_await(),
        !client.disconnect().connected && !client.disconnect().reading
            && !client.disconnect().pinging,
        client.disconnect().disconnect() == client.disconnect(),
        client.disconnect().reopened() == client.disconnect(),
        client.disconnect().channels.contains_key(name) == client.channels.contains_key(name),
        client.channels.contains_key(name) ==> client.disconnect().channels[name]
            == client.channels[name].nobody_waits(),
{
}

/// An object of members that read back reads back.
proof fn lemma_flat(members: Map<Seq<char>, JsonView>)
    requires
        members.dom().finite(),
        forall|key: Seq<char>| #[trigger]
            members.contains_key(key) ==> reads_back(members[key], 126),
    ensures
        reads_back(JsonView::Object(members), 127),
{
}

/// The server reads every request as what was asked for: those without data
/// always, and those with data where the data is nested at most 126 levels and
/// without floats.
pub proof fn law_requests_read_back(
    action: Seq<char>,
    channel: Seq<char>,
    rewind: u32,
    options: HistoryOptionsView,
    data: JsonView,
    id: Seq<char>,
    persist: bool,
    token: Option<Seq<char>>,
    last_message_ts: u64,
)
    ensures
        reads_back(resume_message(token, last_message_ts), 127),
        reads_back(ping_message(), 127),
        reads_back(subscribe_message(channel, rewind), 127),
        reads_back(unsubscribe_message(channel), 127),
        reads_back(history_message(channel, options), 127),
        reads_back(presence_message(action, channel, None), 127),
        reads_back(data, 126) ==> reads_back(presence_message(action, channel, Some(data)), 127),
        reads_back(data, 126) ==> reads_back(publish_message(channel, data, id, persist), 127),
{
    lemma_flat(resume_message(token, last_message_ts)->Object_0);
    lemma_flat(ping_message()->Object_0);
    lemma_flat(subscribe_message(channel, rewind)->Object_0);
    lemma_flat(unsubscribe_message(channel)->Object_0);
    lemma_flat(history_message(channel, options)->Object_0);
    lemma_flat(presence_message(action, channel, None)->Object_0);
    if reads_back(data, 126) {
        lemma_flat(presence_message(action, channel, Some(data))->Object_0);
        lemma_flat(publish_message(channel, data, id, persist)->Object_0);
    }
}

/// The server reads the body of every push request as what was asked for.
pub proof fn law_push_bodies_read_back(
    platform: Seq<char>,
    member_id: Seq<char>,
    device_token: Seq<char>,
    title: Seq<char>,
    body: Option<Seq<char>>,
)
    ensures
        reads_back(registration(platform, member_id, device_token), 127),
        reads_back(removal(member_id, None), 127),
        reads_back(removal(member_id, Some(platform)), 127),
        reads_back(notification(Some(member_id), title, body), 127),
        reads_back(notification(None, title, body), 127),
{
    lemma_flat(registration(platform, member_id, device_token)->Object_0);
    lemma_flat(removal(member_id, None)->Object_0);
    lemma_flat(removal(member_id, Some(platform))->Object_0);
    lemma_flat(notification(Some(member_id), title, body)->Object_0);
    lemma_flat(notification(None, title, body)->Object_0);
}

/// The URL that a push client keeps does not end in a slash, and is the one it
/// was given up to slashes at the end; giving it the URL that it keeps makes
/// the same client.
pub proof fn law_push_url(base_url: Seq<char>, token: Seq<char>, app_id: Seq<char>)
    ensures
        ({
            let kept = push_client(base_url, token, app_id).base_url;
            &&& kept.len() > 0 ==> kept.last() != '/'
            &&& kept.is_prefix_of(base_url)
            &&& forall|i: int| kept.len() <= i < base_url.len() ==> base_url[i] == '/'
            &&& push_client(kept, token, app_id) == push_client(base_url, token, app_id)
        }),
    decreases base_url.len(),
{
    if base_url.len() > 0 && base_url.last() == '/' {
        law_push_url(base_url.drop_last(), token, app_id);
        let kept = without_trailing_slashes(base_url);
        assert forall|i: int| kept.len() <= i < base_url.len() implies base_url[i] == '/' by {
            if i < base_url.len() - 1 {
                assert(base_url.drop_last()[i] == base_url[i]);
            }
        }
    }
}

} // verus!
