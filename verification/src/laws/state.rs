//! What every operation does to a channel and to a client, field by field.

use crate::call::Call;
use crate::channel::{ChannelHandle, ChannelView};
use crate::client::{Client, ClientView, PubSubNamespace, Shutdown};
use crate::json::{Json, JsonView};
use crate::laws::incoming::{calls_each, is_answer, same_member};
use crate::laws::outgoing::{is_frame, lemma_wire_names};
use crate::presence::PresenceHandle;
use crate::push::PushClient;
use crate::request::{presence_message, subscribe_message};
use crate::types::{HistoryResult, Message, MessageMeta, PresenceMember};
use vstd::prelude::*;

verus! {

// Channels.

/// The channel goes by this name, on its presence side too, and nobody has
/// registered anything on it.
pub open spec fn is_new_channel<M, H, P, L>(
    channel: ChannelView<M, H, P, L>,
    name: Seq<char>,
) -> bool {
    &&& channel.name == name
    &&& !channel.subscribed
    &&& channel.callbacks.len() == 0
    &&& channel.history_cbs.len() == 0
    &&& channel.presence.channel_name == name
    &&& channel.presence.enter_cbs.len() == 0
    &&& channel.presence.leave_cbs.len() == 0
    &&& channel.presence.update_cbs.len() == 0
    &&& channel.presence.members_cbs.len() == 0
    &&& channel.presence.waiting_cbs.len() == 0
}

/// A channel that is got by name is the one that is there, or a new one where
/// none is. It is kept under that name as it is left, and every other channel
/// stays as it was.
pub proof fn law_channel_by_name<M, H, P, L>(
    namespace: &mut PubSubNamespace<M, H, P, L>,
    name: &str,
    channel: &mut ChannelHandle<M, H, P, L>,
    other: Seq<char>,
)
    requires
        call_ensures(PubSubNamespace::<M, H, P, L>::channel, (namespace, name), channel),
    ensures
        old(namespace)@.contains_key(name@) ==> old(channel)@ == old(namespace)@[name@],
        !old(namespace)@.contains_key(name@) ==> is_new_channel(old(channel)@, name@),
        final(namespace)@.contains_key(name@),
        final(namespace)@[name@] == final(channel)@,
        other != name@
            ==> final(namespace)@.contains_key(other) == old(namespace)@.contains_key(other),
        other != name@ && old(namespace)@.contains_key(other)
            ==> final(namespace)@[other] == old(namespace)@[other],
{
}

/// The client gets a channel as its namespace does, and nothing but its channels
/// changes.
pub proof fn law_channel_of_client<M, H, P, L>(
    client: &mut Client<M, H, P, L>,
    name: &str,
    channel: &mut ChannelHandle<M, H, P, L>,
    other: Seq<char>,
)
    requires
        call_ensures(Client::<M, H, P, L>::channel, (client, name), channel),
    ensures
        old(client)@.channels.contains_key(name@)
            ==> old(channel)@ == old(client)@.channels[name@],
        !old(client)@.channels.contains_key(name@) ==> is_new_channel(old(channel)@, name@),
        final(client)@.channels.contains_key(name@),
        final(client)@.channels[name@] == final(channel)@,
        other != name@ ==> final(client)@.channels.contains_key(other)
            == old(client)@.channels.contains_key(other),
        other != name@ && old(client)@.channels.contains_key(other)
            ==> final(client)@.channels[other] == old(client)@.channels[other],
        final(client)@ == (ClientView { channels: final(client)@.channels, ..old(client)@ }),
{
}

/// A channel is found under a name just where there is one, and is that one.
pub proof fn law_channel_is_found<M, H, P, L>(
    namespace: PubSubNamespace<M, H, P, L>,
    name: &str,
    found: Option<&ChannelHandle<M, H, P, L>>,
)
    requires
        call_ensures(PubSubNamespace::<M, H, P, L>::find, (&namespace, name), found),
    ensures
        found is Some <==> namespace@.contains_key(name@),
        found matches Some(channel) ==> channel@ == namespace@[name@],
{
}

/// To mark a channel for resubscription is to have it count as not subscribed,
/// and nothing else. A channel has listeners just where a callback has
/// subscribed to it.
pub proof fn law_mark<M, H, P, L>(
    channel: &mut ChannelHandle<M, H, P, L>,
    other: ChannelHandle<M, H, P, L>,
    listening: bool,
)
    requires
        call_ensures(ChannelHandle::<M, H, P, L>::mark_for_resubscribe, (channel,), ()),
        call_ensures(ChannelHandle::<M, H, P, L>::has_listeners, (&other,), listening),
    ensures
        !final(channel)@.subscribed,
        final(channel)@.name == old(channel)@.name,
        final(channel)@.callbacks == old(channel)@.callbacks,
        final(channel)@.history_cbs == old(channel)@.history_cbs,
        final(channel)@.presence == old(channel)@.presence,
        listening <==> other@.callbacks.len() != 0,
{
}

/// A callback for history listens after those who listen already, and nothing
/// else changes.
pub proof fn law_on_history<M, H, P, L>(channel: &mut ChannelHandle<M, H, P, L>, cb: H)
    requires
        call_ensures(ChannelHandle::<M, H, P, L>::on_history, (channel, cb), ()),
    ensures
        final(channel)@.history_cbs == old(channel)@.history_cbs + seq![cb],
        final(channel)@.name == old(channel)@.name,
        final(channel)@.subscribed == old(channel)@.subscribed,
        final(channel)@.callbacks == old(channel)@.callbacks,
        final(channel)@.presence == old(channel)@.presence,
{
}

/// A callback for members who enter listens after those who listen already, and
/// nothing else changes.
pub proof fn law_on_enter<P, L>(presence: &mut PresenceHandle<P, L>, cb: P)
    requires
        call_ensures(PresenceHandle::<P, L>::on_enter, (presence, cb), ()),
    ensures
        final(presence)@.enter_cbs == old(presence)@.enter_cbs + seq![cb],
        final(presence)@.channel_name == old(presence)@.channel_name,
        final(presence)@.leave_cbs == old(presence)@.leave_cbs,
        final(presence)@.update_cbs == old(presence)@.update_cbs,
        final(presence)@.members_cbs == old(presence)@.members_cbs,
        final(presence)@.waiting_cbs == old(presence)@.waiting_cbs,
{
}

/// A callback for members who leave listens after those who listen already, and
/// nothing else changes.
pub proof fn law_on_leave<P, L>(presence: &mut PresenceHandle<P, L>, cb: P)
    requires
        call_ensures(PresenceHandle::<P, L>::on_leave, (presence, cb), ()),
    ensures
        final(presence)@.leave_cbs == old(presence)@.leave_cbs + seq![cb],
        final(presence)@.channel_name == old(presence)@.channel_name,
        final(presence)@.enter_cbs == old(presence)@.enter_cbs,
        final(presence)@.update_cbs == old(presence)@.update_cbs,
        final(presence)@.members_cbs == old(presence)@.members_cbs,
        final(presence)@.waiting_cbs == old(presence)@.waiting_cbs,
{
}

/// A callback for members who change their data listens after those who listen
/// already, and nothing else changes.
pub proof fn law_on_update<P, L>(presence: &mut PresenceHandle<P, L>, cb: P)
    requires
        call_ensures(PresenceHandle::<P, L>::on_update, (presence, cb), ()),
    ensures
        final(presence)@.update_cbs == old(presence)@.update_cbs + seq![cb],
        final(presence)@.channel_name == old(presence)@.channel_name,
        final(presence)@.enter_cbs == old(presence)@.enter_cbs,
        final(presence)@.leave_cbs == old(presence)@.leave_cbs,
        final(presence)@.members_cbs == old(presence)@.members_cbs,
        final(presence)@.waiting_cbs == old(presence)@.waiting_cbs,
{
}

/// A callback for every list of members listens after those who listen already,
/// and nothing else changes.
pub proof fn law_on_members<P, L>(presence: &mut PresenceHandle<P, L>, cb: L)
    requires
        call_ensures(PresenceHandle::<P, L>::on_members, (presence, cb), ()),
    ensures
        final(presence)@.members_cbs == old(presence)@.members_cbs + seq![cb],
        final(presence)@.channel_name == old(presence)@.channel_name,
        final(presence)@.enter_cbs == old(presence)@.enter_cbs,
        final(presence)@.leave_cbs == old(presence)@.leave_cbs,
        final(presence)@.update_cbs == old(presence)@.update_cbs,
        final(presence)@.waiting_cbs == old(presence)@.waiting_cbs,
{
}

/// The presence side of a channel is its own; what is done to it is done to the
/// channel, and nothing else changes.
pub proof fn law_presence_of_channel<M, H, P, L>(
    channel: &mut ChannelHandle<M, H, P, L>,
    presence: &mut PresenceHandle<P, L>,
    other: ChannelHandle<M, H, P, L>,
    seen: &PresenceHandle<P, L>,
)
    requires
        call_ensures(ChannelHandle::<M, H, P, L>::presence_mut, (channel,), presence),
        call_ensures(ChannelHandle::<M, H, P, L>::presence, (&other,), seen),
    ensures
        old(presence)@ == old(channel)@.presence,
        final(channel)@.presence == final(presence)@,
        final(channel)@.name == old(channel)@.name,
        final(channel)@.subscribed == old(channel)@.subscribed,
        final(channel)@.callbacks == old(channel)@.callbacks,
        final(channel)@.history_cbs == old(channel)@.history_cbs,
        seen@ == other@.presence,
{
}

// Calls.

/// A message calls every subscriber, each with the data and all that comes
/// along as they are given.
pub proof fn law_emit<M: Clone, H: Clone, P: Clone, L: Clone>(
    channel: ChannelHandle<M, H, P, L>,
    data: Json,
    meta: MessageMeta,
    calls: Vec<Call<M, Message>>,
)
    requires
        call_ensures(ChannelHandle::<M, H, P, L>::emit, (&channel, data, meta), calls),
    ensures
        calls_each(calls@, channel@.callbacks),
        forall|i: int|
            #![trigger calls@[i]]
            0 <= i < calls@.len() ==> {
                &&& calls@[i].argument.data@ == data@
                &&& calls@[i].argument.meta.id@ == meta.id@
                &&& calls@[i].argument.meta.channel@ == meta.channel@
                &&& calls@[i].argument.meta.timestamp == meta.timestamp
            },
{
}

/// A history answer calls everybody who listens for history, each with the
/// answer as it is given.
pub proof fn law_emit_history<M: Clone, H: Clone, P: Clone, L: Clone>(
    channel: ChannelHandle<M, H, P, L>,
    result: HistoryResult,
    calls: Vec<Call<H, HistoryResult>>,
)
    requires
        call_ensures(ChannelHandle::<M, H, P, L>::emit_history, (&channel, result), calls),
    ensures
        calls_each(calls@, channel@.history_cbs),
        forall|i: int|
            #![trigger calls@[i]]
            0 <= i < calls@.len() ==> is_answer(calls@[i].argument, result@),
{
    assert forall|i: int| #![trigger calls@[i]] 0 <= i < calls@.len() implies is_answer(
        calls@[i].argument,
        result@,
    ) by {
        let argument = calls@[i].argument;
        assert(argument.deep_view() == result@);
        assert(argument@.messages.len() == argument.messages@.len());
        assert forall|j: int| 0 <= j < result@.messages.len() implies
            crate::laws::incoming::is_entry(
            #[trigger] argument.messages@[j],
            result@.messages[j],
        ) by {
            assert(argument@.messages[j] == argument.messages@[j]@);
        }
    }
}

/// Who registered for members who enter, leave or change their data is called
/// with the member as it is given, and nobody else is.
pub proof fn law_emit_member<P: Clone, L: Clone>(
    presence: PresenceHandle<P, L>,
    member: PresenceMember,
    entered: Vec<Call<P, PresenceMember>>,
    left: Vec<Call<P, PresenceMember>>,
    updated: Vec<Call<P, PresenceMember>>,
)
    requires
        call_ensures(PresenceHandle::<P, L>::emit_enter, (&presence, member), entered),
        call_ensures(PresenceHandle::<P, L>::emit_leave, (&presence, member), left),
        call_ensures(PresenceHandle::<P, L>::emit_update, (&presence, member), updated),
    ensures
        calls_each(entered@, presence@.enter_cbs),
        calls_each(left@, presence@.leave_cbs),
        calls_each(updated@, presence@.update_cbs),
        forall|i: int|
            #![trigger entered@[i]]
            0 <= i < entered@.len() ==> same_member(entered@[i].argument, member),
        forall|i: int|
            #![trigger left@[i]]
            0 <= i < left@.len() ==> same_member(left@[i].argument, member),
        forall|i: int|
            #![trigger updated@[i]]
            0 <= i < updated@.len() ==> same_member(updated@[i].argument, member),
{
}

/// A list of members calls those who are told of every list and then those who
/// asked for this one, each with the list as it is given; then nobody waits,
/// and nothing else changes.
pub proof fn law_emit_members<P: Clone, L: Clone>(
    presence: &mut PresenceHandle<P, L>,
    members: Vec<PresenceMember>,
    calls: Vec<Call<L, Vec<PresenceMember>>>,
)
    requires
        call_ensures(PresenceHandle::<P, L>::emit_members, (presence, members), calls),
    ensures
        calls_each(calls@, old(presence)@.members_cbs + old(presence)@.waiting_cbs),
        forall|i: int|
            #![trigger calls@[i]]
            0 <= i < calls@.len() ==> calls@[i].argument@.len() == members@.len(),
        forall|i: int, j: int|
            0 <= i < calls@.len() && 0 <= j < members@.len() ==> same_member(
                #[trigger] calls@[i].argument@[j],
                members@[j],
            ),
        final(presence)@.waiting_cbs.len() == 0,
        final(presence)@.channel_name == old(presence)@.channel_name,
        final(presence)@.enter_cbs == old(presence)@.enter_cbs,
        final(presence)@.leave_cbs == old(presence)@.leave_cbs,
        final(presence)@.update_cbs == old(presence)@.update_cbs,
        final(presence)@.members_cbs == old(presence)@.members_cbs,
{
    assert forall|i: int| #![trigger calls@[i]] 0 <= i < calls@.len() implies
        calls@[i].argument@.len() == members@.len() by {
        assert(calls@[i].argument.deep_view().len() == calls@[i].argument@.len());
        assert(members.deep_view().len() == members@.len());
    }
    assert forall|i: int, j: int|
        0 <= i < calls@.len() && 0 <= j < members@.len() implies same_member(
        #[trigger] calls@[i].argument@[j],
        members@[j],
    ) by {
        assert(calls@[i].argument.deep_view() == members.deep_view());
        assert(calls@[i].argument.deep_view()[j] == members.deep_view()[j]);
    }
}

// The client.

/// To connect is to open the URL with the key behind it; the client is then
/// connected, reads and pings, nobody has waited for it, it has nothing to
/// resume from, no channels and no push client.
pub proof fn law_connect<M, H, P, L>(
    url: &str,
    api_key: &str,
    start: (String, Client<M, H, P, L>),
)
    requires
        call_ensures(Client::<M, H, P, L>::connect, (url, api_key), start),
    ensures
        start.0@ == url@ + "/?key="@ + api_key@,
        start.1@.connected && start.1@.reading && start.1@.pinging && !start.1@.awaited,
        start.1@.last_message_ts == 0,
        start.1@.resume_token is None,
        forall|name: Seq<char>| !#[trigger] start.1@.channels.contains_key(name),
        start.1@.push is None,
{
}

/// What a client tells of itself is what it holds.
pub proof fn law_client_tells<M, H, P, L>(
    client: Client<M, H, P, L>,
    connected: bool,
    timestamp: u64,
    token: Option<&str>,
    push: Option<&PushClient>,
)
    requires
        call_ensures(Client::<M, H, P, L>::is_connected, (&client,), connected),
        call_ensures(Client::<M, H, P, L>::last_message_ts, (&client,), timestamp),
        call_ensures(Client::<M, H, P, L>::resume_token, (&client,), token),
        call_ensures(Client::<M, H, P, L>::configured_push, (&client,), push),
    ensures
        connected <==> client@.connected,
        timestamp == client@.last_message_ts,
        token is Some <==> client@.resume_token is Some,
        token matches Some(token) ==> client@.resume_token == Some(token@),
        push is Some <==> client@.push is Some,
        push matches Some(push) ==> client@.push == Some(push@),
{
}

/// The namespace of a client holds its channels; what is done to it is done to
/// the client, and nothing else changes.
pub proof fn law_namespace_of_client<M, H, P, L>(
    client: &mut Client<M, H, P, L>,
    namespace: &mut PubSubNamespace<M, H, P, L>,
)
    requires
        call_ensures(Client::<M, H, P, L>::namespace, (client,), namespace),
    ensures
        old(namespace)@ == old(client)@.channels,
        final(client)@.channels == final(namespace)@,
        final(client)@ == (ClientView { channels: final(client)@.channels, ..old(client)@ }),
{
}

/// To configure push is to get a client with the token, the app and the URL
/// given, but for slashes at its end, and to have the client keep the like;
/// nothing else changes.
pub proof fn law_configure_push<M, H, P, L>(
    client: &mut Client<M, H, P, L>,
    base_url: &str,
    token: &str,
    app_id: &str,
    push: PushClient,
)
    requires
        call_ensures(
            Client::<M, H, P, L>::configure_push,
            (client, base_url, token, app_id),
            push,
        ),
    ensures
        push@.token == token@,
        push@.app_id == app_id@,
        push@.base_url.len() > 0 ==> push@.base_url.last() != '/',
        push@.base_url.is_prefix_of(base_url@),
        forall|i: int| push@.base_url.len() <= i < base_url@.len() ==> base_url@[i] == '/',
        final(client)@.push == Some(push@),
        final(client)@ == (ClientView { push: final(client)@.push, ..old(client)@ }),
{
    crate::laws::law_push_url(base_url@, token@, app_id@);
}

/// There is a reader to wait for just where one runs and nobody has waited for
/// it; then somebody has, and nothing else changes.
pub proof fn law_wait<M, H, P, L>(client: &mut Client<M, H, P, L>, wait_for_reader: bool)
    requires
        call_ensures(Client::<M, H, P, L>::wait, (client,), wait_for_reader),
    ensures
        wait_for_reader <==> old(client)@.reading && !old(client)@.awaited,
        final(client)@.awaited,
        final(client)@.reading == old(client)@.reading,
        final(client)@.connected == old(client)@.connected,
        final(client)@.pinging == old(client)@.pinging,
        final(client)@.last_message_ts == old(client)@.last_message_ts,
        final(client)@.resume_token == old(client)@.resume_token,
        final(client)@.channels == old(client)@.channels,
        final(client)@.push == old(client)@.push,
{
}

/// To disconnect is to stop the pings, the reader and the connection as far as
/// they still run. Then none does, nobody waits for members, and all else,
/// every other registration too, stays as it was.
pub proof fn law_disconnect<M, H, P, L>(
    client: &mut Client<M, H, P, L>,
    shutdown: Shutdown,
    name: Seq<char>,
)
    requires
        call_ensures(Client::<M, H, P, L>::disconnect, (client,), shutdown),
    ensures
        shutdown.abort_ping <==> old(client)@.pinging,
        shutdown.abort_read <==> old(client)@.reading,
        shutdown.close_connection <==> old(client)@.connected,
        !final(client)@.connected && !final(client)@.reading && !final(client)@.pinging,
        final(client)@.awaited == old(client)@.awaited,
        final(client)@.last_message_ts == old(client)@.last_message_ts,
        final(client)@.resume_token == old(client)@.resume_token,
        final(client)@.push == old(client)@.push,
        final(client)@.channels.contains_key(name) == old(client)@.channels.contains_key(name),
        old(client)@.channels.contains_key(name) ==> {
            let before = old(client)@.channels[name];
            let after = final(client)@.channels[name];
            &&& after.name == before.name
            &&& after.subscribed == before.subscribed
            &&& after.callbacks == before.callbacks
            &&& after.history_cbs == before.history_cbs
            &&& after.presence.channel_name == before.presence.channel_name
            &&& after.presence.enter_cbs == before.presence.enter_cbs
            &&& after.presence.leave_cbs == before.presence.leave_cbs
            &&& after.presence.update_cbs == before.presence.update_cbs
            &&& after.presence.members_cbs == before.presence.members_cbs
            &&& after.presence.waiting_cbs.len() == 0
        },
{
}

/// A frame that subscribes, without a rewind, the channel of this name.
pub open spec fn is_subscription(frame: String, name: Seq<char>) -> bool {
    exists|members: Map<Seq<char>, JsonView>|
        {
            &&& #[trigger] is_frame(Some(frame), true, members)
            &&& members["action"@] == JsonView::Text("subscribe"@)
            &&& members["channel"@] == JsonView::Text(name)
            &&& forall|key: Seq<char>| #[trigger]
                members.contains_key(key) <==> (key == "action"@ || key == "channel"@)
        }
}

/// A frame that asks for the members of the channel of this name.
pub open spec fn is_members_request(frame: String, name: Seq<char>) -> bool {
    exists|members: Map<Seq<char>, JsonView>|
        {
            &&& #[trigger] is_frame(Some(frame), true, members)
            &&& members["action"@] == JsonView::Text("presence.get"@)
            &&& members["channel"@] == JsonView::Text(name)
            &&& forall|key: Seq<char>| #[trigger]
                members.contains_key(key) <==> (key == "action"@ || key == "channel"@)
        }
}

/// Once a lost connection has been replaced, a connected client subscribes,
/// each once, just the channels that somebody listens to, and these count as
/// subscribed, and no others do; nothing else changes. A client that has been
/// disconnected sends nothing and stays as it was. The names are those under
/// which the subscribed channels are kept, frame by frame.
pub proof fn law_reconnected<M, H, P, L>(
    client: &mut Client<M, H, P, L>,
    frames: Vec<String>,
    name: Seq<char>,
) -> (names: Seq<Seq<char>>)
    requires
        call_ensures(Client::<M, H, P, L>::reconnected, (client,), frames),
    ensures
        frames@.len() == names.len(),
        names.no_duplicates(),
        old(client)@.connected ==> forall|listened: Seq<char>| #[trigger]
            names.contains(listened) <==> old(client)@.channels.contains_key(listened)
                && old(client)@.channels[listened].callbacks.len() != 0,
        !old(client)@.connected ==> names.len() == 0 && final(client)@ == old(client)@,
        forall|i: int|
            0 <= i < frames@.len() ==> is_subscription(
                #[trigger] frames@[i],
                old(client)@.channels[names[i]].name,
            ),
        final(client)@.channels.contains_key(name) == old(client)@.channels.contains_key(name),
        old(client)@.connected && old(client)@.channels.contains_key(name) ==> {
            let before = old(client)@.channels[name];
            let after = final(client)@.channels[name];
            &&& after.subscribed <==> before.callbacks.len() != 0
            &&& after.name == before.name
            &&& after.callbacks == before.callbacks
            &&& after.history_cbs == before.history_cbs
            &&& after.presence == before.presence
        },
        final(client)@ == (ClientView { channels: final(client)@.channels, ..old(client)@ }),
{
    lemma_wire_names();
    let channels = old(client)@.channels;
    if old(client)@.connected {
        let names = choose|names: Seq<Seq<char>>|
            {
                &&& #[trigger] crate::client::enumerates(names, crate::client::listened(channels))
                &&& frames@.len() == names.len()
                &&& forall|i: int|
                    0 <= i < frames@.len() ==> crate::request::sends(
                        Some(#[trigger] frames@[i]),
                        true,
                        subscribe_message(channels[names[i]].name, 0),
                    )
            };
        assert forall|i: int| 0 <= i < frames@.len() implies is_subscription(
            #[trigger] frames@[i],
            channels[names[i]].name,
        ) by {
            let members = subscribe_message(channels[names[i]].name, 0)->Object_0;
            assert(is_frame(Some(frames@[i]), true, members));
        }
        names
    } else {
        Seq::empty()
    }
}

/// A connected client asks again, each once, for the members of just those
/// channels on which somebody waits for them; one that has been disconnected
/// asks nothing. The names are those under which the channels are kept, frame
/// by frame.
pub proof fn law_members_asked_again<M, H, P, L>(
    client: Client<M, H, P, L>,
    frames: Vec<String>,
) -> (names: Seq<Seq<char>>)
    requires
        call_ensures(Client::<M, H, P, L>::ask_members_again, (&client,), frames),
    ensures
        frames@.len() == names.len(),
        names.no_duplicates(),
        client@.connected ==> forall|name: Seq<char>| #[trigger]
            names.contains(name) <==> client@.channels.contains_key(name)
                && client@.channels[name].presence.waiting_cbs.len() != 0,
        !client@.connected ==> names.len() == 0,
        forall|i: int|
            0 <= i < frames@.len() ==> is_members_request(
                #[trigger] frames@[i],
                client@.channels[names[i]].presence.channel_name,
            ),
{
    lemma_wire_names();
    let channels = client@.channels;
    if client@.connected {
        let names = choose|names: Seq<Seq<char>>|
            {
                &&& #[trigger] crate::client::enumerates(names, crate::client::waited_for(channels))
                &&& frames@.len() == names.len()
                &&& forall|i: int|
                    0 <= i < frames@.len() ==> crate::request::sends(
                        Some(#[trigger] frames@[i]),
                        true,
                        presence_message(
                            "presence.get"@,
                            channels[names[i]].presence.channel_name,
                            None,
                        ),
                    )
            };
        assert forall|i: int| 0 <= i < frames@.len() implies is_members_request(
            #[trigger] frames@[i],
            channels[names[i]].presence.channel_name,
        ) by {
            let members = presence_message(
                "presence.get"@,
                channels[names[i]].presence.channel_name,
                None,
            )->Object_0;
            assert(is_frame(Some(frames@[i]), true, members));
        }
        names
    } else {
        Seq::empty()
    }
}

} // verus!
