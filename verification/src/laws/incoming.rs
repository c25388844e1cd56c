//! What the frames that come in call, and with what, field by field.

use crate::call::Call;
use crate::client::{
    delivers, delivery_for, resume_token_in, Client, ClientView, Delivery, EventKind, ReadEvent,
    ReadStep,
};
use crate::codec::text_reading;
use crate::inbound::{parse_history_result, parse_presence_member, parse_presence_members};
use crate::json::{Json, JsonView};
use crate::laws::outgoing::lemma_wire_names;
use crate::laws::values::{members_of, reads_data, reads_number, reads_text};
use crate::types::{
    HistoryMessage, HistoryMessageView, HistoryResult, HistoryResultView, MessageView,
    PresenceMember, PresenceMemberView,
};
use vstd::prelude::*;

verus! {

/// The frame has this action.
pub open spec fn has_action(members: Map<Seq<char>, JsonView>, action: Seq<char>) -> bool {
    members.contains_pair("action"@, JsonView::Text(action))
}

/// The frame is on this channel; one that names none is on that of the empty name.
pub open spec fn is_on_channel(members: Map<Seq<char>, JsonView>, name: Seq<char>) -> bool {
    reads_text(members, "channel"@, Seq::empty(), name)
}

/// The calls are one of each callback, in order.
pub open spec fn calls_each<C: Clone, T>(calls: Seq<Call<C, T>>, callbacks: Seq<C>) -> bool {
    &&& calls.len() == callbacks.len()
    &&& forall|i: int|
        #![trigger calls[i]]
        0 <= i < calls.len() ==> cloned(callbacks[i], calls[i].callback)
}

/// The actions are all different.
proof fn lemma_actions()
    ensures
        "message"@.len() == 7 && "message"@[0] == 'm',
        "history"@.len() == 7 && "history"@[0] == 'h',
        "presence.enter"@.len() == 14 && "presence.enter"@[9] == 'e',
        "presence.leave"@.len() == 14 && "presence.leave"@[9] == 'l',
        "presence.update"@.len() == 15,
        "presence.members"@.len() == 16,
        "ack"@.len() == 3,
        "error"@.len() == 5,
{
    reveal_strlit("message");
    reveal_strlit("history");
    reveal_strlit("presence.enter");
    reveal_strlit("presence.leave");
    reveal_strlit("presence.update");
    reveal_strlit("presence.members");
    reveal_strlit("ack");
    reveal_strlit("error");
}

/// Each known kind of event goes by its own action, and every other action by none.
pub proof fn law_kind_of_action(action: &str, kind: EventKind)
    requires
        call_ensures(EventKind::of, (action,), kind),
    ensures
        kind is Message <==> action@ == "message"@,
        kind is PresenceEnter <==> action@ == "presence.enter"@,
        kind is PresenceLeave <==> action@ == "presence.leave"@,
        kind is PresenceUpdate <==> action@ == "presence.update"@,
        kind is PresenceMembers <==> action@ == "presence.members"@,
        kind is History <==> action@ == "history"@,
        kind is Ack <==> action@ == "ack"@,
        kind is Error <==> action@ == "error"@,
{
    lemma_actions();
}

// Messages.

/// A frame with the action `message` and the fields of a message under their
/// wire names, whatever else it has, calls just the subscribers of its channel,
/// each with that very message. The last timestamp rises to that of the message
/// if it is greater, and nothing else changes.
pub proof fn law_message_is_delivered<M: Clone, H: Clone, P: Clone, L: Clone>(
    client: &mut Client<M, H, P, L>,
    root: Json,
    message: MessageView,
    delivery: Delivery<M, H, P, L>,
)
    requires
        call_ensures(Client::<M, H, P, L>::handle_event, (client, &root), delivery),
        has_action(members_of(root@), "message"@),
        members_of(root@).contains_pair("channel"@, JsonView::Text(message.meta.channel)),
        members_of(root@).contains_pair("data"@, message.data),
        members_of(root@).contains_pair("id"@, JsonView::Text(message.meta.id)),
        members_of(root@).contains_pair(
            "timestamp"@,
            JsonView::Integer(message.meta.timestamp as int),
        ),
        old(client)@.channels.contains_key(message.meta.channel),
    ensures
        delivery matches Delivery::Message(calls) && {
            &&& calls_each(calls@, old(client)@.channels[message.meta.channel].callbacks)
            &&& forall|i: int|
                #![trigger calls@[i]]
                0 <= i < calls@.len() ==> {
                    &&& calls@[i].argument.data@ == message.data
                    &&& calls@[i].argument.meta.id@ == message.meta.id
                    &&& calls@[i].argument.meta.channel@ == message.meta.channel
                    &&& calls@[i].argument.meta.timestamp == message.meta.timestamp
                }
        },
        final(client)@ == (ClientView {
            last_message_ts: if message.meta.timestamp > old(client)@.last_message_ts {
                message.meta.timestamp
            } else {
                old(client)@.last_message_ts
            },
            ..old(client)@
        }),
{
    lemma_wire_names();
    lemma_actions();
}

/// A frame with the action `message` on a known channel, whatever it has and
/// lacks, calls the subscribers of that channel with its data, or null where it
/// has none; its id, or the empty one where it has no text for it; its
/// timestamp, or zero where it has no number for it; and the name of the channel.
/// The last timestamp rises to that timestamp if it is greater, and nothing else
/// changes.
pub proof fn law_message_fields<M: Clone, H: Clone, P: Clone, L: Clone>(
    client: &mut Client<M, H, P, L>,
    root: Json,
    name: Seq<char>,
    delivery: Delivery<M, H, P, L>,
)
    requires
        call_ensures(Client::<M, H, P, L>::handle_event, (client, &root), delivery),
        has_action(members_of(root@), "message"@),
        is_on_channel(members_of(root@), name),
        old(client)@.channels.contains_key(name),
    ensures
        delivery matches Delivery::Message(calls) && {
            &&& calls_each(calls@, old(client)@.channels[name].callbacks)
            &&& forall|i: int|
                #![trigger calls@[i]]
                0 <= i < calls@.len() ==> {
                    &&& reads_data(members_of(root@), calls@[i].argument.data@)
                    &&& reads_text(
                        members_of(root@),
                        "id"@,
                        Seq::empty(),
                        calls@[i].argument.meta.id@,
                    )
                    &&& calls@[i].argument.meta.channel@ == name
                    &&& reads_number(
                        members_of(root@),
                        "timestamp"@,
                        calls@[i].argument.meta.timestamp,
                    )
                }
        },
        forall|timestamp: u64| #[trigger]
            reads_number(members_of(root@), "timestamp"@, timestamp)
                ==> final(client)@.last_message_ts == (if timestamp > old(client)@.last_message_ts {
                timestamp
            } else {
                old(client)@.last_message_ts
            }),
        final(client)@ == (ClientView {
            last_message_ts: final(client)@.last_message_ts,
            ..old(client)@
        }),
{
    lemma_actions();
}

// Presence.

/// The member has these fields.
pub open spec fn has_fields(
    member: PresenceMember,
    client_id: Seq<char>,
    data: JsonView,
    joined_at: int,
) -> bool {
    &&& member.client_id@ == client_id
    &&& member.data@ == data
    &&& member.joined_at == joined_at
}

/// Two members have the same contents in every field.
pub open spec fn same_member(a: PresenceMember, b: PresenceMember) -> bool {
    has_fields(a, b.client_id@, b.data@, b.joined_at as int)
}

/// A value of which a client id can be made.
pub open spec fn fits_client_id(value: JsonView) -> bool {
    value is Text
}

/// A value of which a time can be made.
pub open spec fn fits_time(value: JsonView) -> bool {
    value is Integer && 0 <= value->Integer_0 <= u64::MAX
}

/// A member as an object is read field by field; what it lacks is empty, null
/// or zero. Where its client id is no text or its time no number that a `u64`
/// holds, the member is empty in all fields.
pub proof fn law_member_of_object(value: Json, member: PresenceMember)
    requires
        call_ensures(parse_presence_member, (Some(&value),), member),
        value@ is Object,
    ensures
        ({
            let members = value@->Object_0;
            let fits = (members.contains_key("clientId"@) ==> fits_client_id(
                members["clientId"@],
            )) && (members.contains_key("joinedAt"@) ==> fits_time(members["joinedAt"@]));
            &&& fits ==> {
                &&& reads_text(members, "clientId"@, Seq::empty(), member.client_id@)
                &&& reads_data(members, member.data@)
                &&& reads_number(members, "joinedAt"@, member.joined_at)
            }
            &&& !fits ==> has_fields(member, Seq::empty(), JsonView::Null, 0)
        }),
{
}

/// A member as an array has its client id, its data and its time in that order,
/// as far as it goes; what it lacks is empty, null or zero. Where it is longer,
/// or one of them does not fit, the member is empty in all fields.
pub proof fn law_member_of_array(value: Json, member: PresenceMember)
    requires
        call_ensures(parse_presence_member, (Some(&value),), member),
        value@ is Array,
    ensures
        ({
            let items = value@->Array_0;
            let fits = items.len() <= 3 && (items.len() > 0 ==> fits_client_id(items[0])) && (
            items.len() > 2 ==> fits_time(items[2]));
            &&& fits ==> {
                &&& items.len() > 0 ==> items[0] == JsonView::Text(member.client_id@)
                &&& items.len() == 0 ==> member.client_id@.len() == 0
                &&& items.len() > 1 ==> items[1] == member.data@
                &&& items.len() <= 1 ==> member.data@ is Null
                &&& items.len() > 2 ==> items[2] == JsonView::Integer(member.joined_at as int)
                &&& items.len() <= 2 ==> member.joined_at == 0
            }
            &&& !fits ==> has_fields(member, Seq::empty(), JsonView::Null, 0)
        }),
{
}

/// What is neither an object nor an array, and what is missing, stands for a
/// member that is empty in all fields.
pub proof fn law_member_of_anything_else(value: Option<&Json>, member: PresenceMember)
    requires
        call_ensures(parse_presence_member, (value,), member),
        value matches Some(value) ==> !(value@ is Object || value@ is Array),
    ensures
        has_fields(member, Seq::empty(), JsonView::Null, 0),
{
}

/// A list of members is read item by item; what is no array, and what is
/// missing, stands for no members.
pub proof fn law_members_item_by_item(
    value: Option<&Json>,
    members: Vec<PresenceMember>,
    items: Vec<Json>,
    i: int,
    member: PresenceMember,
)
    requires
        call_ensures(parse_presence_members, (value,), members),
        value == Some(&Json::Array(items)),
        0 <= i < items@.len(),
        call_ensures(parse_presence_member, (Some(&items@[i]),), member),
    ensures
        members@.len() == items@.len(),
        same_member(members@[i], member),
{
    assert(members.deep_view().len() == members@.len());
    assert(members.deep_view()[i] == members@[i]@);
    assert(value->0@->Array_0[i] == items@[i]@);
}

/// What is no array, and what is missing, stands for no members; an array of
/// none too.
pub proof fn law_members_of_nothing(value: Option<&Json>, members: Vec<PresenceMember>)
    requires
        call_ensures(parse_presence_members, (value,), members),
        value matches Some(value) ==> value@ is Array ==> value@->Array_0.len() == 0,
    ensures
        members@.len() == 0,
{
    assert(members.deep_view().len() == members@.len());
}

/// A frame that a member has entered, left or changed their data, on a known
/// channel, calls just those who registered there for that event, each with
/// what its data reads as, and changes nothing.
pub proof fn law_member_is_delivered<M: Clone, H: Clone, P: Clone, L: Clone>(
    client: &mut Client<M, H, P, L>,
    root: Json,
    name: Seq<char>,
    data: Option<&Json>,
    member: PresenceMember,
    delivery: Delivery<M, H, P, L>,
)
    requires
        call_ensures(Client::<M, H, P, L>::handle_event, (client, &root), delivery),
        has_action(members_of(root@), "presence.enter"@) || has_action(
            members_of(root@),
            "presence.leave"@,
        ) || has_action(members_of(root@), "presence.update"@),
        is_on_channel(members_of(root@), name),
        old(client)@.channels.contains_key(name),
        call_ensures(Json::get, (&root, "data"), data),
        call_ensures(parse_presence_member, (data,), member),
    ensures
        delivery matches Delivery::Member(calls) && {
            &&& has_action(members_of(root@), "presence.enter"@) ==> calls_each(
                calls@,
                old(client)@.channels[name].presence.enter_cbs,
            )
            &&& has_action(members_of(root@), "presence.leave"@) ==> calls_each(
                calls@,
                old(client)@.channels[name].presence.leave_cbs,
            )
            &&& has_action(members_of(root@), "presence.update"@) ==> calls_each(
                calls@,
                old(client)@.channels[name].presence.update_cbs,
            )
            &&& forall|i: int|
                #![trigger calls@[i]]
                0 <= i < calls@.len() ==> same_member(calls@[i].argument, member)
        },
        final(client)@ == old(client)@,
{
    lemma_actions();
}

/// A frame that a member has entered, left or changed their data, with that
/// member under the wire names of its fields, calls those who registered for it
/// with that very member.
pub proof fn law_member_arrives<M: Clone, H: Clone, P: Clone, L: Clone>(
    client: &mut Client<M, H, P, L>,
    root: Json,
    name: Seq<char>,
    member: PresenceMemberView,
    delivery: Delivery<M, H, P, L>,
)
    requires
        call_ensures(Client::<M, H, P, L>::handle_event, (client, &root), delivery),
        has_action(members_of(root@), "presence.enter"@) || has_action(
            members_of(root@),
            "presence.leave"@,
        ) || has_action(members_of(root@), "presence.update"@),
        is_on_channel(members_of(root@), name),
        old(client)@.channels.contains_key(name),
        members_of(root@).contains_key("data"@),
        members_of(root@)["data"@] is Object,
        members_of(members_of(root@)["data"@]).contains_pair(
            "clientId"@,
            JsonView::Text(member.client_id),
        ),
        members_of(members_of(root@)["data"@]).contains_pair("data"@, member.data),
        members_of(members_of(root@)["data"@]).contains_pair(
            "joinedAt"@,
            JsonView::Integer(member.joined_at as int),
        ),
    ensures
        delivery matches Delivery::Member(calls) && {
            &&& has_action(members_of(root@), "presence.enter"@) ==> calls_each(
                calls@,
                old(client)@.channels[name].presence.enter_cbs,
            )
            &&& has_action(members_of(root@), "presence.leave"@) ==> calls_each(
                calls@,
                old(client)@.channels[name].presence.leave_cbs,
            )
            &&& has_action(members_of(root@), "presence.update"@) ==> calls_each(
                calls@,
                old(client)@.channels[name].presence.update_cbs,
            )
            &&& forall|i: int|
                #![trigger calls@[i]]
                0 <= i < calls@.len() ==> has_fields(
                    calls@[i].argument,
                    member.client_id,
                    member.data,
                    member.joined_at as int,
                )
        },
        final(client)@ == old(client)@,
{
    lemma_actions();
    lemma_wire_names();
}

/// A frame with the list of members of a known channel calls those who are told
/// of every list there, and after them those who asked for this one, each with
/// what its data reads as. Then nobody waits on that channel, and nothing else
/// changes.
pub proof fn law_members_are_delivered<M: Clone, H: Clone, P: Clone, L: Clone>(
    client: &mut Client<M, H, P, L>,
    root: Json,
    name: Seq<char>,
    data: Option<&Json>,
    members: Vec<PresenceMember>,
    delivery: Delivery<M, H, P, L>,
)
    requires
        call_ensures(Client::<M, H, P, L>::handle_event, (client, &root), delivery),
        has_action(members_of(root@), "presence.members"@),
        is_on_channel(members_of(root@), name),
        old(client)@.channels.contains_key(name),
        call_ensures(Json::get, (&root, "data"), data),
        call_ensures(parse_presence_members, (data,), members),
    ensures
        delivery matches Delivery::Members(calls) && {
            &&& calls_each(
                calls@,
                old(client)@.channels[name].presence.members_cbs
                    + old(client)@.channels[name].presence.waiting_cbs,
            )
            &&& forall|i: int|
                #![trigger calls@[i]]
                0 <= i < calls@.len() ==> {
                    &&& calls@[i].argument@.len() == members@.len()
                    &&& forall|j: int|
                        0 <= j < members@.len() ==> same_member(
                            #[trigger] calls@[i].argument@[j],
                            members@[j],
                        )
                }
        },
        final(client)@.channels.dom() == old(client)@.channels.dom(),
        forall|other: Seq<char>|
            other != name && old(client)@.channels.contains_key(other)
                ==> #[trigger] final(client)@.channels[other] == old(client)@.channels[other],
        final(client)@.channels[name].presence.waiting_cbs.len() == 0,
        final(client)@.channels[name].presence.members_cbs
            == old(client)@.channels[name].presence.members_cbs,
        final(client)@.channels[name].presence.enter_cbs
            == old(client)@.channels[name].presence.enter_cbs,
        final(client)@.channels[name].presence.leave_cbs
            == old(client)@.channels[name].presence.leave_cbs,
        final(client)@.channels[name].presence.update_cbs
            == old(client)@.channels[name].presence.update_cbs,
        final(client)@.channels[name].presence.channel_name
            == old(client)@.channels[name].presence.channel_name,
        final(client)@.channels[name].name == old(client)@.channels[name].name,
        final(client)@.channels[name].subscribed == old(client)@.channels[name].subscribed,
        final(client)@.channels[name].callbacks == old(client)@.channels[name].callbacks,
        final(client)@.channels[name].history_cbs == old(client)@.channels[name].history_cbs,
        final(client)@ == (ClientView { channels: final(client)@.channels, ..old(client)@ }),
{
    lemma_actions();
    let calls = delivery->Members_0@;
    assert forall|i: int, j: int|
        0 <= i < calls.len() && 0 <= j < members@.len() implies same_member(
        #[trigger] calls[i].argument@[j],
        members@[j],
    ) by {
        assert(calls[i].argument.deep_view() == members.deep_view());
        assert(calls[i].argument.deep_view()[j] == members.deep_view()[j]);
        assert(calls[i].argument.deep_view().len() == calls[i].argument@.len());
    }
    assert forall|i: int| #![trigger calls[i]] 0 <= i < calls.len() implies calls[i].argument@.len()
        == members@.len() by {
        assert(calls[i].argument.deep_view().len() == calls[i].argument@.len());
        assert(members.deep_view().len() == members@.len());
    }
    assert(final(client)@.channels.dom() =~= old(client)@.channels.dom());
}

// History.

/// The message has these contents.
pub open spec fn is_entry(message: HistoryMessage, entry: HistoryMessageView) -> bool {
    &&& message.id@ == entry.id
    &&& message.channel@ == entry.channel
    &&& message.data@ == entry.data
    &&& message.publisher_id@ == entry.publisher_id
    &&& message.timestamp == entry.timestamp
    &&& message.sequence == entry.sequence
}

/// The answer has these contents.
pub open spec fn is_answer(result: HistoryResult, answer: HistoryResultView) -> bool {
    &&& result.channel@ == answer.channel
    &&& result.has_more == answer.has_more
    &&& result.messages@.len() == answer.messages.len()
    &&& forall|i: int|
        0 <= i < answer.messages.len() ==> is_entry(
            #[trigger] result.messages@[i],
            answer.messages[i],
        )
}

/// The value has the fields of the message under their wire names, whatever
/// else it has.
pub open spec fn holds_entry(value: JsonView, entry: HistoryMessageView) -> bool {
    &&& members_of(value).contains_pair("id"@, JsonView::Text(entry.id))
    &&& members_of(value).contains_pair("channel"@, JsonView::Text(entry.channel))
    &&& members_of(value).contains_pair("data"@, entry.data)
    &&& members_of(value).contains_pair("publisherId"@, JsonView::Text(entry.publisher_id))
    &&& members_of(value).contains_pair("timestamp"@, JsonView::Integer(entry.timestamp as int))
    &&& members_of(value).contains_pair("sequence"@, JsonView::Integer(entry.sequence as int))
}

/// The value has the fields of the answer under their wire names, whatever else
/// it has.
pub open spec fn holds_answer(value: JsonView, answer: HistoryResultView) -> bool {
    &&& members_of(value).contains_pair("channel"@, JsonView::Text(answer.channel))
    &&& members_of(value).contains_pair("hasMore"@, JsonView::Bool(answer.has_more))
    &&& members_of(value).contains_key("messages"@)
    &&& members_of(value)["messages"@] is Array
    &&& members_of(value)["messages"@]->Array_0.len() == answer.messages.len()
    &&& forall|i: int|
        0 <= i < answer.messages.len() ==> holds_entry(
            #[trigger] members_of(value)["messages"@]->Array_0[i],
            answer.messages[i],
        )
}

/// A frame with the action `history` on a known channel, whose data has the
/// fields of an answer under their wire names, calls just those who listen for
/// history there, each with that very answer, and changes nothing. Whether
/// there is more is what stands under `hasMore`.
pub proof fn law_history_is_delivered<M: Clone, H: Clone, P: Clone, L: Clone>(
    client: &mut Client<M, H, P, L>,
    root: Json,
    name: Seq<char>,
    answer: HistoryResultView,
    delivery: Delivery<M, H, P, L>,
)
    requires
        call_ensures(Client::<M, H, P, L>::handle_event, (client, &root), delivery),
        has_action(members_of(root@), "history"@),
        is_on_channel(members_of(root@), name),
        old(client)@.channels.contains_key(name),
        members_of(root@).contains_key("data"@),
        holds_answer(members_of(root@)["data"@], answer),
    ensures
        delivery matches Delivery::History(calls) && {
            &&& calls_each(calls@, old(client)@.channels[name].history_cbs)
            &&& forall|i: int|
                #![trigger calls@[i]]
                0 <= i < calls@.len() ==> is_answer(calls@[i].argument, answer)
        },
        final(client)@ == old(client)@,
{
    lemma_actions();
    lemma_wire_names();
    let calls = delivery->History_0@;
    let value = members_of(root@)["data"@];
    let items = value->Object_0["messages"@]->Array_0;
    assert forall|i: int| #![trigger calls[i]] 0 <= i < calls.len() implies is_answer(
        calls[i].argument,
        answer,
    ) by {
        let result = calls[i].argument;
        assert(result.deep_view() == crate::inbound::history_answer(Some(value), name));
        assert(result@.messages.len() == result.messages@.len());
        assert forall|j: int| 0 <= j < answer.messages.len() implies is_entry(
            #[trigger] result.messages@[j],
            answer.messages[j],
        ) by {
            assert(result@.messages[j] == result.messages@[j]@);
            assert(holds_entry(items[j], answer.messages[j]));
        }
    }
}

/// A history answer is read field by field: its channel, or that of its frame
/// where it names none; that there is more just where it says so; and as many
/// messages as it lists, none where it lists none or is missing.
pub proof fn law_answer_fields(value: Option<&Json>, frame_channel: &str, result: HistoryResult)
    requires
        call_ensures(parse_history_result, (value, frame_channel), result),
    ensures
        ({
            let members = match value {
                Some(value) => members_of(value@),
                None => Map::empty(),
            };
            &&& reads_text(members, "channel"@, frame_channel@, result.channel@)
            &&& result.has_more <==> members.contains_pair("hasMore"@, JsonView::Bool(true))
            &&& members.contains_key("messages"@) && members["messages"@] is Array
                ==> result.messages@.len() == members["messages"@]->Array_0.len()
            &&& !(members.contains_key("messages"@) && members["messages"@] is Array)
                ==> result.messages@.len() == 0
        }),
{
    assert(result@.messages.len() == result.messages@.len());
}

/// Each message of a history answer is read field by field: its channel, or
/// that of the frame where it names none; its data, or null; its id and the id
/// of its publisher, or empty ones; its time and its number, or zero.
pub proof fn law_entry_fields(
    value: Json,
    frame_channel: &str,
    result: HistoryResult,
    i: int,
)
    requires
        call_ensures(parse_history_result, (Some(&value), frame_channel), result),
        members_of(value@).contains_key("messages"@),
        members_of(value@)["messages"@] is Array,
        0 <= i < members_of(value@)["messages"@]->Array_0.len(),
    ensures
        ({
            let entry = members_of(members_of(value@)["messages"@]->Array_0[i]);
            let message = result.messages@[i];
            &&& reads_text(entry, "id"@, Seq::empty(), message.id@)
            &&& reads_text(entry, "channel"@, frame_channel@, message.channel@)
            &&& reads_data(entry, message.data@)
            &&& reads_text(entry, "publisherId"@, Seq::empty(), message.publisher_id@)
            &&& reads_number(entry, "timestamp"@, message.timestamp)
            &&& reads_number(entry, "sequence"@, message.sequence)
        }),
{
    assert(result@.messages.len() == result.messages@.len());
    assert(result@.messages[i] == result.messages@[i]@);
}

/// A frame with the action `history` on a known channel, whatever it has and
/// lacks, calls just those who listen for history there, each with what its
/// data reads as.
pub proof fn law_history_fields<M: Clone, H: Clone, P: Clone, L: Clone>(
    client: &mut Client<M, H, P, L>,
    root: Json,
    name: &str,
    data: Option<&Json>,
    result: HistoryResult,
    delivery: Delivery<M, H, P, L>,
)
    requires
        call_ensures(Client::<M, H, P, L>::handle_event, (client, &root), delivery),
        has_action(members_of(root@), "history"@),
        is_on_channel(members_of(root@), name@),
        old(client)@.channels.contains_key(name@),
        call_ensures(Json::get, (&root, "data"), data),
        call_ensures(parse_history_result, (data, name), result),
    ensures
        delivery matches Delivery::History(calls) && {
            &&& calls_each(calls@, old(client)@.channels[name@].history_cbs)
            &&& forall|i: int|
                #![trigger calls@[i]]
                0 <= i < calls@.len() ==> is_answer(calls@[i].argument, result@)
        },
        final(client)@ == old(client)@,
{
    lemma_actions();
    let calls = delivery->History_0@;
    assert forall|i: int| #![trigger calls[i]] 0 <= i < calls.len() implies is_answer(
        calls[i].argument,
        result@,
    ) by {
        let argument = calls[i].argument;
        assert(argument.deep_view() == result@);
        assert(argument@.messages.len() == argument.messages@.len());
        assert forall|j: int| 0 <= j < result@.messages.len() implies is_entry(
            #[trigger] argument.messages@[j],
            result@.messages[j],
        ) by {
            assert(argument@.messages[j] == argument.messages@[j]@);
        }
    }
}

// The other events.

/// An acknowledgement under the id `resume`, with a text under `resumeToken` in
/// its data, sets the token to resume with to that text; any other leaves it as
/// it was. None changes anything else or calls anybody.
pub proof fn law_acknowledgement<M: Clone, H: Clone, P: Clone, L: Clone>(
    client: &mut Client<M, H, P, L>,
    root: Json,
    token: Seq<char>,
    delivery: Delivery<M, H, P, L>,
)
    requires
        call_ensures(Client::<M, H, P, L>::handle_event, (client, &root), delivery),
        has_action(members_of(root@), "ack"@),
    ensures
        delivery is Nothing,
        ({
            let members = members_of(root@);
            let resumed = members.contains_pair("id"@, JsonView::Text("resume"@))
                && members.contains_key("data"@);
            let data = members_of(members["data"@]);
            &&& resumed && data.contains_pair("resumeToken"@, JsonView::Text(token))
                ==> final(client)@.resume_token == Some(token)
            &&& !(resumed && data.contains_key("resumeToken"@) && data["resumeToken"@] is Text)
                ==> final(client)@.resume_token == old(client)@.resume_token
        }),
        final(client)@ == (ClientView {
            resume_token: final(client)@.resume_token,
            ..old(client)@
        }),
{
    lemma_actions();
    reveal_strlit("resume");
    assert("resume"@.len() == 6);
}

/// A frame has a token to resume with just where its id is `resume` and a text
/// stands under `resumeToken` in its data; the token is that text.
pub proof fn law_token_in_frame(root: Json, token: Option<String>)
    requires
        call_ensures(resume_token_in, (&root,), token),
    ensures
        ({
            let members = members_of(root@);
            let data = members_of(members["data"@]);
            &&& token is Some <==> members.contains_pair("id"@, JsonView::Text("resume"@))
                && members.contains_key("data"@) && data.contains_key("resumeToken"@)
                && data["resumeToken"@] is Text
            &&& token matches Some(token) ==> data["resumeToken"@] == JsonView::Text(token@)
        }),
{
    reveal_strlit("resume");
    assert("resume"@.len() == 6);
}

/// An error is logged with its text, or as unknown where it has none, and
/// changes nothing.
pub proof fn law_error_is_logged<M: Clone, H: Clone, P: Clone, L: Clone>(
    client: &mut Client<M, H, P, L>,
    root: Json,
    error: Seq<char>,
    delivery: Delivery<M, H, P, L>,
)
    requires
        call_ensures(Client::<M, H, P, L>::handle_event, (client, &root), delivery),
        has_action(members_of(root@), "error"@),
        reads_text(members_of(root@), "error"@, "unknown"@, error),
    ensures
        delivery matches Delivery::Log(line) && line@ == "[wSocket] Error: "@ + error,
        final(client)@ == old(client)@,
{
    lemma_actions();
}

/// A frame that is no object, has no text for its action, or an action that is
/// none of those known, calls nobody and changes nothing; and so does one on a
/// channel that was never asked for, but for acknowledgements and errors.
pub proof fn law_let_go<M: Clone, H: Clone, P: Clone, L: Clone>(
    client: &mut Client<M, H, P, L>,
    root: Json,
    action: Seq<char>,
    name: Seq<char>,
    delivery: Delivery<M, H, P, L>,
)
    requires
        call_ensures(Client::<M, H, P, L>::handle_event, (client, &root), delivery),
        reads_text(members_of(root@), "action"@, Seq::empty(), action),
        is_on_channel(members_of(root@), name),
    ensures
        action != "message"@ && action != "presence.enter"@ && action != "presence.leave"@ && action
            != "presence.update"@ && action != "presence.members"@ && action != "history"@ && action
            != "ack"@ && action != "error"@ ==> delivery is Nothing && final(client)@ == old(client)@,
        !old(client)@.channels.contains_key(name) && action != "ack"@ && action != "error"@
            ==> delivery is Nothing && final(client)@ == old(client)@,
{
    lemma_actions();
}

// Frames as texts.

/// The text of a frame does what the value that it reads as does; one that
/// cannot be read calls nobody and changes nothing.
pub proof fn law_text_is_its_value<M: Clone, H: Clone, P: Clone, L: Clone>(
    client: &mut Client<M, H, P, L>,
    raw: &str,
    root: JsonView,
    delivery: Delivery<M, H, P, L>,
)
    requires
        call_ensures(Client::<M, H, P, L>::handle_message, (client, raw), delivery),
    ensures
        text_reading(raw@) == Some(root) ==> delivers(
            delivery,
            delivery_for(old(client)@.channels, root),
        ) && final(client)@ == old(client)@.receive(root),
        text_reading(raw@) is None ==> delivery is Nothing && final(client)@ == old(client)@,
{
}

/// The reader delivers just what the text of a frame asks for, and nothing for
/// a frame that is no text; when the connection fails, ends or cannot be
/// replaced it asks for another one while the client is connected, and stops
/// otherwise. Only a text changes the client.
pub proof fn law_reader_steps<M: Clone, H: Clone, P: Clone, L: Clone>(
    client: &mut Client<M, H, P, L>,
    event: ReadEvent,
    root: JsonView,
    step: ReadStep<M, H, P, L>,
)
    requires
        call_ensures(Client::<M, H, P, L>::read_step, (client, event), step),
    ensures
        event matches ReadEvent::Text(text) ==> (step matches ReadStep::Deliver(delivery) && {
            &&& text_reading(text@) == Some(root) ==> delivers(
                delivery,
                delivery_for(old(client)@.channels, root),
            ) && final(client)@ == old(client)@.receive(root)
            &&& text_reading(text@) is None ==> delivery is Nothing && final(client)@ == old(client)@
        }),
        event is OtherFrame ==> (step matches ReadStep::Deliver(delivery) && delivery is Nothing),
        event is Failed || event is Closed || event is ReconnectFailed ==> (step is Reconnect
            <==> old(client)@.connected) && (step is Stop <==> !old(client)@.connected),
        event !is Text ==> final(client)@ == old(client)@,
{
}

} // verus!
