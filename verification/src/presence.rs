//! Presence on a channel.

use crate::call::{calls_all, fan_out, Call};
use crate::json::Json;
use crate::request::{frame_of, presence_message, presence_request, sends};
use crate::types::PresenceMember;
use vstd::prelude::*;

verus! {

/// The presence side of a channel: the callbacks of type `P` that take one
/// member, and those of type `L` that take the list of members.
pub struct PresenceHandle<P, L> {
    channel_name: String,
    enter_cbs: Vec<P>,
    leave_cbs: Vec<P>,
    update_cbs: Vec<P>,
    members_cbs: Vec<L>,
    waiting_cbs: Vec<L>,
}

/// What is registered on the presence side of a channel.
#[verifier::ext_equal]
pub struct PresenceView<P, L> {
    pub channel_name: Seq<char>,
    pub enter_cbs: Seq<P>,
    pub leave_cbs: Seq<P>,
    pub update_cbs: Seq<P>,
    /// Those who are told of every list of members.
    pub members_cbs: Seq<L>,
    /// Those who asked for the members and are told of the next list only.
    pub waiting_cbs: Seq<L>,
}

impl<P, L> View for PresenceHandle<P, L> {
    type V = PresenceView<P, L>;

    closed spec fn view(&self) -> PresenceView<P, L> {
        PresenceView {
            channel_name: self.channel_name@,
            enter_cbs: self.enter_cbs@,
            leave_cbs: self.leave_cbs@,
            update_cbs: self.update_cbs@,
            members_cbs: self.members_cbs@,
            waiting_cbs: self.waiting_cbs@,
        }
    }
}

/// The presence side of a channel on which nothing has been registered.
pub open spec fn fresh_presence<P, L>(channel_name: Seq<char>) -> PresenceView<P, L> {
    PresenceView {
        channel_name,
        enter_cbs: Seq::empty(),
        leave_cbs: Seq::empty(),
        update_cbs: Seq::empty(),
        members_cbs: Seq::empty(),
        waiting_cbs: Seq::empty(),
    }
}

impl<P, L> PresenceView<P, L> {
    /// The presence side once somebody has asked for the members. Without a
    /// connection nobody will answer, and nobody waits.
    pub open spec fn get(self, cb: L, connected: bool) -> PresenceView<P, L> {
        if connected {
            PresenceView { waiting_cbs: self.waiting_cbs.push(cb), ..self }
        } else {
            self
        }
    }

    /// The presence side once nobody waits for the members any more.
    pub open spec fn nobody_waits(self) -> PresenceView<P, L> {
        PresenceView { waiting_cbs: Seq::empty(), ..self }
    }

    /// Who is told of the next list of members.
    pub open spec fn told_of_members(self) -> Seq<L> {
        self.members_cbs + self.waiting_cbs
    }
}

impl<P, L> PresenceHandle<P, L> {
    /// The presence side of a new channel.
    pub(crate) fn new(channel_name: String) -> (presence: PresenceHandle<P, L>)
        ensures
            presence@ == fresh_presence::<P, L>(channel_name@),
    {
        PresenceHandle {
            channel_name,
            enter_cbs: Vec::new(),
            leave_cbs: Vec::new(),
            update_cbs: Vec::new(),
            members_cbs: Vec::new(),
            waiting_cbs: Vec::new(),
        }
    }

    /// Enter the presence set with some data. The frame is to be sent.
    pub fn enter(&self, data: Json, connected: bool) -> (frame: Option<String>)
        ensures
            sends(
                frame,
                connected,
                presence_message("presence.enter"@, self@.channel_name, Some(data@)),
            ),
    {
        self.send_action("presence.enter", Some(data), connected)
    }

    /// Leave the presence set. The frame is to be sent.
    pub fn leave(&self, connected: bool) -> (frame: Option<String>)
        ensures
            sends(
                frame,
                connected,
                presence_message("presence.leave"@, self@.channel_name, None),
            ),
    {
        self.send_action("presence.leave", None, connected)
    }

    /// Update the presence data. The frame is to be sent.
    pub fn update(&self, data: Json, connected: bool) -> (frame: Option<String>)
        ensures
            sends(
                frame,
                connected,
                presence_message("presence.update"@, self@.channel_name, Some(data@)),
            ),
    {
        self.send_action("presence.update", Some(data), connected)
    }

    /// Get current members. The frame is to be sent; `cb` is told of the next
    /// list of members on this channel, once.
    pub fn get(&mut self, cb: L, connected: bool) -> (frame: Option<String>)
        ensures
            final(self)@ == old(self)@.get(cb, connected),
            sends(
                frame,
                connected,
                presence_message("presence.get"@, old(self)@.channel_name, None),
            ),
    {
        let frame = self.send_action("presence.get", None, connected);
        if connected {
            self.waiting_cbs.push(cb);
        }
        frame
    }

    /// The request for the members anew, if somebody still waits for them.
    pub(crate) fn ask_again(&self) -> (frame: Option<String>)
        ensures
            sends(
                frame,
                self@.waiting_cbs.len() > 0,
                presence_message("presence.get"@, self@.channel_name, None),
            ),
    {
        self.send_action("presence.get", None, self.waiting_cbs.len() > 0)
    }

    /// Lets go of everybody who waits for the members.
    pub(crate) fn release_waiting(&mut self)
        ensures
            final(self)@ == old(self)@.nobody_waits(),
    {
        self.waiting_cbs.clear();
    }

    /// Register a callback for members who enter.
    pub fn on_enter(&mut self, cb: P)
        ensures
            final(self)@ == (PresenceView {
                enter_cbs: old(self)@.enter_cbs.push(cb),
                ..old(self)@
            }),
    {
        self.enter_cbs.push(cb);
    }

    /// Register a callback for members who leave.
    pub fn on_leave(&mut self, cb: P)
        ensures
            final(self)@ == (PresenceView {
                leave_cbs: old(self)@.leave_cbs.push(cb),
                ..old(self)@
            }),
    {
        self.leave_cbs.push(cb);
    }

    /// Register a callback for members who change their data.
    pub fn on_update(&mut self, cb: P)
        ensures
            final(self)@ == (PresenceView {
                update_cbs: old(self)@.update_cbs.push(cb),
                ..old(self)@
            }),
    {
        self.update_cbs.push(cb);
    }

    /// Register a callback for the list of members.
    pub fn on_members(&mut self, cb: L)
        ensures
            final(self)@ == (PresenceView {
                members_cbs: old(self)@.members_cbs.push(cb),
                ..old(self)@
            }),
    {
        self.members_cbs.push(cb);
    }

    /// The frame for a presence action.
    fn send_action(&self, action: &str, data: Option<Json>, connected: bool) -> (frame: Option<
        String,
    >)
        ensures
            sends(
                frame,
                connected,
                presence_message(
                    action@,
                    self@.channel_name,
                    match data {
                        Some(data) => Some(data@),
                        None => None,
                    },
                ),
            ),
    {
        frame_of(&presence_request(action, self.channel_name.as_str(), data), connected)
    }
}

impl<P: Clone, L: Clone> PresenceHandle<P, L> {
    /// The calls for a member who entered.
    pub fn emit_enter(&self, member: PresenceMember) -> (calls: Vec<Call<P, PresenceMember>>)
        ensures
            calls_all(calls@, self@.enter_cbs, member@),
    {
        fan_out(&self.enter_cbs, &member)
    }

    /// The calls for a member who left.
    pub fn emit_leave(&self, member: PresenceMember) -> (calls: Vec<Call<P, PresenceMember>>)
        ensures
            calls_all(calls@, self@.leave_cbs, member@),
    {
        fan_out(&self.leave_cbs, &member)
    }

    /// The calls for a member who changed their data.
    pub fn emit_update(&self, member: PresenceMember) -> (calls: Vec<Call<P, PresenceMember>>)
        ensures
            calls_all(calls@, self@.update_cbs, member@),
    {
        fan_out(&self.update_cbs, &member)
    }

    /// The calls for the list of members. Who asked for it has been told then.
    pub fn emit_members(&mut self, members: Vec<PresenceMember>) -> (calls: Vec<
        Call<L, Vec<PresenceMember>>,
    >)
        ensures
            calls_all(calls@, old(self)@.told_of_members(), members.deep_view()),
            final(self)@ == old(self)@.nobody_waits(),
    {
        let mut calls = fan_out(&self.members_cbs, &members);
        let mut answers = fan_out(&self.waiting_cbs, &members);
        let ghost lasting = calls@;
        let ghost once = answers@;
        calls.append(&mut answers);
        self.release_waiting();
        assert forall|i: int| #![trigger calls@[i]] 0 <= i < calls@.len() implies cloned(
            old(self)@.told_of_members()[i],
            calls@[i].callback,
        ) && calls@[i].argument.deep_view() == members.deep_view() by {
            if i < lasting.len() {
                assert(calls@[i] == lasting[i]);
            } else {
                assert(calls@[i] == once[i - lasting.len()]);
            }
            let copy = calls@[i].argument;
            assert forall|j: int| 0 <= j < members@.len() implies copy@[j]@ == members@[j]@ by {
                assert(cloned(members@[j], copy@[j]));
            }
            assert(copy.deep_view() =~= members.deep_view());
        }
        calls
    }
}

} // verus!
