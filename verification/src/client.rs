//! The client: its channels, and what it does with what the server sends.

use crate::call::{calls_all, Call};
use crate::channel::{fresh_channel, ChannelHandle, ChannelView};
use crate::codec::text_reading;
use crate::inbound::{
    data_at, data_member, history_answer, number_at, number_member, parse_history_result,
    parse_presence_member, parse_presence_members, presence_member, presence_members, text_at,
    text_member,
};
use crate::json::{Json, JsonView};
use crate::push::{push_client, PushClient, PushView};
use crate::request::{
    frame_of, ping_message, ping_request, presence_message, resume_message, resume_request,
    sends, subscribe_message,
};
use crate::text::same_text;
use crate::types::{
    optional_str, optional_text, HistoryResult, HistoryResultView, Message, MessageMeta,
    MessageMetaView, MessageView, PresenceMember, PresenceMemberView,
};
use vstd::prelude::*;

verus! {

/// The channels by name.
pub struct PubSubNamespace<M, H, P, L> {
    channels: Vec<(String, ChannelHandle<M, H, P, L>)>,
}

impl<M, H, P, L> View for PubSubNamespace<M, H, P, L> {
    type V = Map<Seq<char>, ChannelView<M, H, P, L>>;

    closed spec fn view(&self) -> Map<Seq<char>, ChannelView<M, H, P, L>> {
        entries_view(self.channels@)
    }
}

/// The channels that a list of named ones stands for; the last of a name counts.
spec fn entries_view<M, H, P, L>(entries: Seq<(String, ChannelHandle<M, H, P, L>)>) -> Map<
    Seq<char>,
    ChannelView<M, H, P, L>,
>
    decreases entries.len(),
{
    if entries.len() == 0 {
        Map::empty()
    } else {
        entries_view(entries.drop_last()).insert(entries.last().0@, entries.last().1@)
    }
}

/// `i` is where `name` occurs last.
spec fn last_named<M, H, P, L>(
    entries: Seq<(String, ChannelHandle<M, H, P, L>)>,
    name: Seq<char>,
    i: int,
) -> bool {
    &&& 0 <= i < entries.len()
    &&& entries[i].0@ == name
    &&& forall|j: int| i < j < entries.len() ==> (#[trigger] entries[j]).0@ != name
}

/// The channel under a name is the one where the name occurs last.
proof fn lemma_last_named<M, H, P, L>(
    entries: Seq<(String, ChannelHandle<M, H, P, L>)>,
    name: Seq<char>,
    i: int,
)
    requires
        last_named(entries, name, i),
    ensures
        entries_view(entries).contains_key(name),
        entries_view(entries)[name] == entries[i].1@,
    decreases entries.len(),
{
    let rest = entries.drop_last();
    if i < rest.len() {
        assert(entries[rest.len() as int].0@ != name);
        assert(last_named(rest, name, i));
        lemma_last_named(rest, name, i);
    }
}

/// There is no channel under a name that does not occur.
proof fn lemma_unnamed<M, H, P, L>(
    entries: Seq<(String, ChannelHandle<M, H, P, L>)>,
    name: Seq<char>,
)
    requires
        forall|j: int| 0 <= j < entries.len() ==> (#[trigger] entries[j]).0@ != name,
    ensures
        !entries_view(entries).contains_key(name),
    decreases entries.len(),
{
    if entries.len() > 0 {
        lemma_unnamed(entries.drop_last(), name);
    }
}

/// To replace the channel where a name occurs last is to set the one under that name.
proof fn lemma_entry_replaced<M, H, P, L>(
    entries: Seq<(String, ChannelHandle<M, H, P, L>)>,
    name: Seq<char>,
    i: int,
    entry: (String, ChannelHandle<M, H, P, L>),
)
    requires
        last_named(entries, name, i),
        entry.0@ == name,
    ensures
        entries_view(entries.update(i, entry)) == entries_view(entries).insert(name, entry.1@),
    decreases entries.len(),
{
    let rest = entries.drop_last();
    let updated = entries.update(i, entry);
    if i < rest.len() {
        assert(entries[rest.len() as int].0@ != name);
        assert(last_named(rest, name, i));
        lemma_entry_replaced(rest, name, i, entry);
        assert(updated.drop_last() =~= rest.update(i, entry));
        assert(entries_view(updated) =~= entries_view(entries).insert(name, entry.1@));
    } else {
        assert(updated.drop_last() =~= rest);
        assert(entries_view(updated) =~= entries_view(entries).insert(name, entry.1@));
    }
}

/// To change every channel in a list is to change every channel under its name.
proof fn lemma_entries_changed<M, H, P, L>(
    entries: Seq<(String, ChannelHandle<M, H, P, L>)>,
    changed: Seq<(String, ChannelHandle<M, H, P, L>)>,
    change: spec_fn(ChannelView<M, H, P, L>) -> ChannelView<M, H, P, L>,
    name: Seq<char>,
)
    requires
        changed.len() == entries.len(),
        forall|i: int|
            #![trigger changed[i]]
            0 <= i < entries.len() ==> changed[i].0@ == entries[i].0@ && changed[i].1@ == change(
                entries[i].1@,
            ),
    ensures
        entries_view(changed).contains_key(name) == entries_view(entries).contains_key(name),
        entries_view(entries).contains_key(name) ==> entries_view(changed)[name] == change(
            entries_view(entries)[name],
        ),
    decreases entries.len(),
{
    if entries.len() > 0 {
        let rest = changed.drop_last();
        assert forall|i: int| #![trigger rest[i]]
            0 <= i < entries.len() - 1 implies rest[i].0@ == entries.drop_last()[i].0@ && rest[i].1@
            == change(entries.drop_last()[i].1@) by {
            assert(rest[i] == changed[i]);
        }
        lemma_entries_changed(entries.drop_last(), rest, change, name);
        assert(changed[entries.len() - 1] == changed.last());
    }
}

/// `names` are those, each once, of the channels among the first `n` that
/// `chosen` picks.
spec fn lists<M, H, P, L>(
    names: Seq<Seq<char>>,
    entries: Seq<(String, ChannelHandle<M, H, P, L>)>,
    n: int,
    chosen: spec_fn(ChannelView<M, H, P, L>) -> bool,
) -> bool {
    &&& names.no_duplicates()
    &&& forall|name: Seq<char>| #[trigger]
        names.contains(name) <==> exists|i: int|
            0 <= i < n && #[trigger] last_named(entries, name, i) && chosen(entries[i].1@)
}

/// The next entry joins the list if it counts and is picked.
proof fn lemma_lists_next<M, H, P, L>(
    names: Seq<Seq<char>>,
    entries: Seq<(String, ChannelHandle<M, H, P, L>)>,
    n: int,
    chosen: spec_fn(ChannelView<M, H, P, L>) -> bool,
)
    requires
        0 <= n < entries.len(),
        lists(names, entries, n, chosen),
    ensures
        lists(
            if last_named(entries, entries[n].0@, n) && chosen(entries[n].1@) {
                names.push(entries[n].0@)
            } else {
                names
            },
            entries,
            n + 1,
            chosen,
        ),
{
    let key = entries[n].0@;
    let more = names.push(key);
    if last_named(entries, key, n) && chosen(entries[n].1@) {
        if names.contains(key) {
            let i = choose|i: int|
                0 <= i < n && #[trigger] last_named(entries, key, i) && chosen(entries[i].1@);
            assert(entries[n].0@ != key);
        }
        assert(more[names.len() as int] == key);
        assert forall|name: Seq<char>| #[trigger] more.contains(name) <==> exists|i: int|
            0 <= i < n + 1 && #[trigger] last_named(entries, name, i) && chosen(entries[i].1@) by {
            if more.contains(name) && name != key {
                let a = choose|a: int| 0 <= a < more.len() && more[a] == name;
                assert(names[a] == name);
                assert(names.contains(name));
            }
            if names.contains(name) {
                let a = choose|a: int| 0 <= a < names.len() && names[a] == name;
                assert(more[a] == name);
            }
        }
    }
}

/// A list of all entries names just the channels that are picked.
proof fn lemma_lists_all<M, H, P, L>(
    names: Seq<Seq<char>>,
    entries: Seq<(String, ChannelHandle<M, H, P, L>)>,
    chosen: spec_fn(ChannelView<M, H, P, L>) -> bool,
    name: Seq<char>,
)
    requires
        lists(names, entries, entries.len() as int, chosen),
    ensures
        names.contains(name) <==> entries_view(entries).contains_key(name) && chosen(
            entries_view(entries)[name],
        ),
{
    if names.contains(name) {
        let i = choose|i: int|
            0 <= i < entries.len() && #[trigger] last_named(entries, name, i) && chosen(
                entries[i].1@,
            );
        lemma_last_named(entries, name, i);
    }
    if entries_view(entries).contains_key(name) {
        let i = lemma_key_is_named(entries, name);
        lemma_last_named(entries, name, i);
    }
}

/// A name with a channel under it occurs last somewhere.
proof fn lemma_key_is_named<M, H, P, L>(
    entries: Seq<(String, ChannelHandle<M, H, P, L>)>,
    name: Seq<char>,
) -> (i: int)
    requires
        entries_view(entries).contains_key(name),
    ensures
        last_named(entries, name, i),
    decreases entries.len(),
{
    let n = entries.len() - 1;
    if entries[n].0@ == name {
        n
    } else {
        let i = lemma_key_is_named(entries.drop_last(), name);
        assert forall|j: int| i < j < entries.len() implies (#[trigger] entries[j]).0@ != name by {
            if j < n {
                assert(entries.drop_last()[j] == entries[j]);
            }
        }
        i
    }
}

/// All channels, each once a lost connection has been replaced.
pub open spec fn reopened_channels<M, H, P, L>(
    channels: Map<Seq<char>, ChannelView<M, H, P, L>>,
) -> Map<Seq<char>, ChannelView<M, H, P, L>> {
    Map::new(|name: Seq<char>| channels.contains_key(name), |name| channels[name].reopened())
}

/// All channels, each once nobody waits for its members any more.
pub open spec fn released_channels<M, H, P, L>(
    channels: Map<Seq<char>, ChannelView<M, H, P, L>>,
) -> Map<Seq<char>, ChannelView<M, H, P, L>> {
    Map::new(|name: Seq<char>| channels.contains_key(name), |name| channels[name].nobody_waits())
}

/// The channels with somebody to listen to their messages.
pub open spec fn listened<M, H, P, L>(
    channels: Map<Seq<char>, ChannelView<M, H, P, L>>,
) -> Set<Seq<char>> {
    Set::new(
        |name: Seq<char>| channels.contains_key(name) && channels[name].callbacks.len() > 0,
    )
}

/// The channels with somebody who waits for their members.
pub open spec fn waited_for<M, H, P, L>(
    channels: Map<Seq<char>, ChannelView<M, H, P, L>>,
) -> Set<Seq<char>> {
    Set::new(
        |name: Seq<char>|
            channels.contains_key(name) && channels[name].presence.waiting_cbs.len() > 0,
    )
}

/// `names` are the members of `set`, each once.
pub open spec fn enumerates(names: Seq<Seq<char>>, set: Set<Seq<char>>) -> bool {
    &&& names.no_duplicates()
    &&& forall|name: Seq<char>| #[trigger] names.contains(name) <==> set.contains(name)
}

/// The frames are a subscription for each channel that is listened to, one for each.
pub open spec fn subscribes_each<M, H, P, L>(
    frames: Seq<String>,
    channels: Map<Seq<char>, ChannelView<M, H, P, L>>,
) -> bool {
    exists|names: Seq<Seq<char>>|
        {
            &&& #[trigger] enumerates(names, listened(channels))
            &&& frames.len() == names.len()
            &&& forall|i: int|
                0 <= i < frames.len() ==> sends(
                    Some(#[trigger] frames[i]),
                    true,
                    subscribe_message(channels[names[i]].name, 0),
                )
        }
}

/// The frames are a request for the members of each channel whose members are
/// waited for, one for each.
pub open spec fn asks_members_of_each<M, H, P, L>(
    frames: Seq<String>,
    channels: Map<Seq<char>, ChannelView<M, H, P, L>>,
) -> bool {
    exists|names: Seq<Seq<char>>|
        {
            &&& #[trigger] enumerates(names, waited_for(channels))
            &&& frames.len() == names.len()
            &&& forall|i: int|
                0 <= i < frames.len() ==> sends(
                    Some(#[trigger] frames[i]),
                    true,
                    presence_message(
                        "presence.get"@,
                        channels[names[i]].presence.channel_name,
                        None,
                    ),
                )
        }
}

/// The channel that `name` stands for: the one that is there, or else a fresh one.
pub open spec fn channel_or_fresh<M, H, P, L>(
    channels: Map<Seq<char>, ChannelView<M, H, P, L>>,
    name: Seq<char>,
) -> ChannelView<M, H, P, L> {
    if channels.contains_key(name) {
        channels[name]
    } else {
        fresh_channel(name)
    }
}

impl<M, H, P, L> PubSubNamespace<M, H, P, L> {
    /// No channels.
    fn new() -> (namespace: PubSubNamespace<M, H, P, L>)
        ensures
            namespace@ == Map::<Seq<char>, ChannelView<M, H, P, L>>::empty(),
    {
        PubSubNamespace { channels: Vec::new() }
    }

    /// Where `name` occurs last.
    fn position(&self, name: &str) -> (found: Option<usize>)
        ensures
            match found {
                Some(i) => last_named(self.channels@, name@, i as int),
                None => forall|j: int|
                    0 <= j < self.channels@.len() ==> (#[trigger] self.channels@[j]).0@ != name@,
            },
    {
        let mut i: usize = self.channels.len();
        while i > 0
            invariant
                i <= self.channels@.len(),
                forall|j: int|
                    i <= j < self.channels@.len() ==> (#[trigger] self.channels@[j]).0@ != name@,
            decreases i,
        {
            i = i - 1;
            if same_text(self.channels[i].0.as_str(), name) {
                return Some(i);
            }
        }
        None
    }

    /// The channel of this name, if there is one.
    pub fn find(&self, name: &str) -> (found: Option<&ChannelHandle<M, H, P, L>>)
        ensures
            match found {
                Some(channel) => self@.contains_key(name@) && channel@ == self@[name@],
                None => !self@.contains_key(name@),
            },
    {
        match self.position(name) {
            Some(i) => {
                proof {
                    lemma_last_named(self.channels@, name@, i as int);
                }
                Some(&self.channels[i].1)
            },
            None => {
                proof {
                    lemma_unnamed(self.channels@, name@);
                }
                None
            },
        }
    }

    /// Get or create a channel reference.
    pub fn channel(&mut self, name: &str) -> (channel: &mut ChannelHandle<M, H, P, L>)
        ensures
            channel@ == channel_or_fresh(old(self)@, name@),
            final(self)@ == old(self)@.insert(name@, final(channel)@),
    {
        let i = match self.position(name) {
            Some(i) => {
                proof {
                    lemma_last_named(self.channels@, name@, i as int);
                }
                i
            },
            None => {
                proof {
                    lemma_unnamed(self.channels@, name@);
                }
                self.channels.push((name.to_owned(), ChannelHandle::new(name.to_owned())));
                assert(self.channels@.drop_last() =~= old(self).channels@);
                self.channels.len() - 1
            },
        };
        let ghost entries = self.channels@;
        let channel = &mut self.channels[i].1;
        proof {
            let entry = (entries[i as int].0, *final(channel));
            lemma_entry_replaced(entries, name@, i as int, entry);
            assert(entries_view(entries).insert(name@, final(channel)@) =~= old(self)@.insert(
                name@,
                final(channel)@,
            ));
        }
        channel
    }

    /// Whether the entry at `i` is the one that its name stands for.
    fn counts(&self, i: usize) -> (last: bool)
        requires
            i < self.channels@.len(),
        ensures
            last == last_named(self.channels@, self.channels@[i as int].0@, i as int),
    {
        match self.position(self.channels[i].0.as_str()) {
            Some(last) => last == i,
            None => false,
        }
    }

    /// Subscribes every channel anew. The frames are to be sent.
    fn reopen(&mut self) -> (frames: Vec<String>)
        ensures
            final(self)@ == reopened_channels(old(self)@),
            subscribes_each(frames@, old(self)@),
    {
        let ghost entries = self.channels@;
        let ghost chosen = |channel: ChannelView<M, H, P, L>| channel.callbacks.len() > 0;
        let ghost mut names: Seq<Seq<char>> = Seq::empty();
        let mut frames: Vec<String> = Vec::new();
        let n: usize = self.channels.len();
        let mut i: usize = 0;
        while i < n
            invariant
                i <= n,
                n == entries.len(),
                n == self.channels@.len(),
                forall|j: int|
                    #![trigger self.channels@[j]]
                    0 <= j < n ==> self.channels@[j].0@ == entries[j].0@
                        && self.channels@[j].1@ == (if j < i {
                        entries[j].1@.reopened()
                    } else {
                        entries[j].1@
                    }),
                chosen == (|channel: ChannelView<M, H, P, L>| channel.callbacks.len() > 0),
                lists(names, entries, i as int, chosen),
                frames@.len() == names.len(),
                forall|k: int|
                    0 <= k < frames@.len() ==> sends(
                        Some(#[trigger] frames@[k]),
                        true,
                        subscribe_message(entries_view(entries)[names[k]].name, 0),
                    ),
            decreases n - i,
        {
            let counts = self.counts(i);
            proof {
                let key = entries[i as int].0@;
                assert(counts == last_named(entries, key, i as int)) by {
                    assert forall|j: int| 0 <= j < n implies self.channels@[j].0@
                        == (#[trigger] entries[j]).0@ by {
                        assert(self.channels@[j].0@ == entries[j].0@);
                    }
                }
                lemma_lists_next(names, entries, i as int, chosen);
                if counts {
                    lemma_last_named(entries, key, i as int);
                }
            }
            let frame = self.channels[i].1.resubscribe();
            if counts {
                if let Some(frame) = frame {
                    frames.push(frame);
                    proof {
                        names = names.push(entries[i as int].0@);
                    }
                }
            }
            i = i + 1;
        }
        proof {
            let change = |channel: ChannelView<M, H, P, L>| channel.reopened();
            assert forall|name: Seq<char>|
                #![trigger entries_view(entries).contains_key(name)]
                entries_view(self.channels@).contains_key(name) == entries_view(
                    entries,
                ).contains_key(name) && (entries_view(entries).contains_key(name) ==> entries_view(
                    self.channels@,
                )[name] == entries_view(entries)[name].reopened()) by {
                lemma_entries_changed(entries, self.channels@, change, name);
            }
            assert(self@ =~= reopened_channels(old(self)@));
            assert forall|name: Seq<char>| #[trigger] names.contains(name) <==> listened(
                old(self)@,
            ).contains(name) by {
                lemma_lists_all(names, entries, chosen, name);
            }
            assert(enumerates(names, listened(old(self)@)));
        }
        frames
    }

    /// Lets go of everybody who waits for members.
    fn release_waiting(&mut self)
        ensures
            final(self)@ == released_channels(old(self)@),
    {
        let ghost entries = self.channels@;
        let n: usize = self.channels.len();
        let mut i: usize = 0;
        while i < n
            invariant
                i <= n,
                n == entries.len(),
                n == self.channels@.len(),
                forall|j: int|
                    #![trigger self.channels@[j]]
                    0 <= j < n ==> self.channels@[j].0@ == entries[j].0@
                        && self.channels@[j].1@ == (if j < i {
                        entries[j].1@.nobody_waits()
                    } else {
                        entries[j].1@
                    }),
            decreases n - i,
        {
            self.channels[i].1.presence_mut().release_waiting();
            i = i + 1;
        }
        proof {
            let change = |channel: ChannelView<M, H, P, L>| channel.nobody_waits();
            assert forall|name: Seq<char>|
                #![trigger entries_view(entries).contains_key(name)]
                entries_view(self.channels@).contains_key(name) == entries_view(
                    entries,
                ).contains_key(name) && (entries_view(entries).contains_key(name) ==> entries_view(
                    self.channels@,
                )[name] == entries_view(entries)[name].nobody_waits()) by {
                lemma_entries_changed(entries, self.channels@, change, name);
            }
            assert(self@ =~= released_channels(old(self)@));
        }
    }

    /// Asks anew for the members that are waited for. The frames are to be sent.
    fn ask_again(&self) -> (frames: Vec<String>)
        ensures
            asks_members_of_each(frames@, self@),
    {
        let ghost entries = self.channels@;
        let ghost chosen = |channel: ChannelView<M, H, P, L>|
            channel.presence.waiting_cbs.len() > 0;
        let ghost mut names: Seq<Seq<char>> = Seq::empty();
        let mut frames: Vec<String> = Vec::new();
        for i in 0..self.channels.len()
            invariant
                entries == self.channels@,
                chosen == (|channel: ChannelView<M, H, P, L>|
                    channel.presence.waiting_cbs.len() > 0),
                lists(names, entries, i as int, chosen),
                frames@.len() == names.len(),
                forall|k: int|
                    0 <= k < frames@.len() ==> sends(
                        Some(#[trigger] frames@[k]),
                        true,
                        presence_message(
                            "presence.get"@,
                            entries_view(entries)[names[k]].presence.channel_name,
                            None,
                        ),
                    ),
        {
            let counts = self.counts(i);
            proof {
                lemma_lists_next(names, entries, i as int, chosen);
                if counts {
                    lemma_last_named(entries, entries[i as int].0@, i as int);
                }
            }
            if counts {
                if let Some(frame) = self.channels[i].1.presence().ask_again() {
                    frames.push(frame);
                    proof {
                        names = names.push(entries[i as int].0@);
                    }
                }
            }
        }
        proof {
            assert forall|name: Seq<char>| #[trigger] names.contains(name) <==> waited_for(
                self@,
            ).contains(name) by {
                lemma_lists_all(names, entries, chosen, name);
            }
            assert(enumerates(names, waited_for(self@)));
        }
        frames
    }
}

/// The kinds of event that a server reports.
#[derive(Debug, Clone, Copy, PartialEq, Eq, Structural)]
pub enum EventKind {
    Message,
    PresenceEnter,
    PresenceLeave,
    PresenceUpdate,
    PresenceMembers,
    History,
    Ack,
    Error,
    Other,
}

/// The kind of event that an action names.
pub open spec fn kind_of(action: Seq<char>) -> EventKind {
    if action == "message"@ {
        EventKind::Message
    } else if action == "presence.enter"@ {
        EventKind::PresenceEnter
    } else if action == "presence.leave"@ {
        EventKind::PresenceLeave
    } else if action == "presence.update"@ {
        EventKind::PresenceUpdate
    } else if action == "presence.members"@ {
        EventKind::PresenceMembers
    } else if action == "history"@ {
        EventKind::History
    } else if action == "ack"@ {
        EventKind::Ack
    } else if action == "error"@ {
        EventKind::Error
    } else {
        EventKind::Other
    }
}

impl EventKind {
    /// The kind of event that an action names.
    pub fn of(action: &str) -> (kind: EventKind)
        ensures
            kind == kind_of(action@),
    {
        if same_text(action, "message") {
            EventKind::Message
        } else if same_text(action, "presence.enter") {
            EventKind::PresenceEnter
        } else if same_text(action, "presence.leave") {
            EventKind::PresenceLeave
        } else if same_text(action, "presence.update") {
            EventKind::PresenceUpdate
        } else if same_text(action, "presence.members") {
            EventKind::PresenceMembers
        } else if same_text(action, "history") {
            EventKind::History
        } else if same_text(action, "ack") {
            EventKind::Ack
        } else if same_text(action, "error") {
            EventKind::Error
        } else {
            EventKind::Other
        }
    }
}

/// The kind of the event that a frame reports. A frame without an action
/// reports nothing that is known.
pub open spec fn event_kind(root: JsonView) -> EventKind {
    match root.get("action"@) {
        Some(action) => match action.as_str() {
            Some(action) => kind_of(action),
            None => EventKind::Other,
        },
        None => EventKind::Other,
    }
}

/// The channel that a frame is about; the empty name where it names none.
pub open spec fn event_channel(root: JsonView) -> Seq<char> {
    text_at(root, "channel"@, Seq::empty())
}

/// The message in a frame.
pub open spec fn event_message(root: JsonView) -> MessageView {
    MessageView {
        data: data_at(root),
        meta: MessageMetaView {
            id: text_at(root, "id"@, Seq::empty()),
            channel: event_channel(root),
            timestamp: number_at(root, "timestamp"@),
        },
    }
}

/// The token in a frame that acknowledges a resumption.
pub open spec fn event_token(root: JsonView) -> Option<Seq<char>> {
    if text_at(root, "id"@, Seq::empty()) == "resume"@ {
        match root.get("data"@) {
            Some(data) => match data.get("resumeToken"@) {
                Some(token) => token.as_str(),
                None => None,
            },
            None => None,
        }
    } else {
        None
    }
}

/// What is to be done about an event: the callbacks to call, or the line to log.
#[derive(Debug, PartialEq)]
pub enum Delivery<M, H, P, L> {
    Nothing,
    Message(Vec<Call<M, Message>>),
    Member(Vec<Call<P, PresenceMember>>),
    Members(Vec<Call<L, Vec<PresenceMember>>>),
    History(Vec<Call<H, HistoryResult>>),
    Log(String),
}

/// What is to be done about an event: each of the callbacks to call, with what.
pub enum DeliveryView<M, H, P, L> {
    Nothing,
    Message(Seq<M>, MessageView),
    Member(Seq<P>, PresenceMemberView),
    Members(Seq<L>, Seq<PresenceMemberView>),
    History(Seq<H>, HistoryResultView),
    Log(Seq<char>),
}

/// `delivery` calls just the callbacks that `expected` says, in order, each
/// with what it says.
pub open spec fn delivers<M: Clone, H: Clone, P: Clone, L: Clone>(
    delivery: Delivery<M, H, P, L>,
    expected: DeliveryView<M, H, P, L>,
) -> bool {
    match (delivery, expected) {
        (Delivery::Nothing, DeliveryView::Nothing) => true,
        (Delivery::Message(calls), DeliveryView::Message(callbacks, message)) => calls_all(
            calls@,
            callbacks,
            message,
        ),
        (Delivery::Member(calls), DeliveryView::Member(callbacks, member)) => calls_all(
            calls@,
            callbacks,
            member,
        ),
        (Delivery::Members(calls), DeliveryView::Members(callbacks, members)) => calls_all(
            calls@,
            callbacks,
            members,
        ),
        (Delivery::History(calls), DeliveryView::History(callbacks, result)) => calls_all(
            calls@,
            callbacks,
            result,
        ),
        (Delivery::Log(text), DeliveryView::Log(line)) => text@ == line,
        _ => false,
    }
}

/// What is to be done about an event, given the channels that there are. An
/// event on a channel that is not there is let go.
pub open spec fn delivery_for<M, H, P, L>(
    channels: Map<Seq<char>, ChannelView<M, H, P, L>>,
    root: JsonView,
) -> DeliveryView<M, H, P, L> {
    let kind = event_kind(root);
    let name = event_channel(root);
    let data = root.get("data"@);
    let channel = channels[name];
    if kind == EventKind::Error {
        DeliveryView::Log("[wSocket] Error: "@ + text_at(root, "error"@, "unknown"@))
    } else if !channels.contains_key(name) {
        DeliveryView::Nothing
    } else {
        match kind {
            EventKind::Message => DeliveryView::Message(
                channel.callbacks,
                event_message(root),
            ),
            EventKind::PresenceEnter => DeliveryView::Member(
                channel.presence.enter_cbs,
                presence_member(data),
            ),
            EventKind::PresenceLeave => DeliveryView::Member(
                channel.presence.leave_cbs,
                presence_member(data),
            ),
            EventKind::PresenceUpdate => DeliveryView::Member(
                channel.presence.update_cbs,
                presence_member(data),
            ),
            EventKind::PresenceMembers => DeliveryView::Members(
                channel.presence.told_of_members(),
                presence_members(data),
            ),
            EventKind::History => DeliveryView::History(
                channel.history_cbs,
                history_answer(data, name),
            ),
            _ => DeliveryView::Nothing,
        }
    }
}

/// A client of the server.
pub struct Client<M, H, P, L> {
    connected: bool,
    reading: bool,
    awaited: bool,
    pinging: bool,
    last_message_ts: u64,
    resume_token: Option<String>,
    /// Pub/Sub namespace, which holds the channels.
    pub pubsub: PubSubNamespace<M, H, P, L>,
    /// Push notification client (configured via `configure_push()`).
    pub push: Option<PushClient>,
}

/// The state of a client.
#[verifier::ext_equal]
pub struct ClientView<M, H, P, L> {
    /// The client has not been disconnected: there is a connection to send on,
    /// and a lost one is to be replaced.
    pub connected: bool,
    /// Nobody has stopped the task that reads.
    pub reading: bool,
    /// Somebody has waited for the task that reads.
    pub awaited: bool,
    /// Nobody has stopped the task that pings.
    pub pinging: bool,
    /// The latest timestamp of a message that was delivered.
    pub last_message_ts: u64,
    /// The token to resume with, once the server has given one.
    pub resume_token: Option<Seq<char>>,
    pub channels: Map<Seq<char>, ChannelView<M, H, P, L>>,
    pub push: Option<PushView>,
}

impl<M, H, P, L> View for Client<M, H, P, L> {
    type V = ClientView<M, H, P, L>;

    closed spec fn view(&self) -> ClientView<M, H, P, L> {
        ClientView {
            connected: self.connected,
            reading: self.reading,
            awaited: self.awaited,
            pinging: self.pinging,
            last_message_ts: self.last_message_ts,
            resume_token: optional_text(self.resume_token),
            channels: self.pubsub@,
            push: match self.push {
                Some(push) => Some(push@),
                None => None,
            },
        }
    }
}

impl<M, H, P, L> ClientView<M, H, P, L> {
    /// The client once an event has been taken in.
    pub open spec fn receive(self, root: JsonView) -> ClientView<M, H, P, L> {
        let timestamp = number_at(root, "timestamp"@);
        match event_kind(root) {
            EventKind::Message if self.channels.contains_key(event_channel(root)) && timestamp
                > self.last_message_ts => ClientView { last_message_ts: timestamp, ..self },
            EventKind::PresenceMembers if self.channels.contains_key(event_channel(root)) => {
                let name = event_channel(root);
                self.with_channel(name, self.channels[name].nobody_waits())
            },
            EventKind::Ack => match event_token(root) {
                Some(token) => ClientView { resume_token: Some(token), ..self },
                None => self,
            },
            _ => self,
        }
    }

    /// The client once a frame's text has been taken in; one that is not JSON
    /// changes nothing.
    pub open spec fn receive_text(self, raw: Seq<char>) -> ClientView<M, H, P, L> {
        match text_reading(raw) {
            Some(root) => self.receive(root),
            None => self,
        }
    }

    /// What is to be done about a frame's text; nothing where it is not JSON.
    pub open spec fn delivery_of_text(self, raw: Seq<char>) -> DeliveryView<M, H, P, L> {
        match text_reading(raw) {
            Some(root) => delivery_for(self.channels, root),
            None => DeliveryView::Nothing,
        }
    }

    /// The client once the channel under `name` is left as `channel`.
    pub open spec fn with_channel(
        self,
        name: Seq<char>,
        channel: ChannelView<M, H, P, L>,
    ) -> ClientView<M, H, P, L> {
        ClientView { channels: self.channels.insert(name, channel), ..self }
    }

    /// The client once somebody has waited for its reader.
    pub open spec fn wait(self) -> ClientView<M, H, P, L> {
        ClientView { awaited: true, ..self }
    }

    /// There is a reader that nobody has waited for.
    pub open spec fn has_reader_to_await(self) -> bool {
        self.reading && !self.awaited
    }

    /// What is to be undone to disconnect.
    pub open spec fn shutdown(self) -> Shutdown {
        Shutdown {
            abort_ping: self.pinging,
            abort_read: self.reading,
            close_connection: self.connected,
        }
    }

    /// The client once it has disconnected. Nobody will tell the members any
    /// more, so nobody waits for them.
    pub open spec fn disconnect(self) -> ClientView<M, H, P, L> {
        ClientView {
            connected: false,
            reading: false,
            pinging: false,
            channels: released_channels(self.channels),
            ..self
        }
    }

    /// The client once a lost connection has been replaced: every channel is
    /// subscribed just where somebody listens. A client that has been
    /// disconnected stays so.
    pub open spec fn reopened(self) -> ClientView<M, H, P, L> {
        if self.connected {
            ClientView { channels: reopened_channels(self.channels), ..self }
        } else {
            self
        }
    }

    /// The client has got something to resume from.
    pub open spec fn can_resume(self) -> bool {
        self.resume_token is Some || self.last_message_ts > 0
    }

    /// The client once its reader has met an event.
    pub open spec fn after_read(self, event: ReadEvent) -> ClientView<M, H, P, L> {
        match event {
            ReadEvent::Text(text) => self.receive_text(text@),
            _ => self,
        }
    }

    /// What the reader does about an event: it delivers what a frame asks for,
    /// and when the connection is lost it has it replaced, until the client
    /// disconnects.
    pub open spec fn reads(self, event: ReadEvent, step: ReadStep<M, H, P, L>) -> bool
        where M: Clone, H: Clone, P: Clone, L: Clone
    {
        match event {
            ReadEvent::Text(text) => step matches ReadStep::Deliver(delivery) && delivers(
                delivery,
                self.delivery_of_text(text@),
            ),
            ReadEvent::OtherFrame => step matches ReadStep::Deliver(delivery) && delivers(
                delivery,
                DeliveryView::Nothing,
            ),
            ReadEvent::Failed | ReadEvent::Closed | ReadEvent::ReconnectFailed => {
                if self.connected {
                    step is Reconnect
                } else {
                    step is Stop
                }
            },
        }
    }
}

/// A client that has just connected.
pub open spec fn fresh_client<M, H, P, L>() -> ClientView<M, H, P, L> {
    ClientView {
        connected: true,
        reading: true,
        awaited: false,
        pinging: true,
        last_message_ts: 0,
        resume_token: None,
        channels: Map::empty(),
        push: None,
    }
}

/// What is to be undone to disconnect.
#[derive(Debug, Clone, Copy, PartialEq, Eq, Structural)]
pub struct Shutdown {
    pub abort_ping: bool,
    pub abort_read: bool,
    pub close_connection: bool,
}

/// The seconds between two pings.
pub const PING_INTERVAL_SECS: u64 = 30;

/// What happens to the task that pings.
#[derive(Debug, Clone, Copy, PartialEq, Eq, Structural)]
pub enum PingEvent {
    /// The timer fired for the first time, which it does at once.
    Started,
    /// The timer fired again.
    Tick,
    /// A ping went out.
    Sent,
    /// A ping could not be sent.
    SendFailed,
}

/// What the task that pings does next.
#[derive(Debug, PartialEq)]
pub enum PingStep {
    Wait,
    Send(String),
    Stop,
}

/// What the connection yields to the task that reads.
#[derive(Debug, PartialEq)]
pub enum ReadEvent {
    /// A text frame.
    Text(String),
    /// A frame of another kind.
    OtherFrame,
    /// The connection failed.
    Failed,
    /// The connection ended.
    Closed,
    /// A lost connection could not be replaced.
    ReconnectFailed,
}

/// What the task that reads does next.
#[derive(Debug, PartialEq)]
pub enum ReadStep<M, H, P, L> {
    /// See to a frame, and read on.
    Deliver(Delivery<M, H, P, L>),
    /// Connect anew, hand the connection to [`Client::reconnected`], and read on.
    Reconnect,
    /// Stop.
    Stop,
}

/// The seconds to wait before each attempt to connect anew. No server asks for
/// a certain time; this one is short, and keeps attempts from crowding.
pub const RECONNECT_DELAY_SECS: u64 = 1;

impl<M, H, P, L> Client<M, H, P, L> {
    /// The URL to connect to, and the client to start with once connected.
    pub fn connect(url: &str, api_key: &str) -> (start: (String, Client<M, H, P, L>))
        ensures
            start.0@ == url@ + "/?key="@ + api_key@,
            start.1@ == fresh_client::<M, H, P, L>(),
    {
        let ws_url = url.to_owned().concat("/?key=").concat(api_key);
        let client = Client {
            connected: true,
            reading: true,
            awaited: false,
            pinging: true,
            last_message_ts: 0,
            resume_token: None,
            pubsub: PubSubNamespace::new(),
            push: None,
        };
        (ws_url, client)
    }

    /// Whether there is a connection to send on: there is until the client
    /// disconnects, for a lost one is replaced.
    pub fn is_connected(&self) -> (connected: bool)
        ensures
            connected == self@.connected,
    {
        self.connected
    }

    /// The latest timestamp of a message that was delivered.
    pub fn last_message_ts(&self) -> (timestamp: u64)
        ensures
            timestamp == self@.last_message_ts,
    {
        self.last_message_ts
    }

    /// The token to resume with, once the server has given one.
    pub fn resume_token(&self) -> (token: Option<&str>)
        ensures
            optional_str(token) == self@.resume_token,
    {
        match &self.resume_token {
            Some(token) => Some(token.as_str()),
            None => None,
        }
    }

    /// The pub/sub namespace, which holds the channels.
    pub fn namespace(&mut self) -> (namespace: &mut PubSubNamespace<M, H, P, L>)
        ensures
            namespace@ == old(self)@.channels,
            final(self)@ == (ClientView { channels: final(namespace)@, ..old(self)@ }),
    {
        &mut self.pubsub
    }

    /// The push client, once `configure_push()` has made one.
    pub fn configured_push(&self) -> (push: Option<&PushClient>)
        ensures
            match push {
                Some(push) => self@.push == Some(push@),
                None => self@.push is None,
            },
    {
        match &self.push {
            Some(push) => Some(push),
            None => None,
        }
    }

    /// Get or create a channel reference. Same as `pubsub.channel()`, which is
    /// to be preferred.
    pub fn channel(&mut self, name: &str) -> (channel: &mut ChannelHandle<M, H, P, L>)
        ensures
            channel@ == channel_or_fresh(old(self)@.channels, name@),
            final(self)@ == old(self)@.with_channel(name@, final(channel)@),
    {
        self.pubsub.channel(name)
    }

    /// Configure push notification access and return a push client.
    pub fn configure_push(&mut self, base_url: &str, token: &str, app_id: &str) -> (push:
        PushClient)
        ensures
            push@ == push_client(base_url@, token@, app_id@),
            final(self)@ == (ClientView {
                push: Some(push_client(base_url@, token@, app_id@)),
                ..old(self)@
            }),
    {
        self.push = Some(PushClient::new(base_url, token, app_id));
        PushClient::new(base_url, token, app_id)
    }

    /// Wait for the read loop to finish (blocks forever unless disconnected).
    /// Says whether there is one to wait for: it can be waited for only once.
    pub fn wait(&mut self) -> (wait_for_reader: bool)
        ensures
            wait_for_reader == old(self)@.has_reader_to_await(),
            final(self)@ == old(self)@.wait(),
    {
        let wait_for_reader = self.reading && !self.awaited;
        self.awaited = true;
        wait_for_reader
    }

    /// Disconnect from the server. Says what is to be undone; the reader is to
    /// be stopped whether or not somebody waits for it.
    pub fn disconnect(&mut self) -> (shutdown: Shutdown)
        ensures
            shutdown == old(self)@.shutdown(),
            final(self)@ == old(self)@.disconnect(),
    {
        let shutdown = Shutdown {
            abort_ping: self.pinging,
            abort_read: self.reading,
            close_connection: self.connected,
        };
        self.pinging = false;
        self.reading = false;
        self.connected = false;
        self.pubsub.release_waiting();
        shutdown
    }

    /// Takes over a connection that replaces a lost one, and subscribes anew
    /// every channel that is listened to. The frames are to be sent.
    pub fn reconnected(&mut self) -> (frames: Vec<String>)
        ensures
            final(self)@ == old(self)@.reopened(),
            if old(self)@.connected {
                subscribes_each(frames@, old(self)@.channels)
            } else {
                frames@.len() == 0
            },
    {
        if self.connected {
            self.pubsub.reopen()
        } else {
            Vec::new()
        }
    }

    /// Asks for the messages that were missed while there was no connection.
    /// The frame is to be sent after those of `reconnected()`; there is none
    /// where no message has come and no token been given.
    pub fn resume(&self) -> (frame: Option<String>)
        ensures
            sends(
                frame,
                self@.connected && self@.can_resume(),
                resume_message(self@.resume_token, self@.last_message_ts),
            ),
    {
        let token = self.resume_token();
        let can_resume = token.is_some() || self.last_message_ts > 0;
        let request = resume_request(token, self.last_message_ts);
        frame_of(&request, self.connected && can_resume)
    }

    /// Asks anew for the members that somebody waits for, whose request or
    /// answer may have been lost with a connection. The frames are to be sent
    /// after those of `reconnected()`.
    pub fn ask_members_again(&self) -> (frames: Vec<String>)
        ensures
            if self@.connected {
                asks_members_of_each(frames@, self@.channels)
            } else {
                frames@.len() == 0
            },
    {
        if self.connected {
            self.pubsub.ask_again()
        } else {
            Vec::new()
        }
    }

    /// What the task that pings does next: it sends a ping whenever the timer
    /// fires, but for the first time, and stops when it cannot.
    pub fn ping_step(&self, event: PingEvent) -> (step: PingStep)
        ensures
            match event {
                PingEvent::Started => step == PingStep::Wait,
                PingEvent::Tick => match step {
                    PingStep::Send(text) => sends(Some(text), self@.connected, ping_message()),
                    PingStep::Stop => !self@.connected,
                    PingStep::Wait => false,
                },
                PingEvent::Sent => step == PingStep::Wait,
                PingEvent::SendFailed => step == PingStep::Stop,
            },
    {
        match event {
            PingEvent::Started => PingStep::Wait,
            PingEvent::Tick => match frame_of(&ping_request(), self.connected) {
                Some(text) => PingStep::Send(text),
                None => PingStep::Stop,
            },
            PingEvent::Sent => PingStep::Wait,
            PingEvent::SendFailed => PingStep::Stop,
        }
    }
}

impl<M: Clone, H: Clone, P: Clone, L: Clone> Client<M, H, P, L> {
    /// What the task that reads does next.
    pub fn read_step(&mut self, event: ReadEvent) -> (step: ReadStep<M, H, P, L>)
        ensures
            final(self)@ == old(self)@.after_read(event),
            old(self)@.reads(event, step),
    {
        match event {
            ReadEvent::Text(text) => ReadStep::Deliver(self.handle_message(text.as_str())),
            ReadEvent::OtherFrame => ReadStep::Deliver(Delivery::Nothing),
            ReadEvent::Failed | ReadEvent::Closed | ReadEvent::ReconnectFailed => {
                if self.connected {
                    ReadStep::Reconnect
                } else {
                    ReadStep::Stop
                }
            },
        }
    }

    /// Takes in the text of a frame.
    pub fn handle_message(&mut self, raw: &str) -> (delivery: Delivery<M, H, P, L>)
        ensures
            final(self)@ == old(self)@.receive_text(raw@),
            delivers(delivery, old(self)@.delivery_of_text(raw@)),
    {
        match Json::parse(raw) {
            Ok(root) => self.handle_event(&root),
            Err(_) => Delivery::Nothing,
        }
    }

    /// Takes in an event.
    pub fn handle_event(&mut self, root: &Json) -> (delivery: Delivery<M, H, P, L>)
        ensures
            final(self)@ == old(self)@.receive(root@),
            delivers(delivery, delivery_for(old(self)@.channels, root@)),
    {
        let action = match root.get("action") {
            Some(action) => match action.as_str() {
                Some(action) => action,
                None => return Delivery::Nothing,
            },
            None => return Delivery::Nothing,
        };
        proof {
            reveal_strlit("");
            assert(""@ =~= Seq::empty());
        }
        let name = text_member(root, "channel", "");
        match EventKind::of(action) {
            EventKind::Message => match self.pubsub.find(name.as_str()) {
                Some(channel) => {
                    let data = data_member(root);
                    let id = text_member(root, "id", "");
                    let timestamp = number_member(root, "timestamp");
                    if timestamp > self.last_message_ts {
                        self.last_message_ts = timestamp;
                    }
                    let meta = MessageMeta { id, channel: name, timestamp };
                    Delivery::Message(channel.emit(data, meta))
                },
                None => Delivery::Nothing,
            },
            EventKind::PresenceEnter => match self.pubsub.find(name.as_str()) {
                Some(channel) => {
                    let member = parse_presence_member(root.get("data"));
                    Delivery::Member(channel.presence().emit_enter(member))
                },
                None => Delivery::Nothing,
            },
            EventKind::PresenceLeave => match self.pubsub.find(name.as_str()) {
                Some(channel) => {
                    let member = parse_presence_member(root.get("data"));
                    Delivery::Member(channel.presence().emit_leave(member))
                },
                None => Delivery::Nothing,
            },
            EventKind::PresenceUpdate => match self.pubsub.find(name.as_str()) {
                Some(channel) => {
                    let member = parse_presence_member(root.get("data"));
                    Delivery::Member(channel.presence().emit_update(member))
                },
                None => Delivery::Nothing,
            },
            EventKind::PresenceMembers => if self.pubsub.find(name.as_str()).is_some() {
                let members = parse_presence_members(root.get("data"));
                let channel = self.pubsub.channel(name.as_str());
                Delivery::Members(channel.presence_mut().emit_members(members))
            } else {
                Delivery::Nothing
            },
            EventKind::History => match self.pubsub.find(name.as_str()) {
                Some(channel) => {
                    let result = parse_history_result(root.get("data"), name.as_str());
                    Delivery::History(channel.emit_history(result))
                },
                None => Delivery::Nothing,
            },
            EventKind::Ack => {
                if let Some(token) = resume_token_in(root) {
                    self.resume_token = Some(token);
                }
                Delivery::Nothing
            },
            EventKind::Error => {
                let error = text_member(root, "error", "unknown");
                Delivery::Log("[wSocket] Error: ".to_owned().concat(error.as_str()))
            },
            EventKind::Other => Delivery::Nothing,
        }
    }
}

/// The token in a frame that acknowledges a resumption.
pub fn resume_token_in(root: &Json) -> (token: Option<String>)
    ensures
        optional_text(token) == event_token(root@),
{
    proof {
        reveal_strlit("");
        assert(""@ =~= Seq::empty());
    }
    let id = text_member(root, "id", "");
    if !same_text(id.as_str(), "resume") {
        return None;
    }
    match root.get("data") {
        Some(data) => match data.get("resumeToken") {
            Some(token) => match token.as_str() {
                Some(token) => Some(token.to_owned()),
                None => None,
            },
            None => None,
        },
        None => None,
    }
}

} // verus!
