//! The event registry: a fixed table from descriptors to their roles.
//!
//! Entries are never removed. A descriptor may stand in the table more than
//! once; a lookup goes by its last entry.

use vstd::prelude::*;

verus! {

/// The role a registered descriptor plays.
#[derive(Clone, Copy, Debug, PartialEq, Eq, Structural)]
pub enum EventType {
    /// The slot is unassigned.
    Unknown,
    /// A listening socket: readiness means a connection waits to be accepted.
    AcceptSocket,
    /// An open connection: readiness means bytes wait to be read.
    ReadSocket,
}

/// One entry of the registry.
#[derive(Clone, Copy, Debug, PartialEq, Eq, Structural)]
pub struct Event {
    pub fd: i32,
    pub event_type: EventType,
}

/// Number of entries in the registry: one listening socket and two
/// connections.
pub const EVENT_CAPACITY: usize = 3;

/// The entry of a slot that nothing was registered in.
pub open spec fn vacant() -> Event {
    Event { fd: -1i32, event_type: EventType::Unknown }
}

/// Index of the first unassigned entry at or after `from`, or the length of
/// `events` if there is none.
///
/// The definition is recursive: on a table of known contents, unfold it with
/// `reveal_with_fuel`, or go by [`lemma_next_unknown_is_first`].
pub open spec fn next_unknown(events: Seq<Event>, from: int) -> int
    decreases events.len() - from,
{
    if from < 0 || from >= events.len() {
        events.len() as int
    } else if events[from].event_type is Unknown {
        from
    } else {
        next_unknown(events, from + 1)
    }
}

/// The table after `event` was registered: it takes the first unassigned
/// slot, and a full table stays as it is.
pub open spec fn registered(events: Seq<Event>, event: Event) -> Seq<Event> {
    let slot = next_unknown(events, 0);
    if slot < events.len() {
        events.update(slot, event)
    } else {
        events
    }
}

/// The role found for `fd` among the first `end` entries: that of the last
/// entry with this descriptor, `Unknown` if there is none.
///
/// The definition is recursive: on a table of known contents, unfold it with
/// `reveal_with_fuel`, or go by [`lemma_role_of_last_entry`] and
/// [`lemma_role_of_absent`].
pub open spec fn role_before(events: Seq<Event>, fd: i32, end: int) -> EventType
    decreases end,
{
    if end <= 0 || end > events.len() {
        EventType::Unknown
    } else if events[end - 1].fd == fd {
        events[end - 1].event_type
    } else {
        role_before(events, fd, end - 1)
    }
}

/// The role of `fd` in the table.
pub open spec fn role_of(events: Seq<Event>, fd: i32) -> EventType {
    role_before(events, fd, events.len() as int)
}

/// The descriptors to poll: those of all assigned entries, in table order.
pub open spec fn watched(events: Seq<Event>) -> Seq<i32> {
    events.filter(|e: Event| !(e.event_type is Unknown)).map_values(|e: Event| e.fd)
}

/// At most one entry is a listening socket.
pub open spec fn single_listener(events: Seq<Event>) -> bool {
    forall|i: int, j: int|
        0 <= i < events.len() && 0 <= j < events.len() && events[i].event_type is AcceptSocket
            && events[j].event_type is AcceptSocket ==> i == j
}

/// No entry but the first is a listening socket.
pub open spec fn listener_leads(events: Seq<Event>) -> bool {
    forall|i: int| 1 <= i < events.len() ==> !(events[i].event_type is AcceptSocket)
}

/// `next_unknown` finds the first unassigned entry: every entry from `from`
/// up to the result is assigned, and the result, where it lies in the table,
/// is unassigned.
pub proof fn lemma_next_unknown_is_first(events: Seq<Event>, from: int)
    requires
        0 <= from <= events.len(),
    ensures
        from <= next_unknown(events, from) <= events.len(),
        forall|i: int|
            from <= i < next_unknown(events, from) ==> !(events[i].event_type is Unknown),
        next_unknown(events, from) < events.len() ==> events[next_unknown(
            events,
            from,
        )].event_type is Unknown,
    decreases events.len() - from,
{
    if from < events.len() && !(events[from].event_type is Unknown) {
        lemma_next_unknown_is_first(events, from + 1);
    }
}

/// A lookup goes by the last entry with the descriptor.
pub proof fn lemma_role_of_last_entry(events: Seq<Event>, fd: i32, at: int)
    requires
        0 <= at < events.len(),
        events[at].fd == fd,
        forall|i: int| at < i < events.len() ==> events[i].fd != fd,
    ensures
        role_of(events, fd) == events[at].event_type,
{
    lemma_role_skips_others(events, fd, at + 1, events.len() as int);
}

/// A descriptor that no entry holds has the role `Unknown`.
pub proof fn lemma_role_of_absent(events: Seq<Event>, fd: i32)
    requires
        forall|i: int| 0 <= i < events.len() ==> events[i].fd != fd,
    ensures
        role_of(events, fd) is Unknown,
{
    lemma_role_skips_others(events, fd, 0, events.len() as int);
}

/// Entries with another descriptor do not change what a lookup finds.
proof fn lemma_role_skips_others(events: Seq<Event>, fd: i32, start: int, end: int)
    requires
        0 <= start <= end <= events.len(),
        forall|i: int| start <= i < end ==> events[i].fd != fd,
    ensures
        role_before(events, fd, end) == role_before(events, fd, start),
    decreases end - start,
{
    if start < end {
        lemma_role_skips_others(events, fd, start, end - 1);
    }
}

/// An event registered in a table with room is found again under its
/// descriptor, unless a later entry holds the same descriptor.
pub proof fn lemma_registered_is_found(events: Seq<Event>, event: Event)
    requires
        next_unknown(events, 0) < events.len(),
        forall|i: int| next_unknown(events, 0) < i < events.len() ==> events[i].fd != event.fd,
    ensures
        role_of(registered(events, event), event.fd) == event.event_type,
{
    lemma_next_unknown_is_first(events, 0);
    lemma_role_of_last_entry(registered(events, event), event.fd, next_unknown(events, 0));
}

/// A table whose only listening socket stands first holds at most one.
pub proof fn lemma_leading_listener_is_single(events: Seq<Event>)
    requires
        listener_leads(events),
    ensures
        single_listener(events),
{
}

/// The event registry.
#[derive(Debug)]
pub struct EventMap {
    events: [Event; EVENT_CAPACITY],
}

impl View for EventMap {
    type V = Seq<Event>;

    closed spec fn view(&self) -> Seq<Event> {
        self.events@
    }
}

impl EventMap {
    /// The table of a registry with every slot unassigned.
    pub open spec fn spec_new() -> Seq<Event> {
        Seq::new(EVENT_CAPACITY as nat, |i: int| vacant())
    }

    /// Every registry has `EVENT_CAPACITY` entries.
    pub proof fn lemma_capacity(self)
        ensures
            self@.len() == EVENT_CAPACITY,
    {
    }

    /// A registry with every slot unassigned.
    pub fn new() -> (map: EventMap)
        ensures
            map@ == EventMap::spec_new(),
            listener_leads(map@),
    {
        let e = Event { fd: -1, event_type: EventType::Unknown };
        EventMap { events: [e, e, e] }
    }

    /// Makes `fd` the listening socket: it takes the first slot, whatever
    /// the slot held.
    pub fn listen(&mut self, fd: i32)
        ensures
            final(self)@ == old(self)@.update(0, Event { fd, event_type: EventType::AcceptSocket }),
            listener_leads(old(self)@) ==> listener_leads(final(self)@),
    {
        self.events[0] = Event { fd, event_type: EventType::AcceptSocket };
    }

    /// Registers `fd` with the given role in the first unassigned slot.
    /// A full registry is left unchanged.
    pub fn register(&mut self, fd: i32, event_type: EventType)
        ensures
            final(self)@ == registered(old(self)@, Event { fd, event_type }),
            listener_leads(old(self)@) && !(event_type is AcceptSocket) ==> listener_leads(
                final(self)@,
            ),
    {
        let mut i: usize = 0;
        while i < EVENT_CAPACITY
            invariant
                i <= EVENT_CAPACITY,
                *self == *old(self),
                next_unknown(self@, 0) == next_unknown(self@, i as int),
            decreases EVENT_CAPACITY - i,
        {
            if matches!(self.events[i].event_type, EventType::Unknown) {
                self.events[i] = Event { fd, event_type };
                return ;
            }
            i += 1;
        }
    }

    /// The role registered for `fd`: that of the last entry with this
    /// descriptor, `Unknown` if there is none.
    pub fn lookup(&self, fd: i32) -> (role: EventType)
        ensures
            role == role_of(self@, fd),
    {
        let mut role = EventType::Unknown;
        let mut i: usize = 0;
        while i < EVENT_CAPACITY
            invariant
                i <= EVENT_CAPACITY,
                role == role_before(self@, fd, i as int),
            decreases EVENT_CAPACITY - i,
        {
            if self.events[i].fd == fd {
                role = self.events[i].event_type;
            }
            i += 1;
        }
        role
    }

    /// The descriptors to poll next: those of all assigned entries, in table
    /// order.
    pub fn watch_set(&self) -> (fds: Vec<i32>)
        ensures
            fds@ == watched(self@),
    {
        let mut fds: Vec<i32> = Vec::new();
        let mut i: usize = 0;
        assert(self@.take(0) =~= Seq::<Event>::empty());
        reveal_with_fuel(Seq::filter, 1);
        while i < EVENT_CAPACITY
            invariant
                i <= EVENT_CAPACITY,
                self@.len() == EVENT_CAPACITY,
                fds@ == watched(self@.take(i as int)),
            decreases EVENT_CAPACITY - i,
        {
            let event = self.events[i];
            proof {
                let seen = self@.take(i as int);
                assert(self@.take(i + 1) =~= seen.push(event));
                seen.lemma_filter_push(event, |e: Event| !(e.event_type is Unknown));
            }
            if !matches!(event.event_type, EventType::Unknown) {
                fds.push(event.fd);
            }
            i += 1;
        }
        assert(self@.take(EVENT_CAPACITY as int) =~= self@);
        fds
    }

    /// The entry in slot `slot`, if the registry has such a slot.
    pub fn entry(&self, slot: usize) -> (event: Option<Event>)
        ensures
            event == if slot < EVENT_CAPACITY {
                Some(self@[slot as int])
            } else {
                None
            },
    {
        if slot < EVENT_CAPACITY {
            Some(self.events[slot])
        } else {
            None
        }
    }
}

} // verus!
