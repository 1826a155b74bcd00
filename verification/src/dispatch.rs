//! The event loop's decisions.
//!
//! The host program owns the loop and the sockets. On each entry it asks the
//! server what to do about the wake-up ([`Server::request`]), does that one
//! piece of outside work, and reports what came of it
//! ([`Server::complete`]). It performs the commands it gets back and polls
//! the descriptors it is told to watch; the descriptor the poll reports
//! ready is the next wake-up.

use vstd::prelude::*;
use vstd::slice::slice_subrange;
use crate::event::{
    lemma_next_unknown_is_first, lemma_registered_is_found, lemma_role_of_absent,
    listener_leads, registered, role_of, watched, Event, EventMap, EventType, EVENT_CAPACITY,
};
use crate::session::{onclose, onmessage, onopen, Command, Session, SessionView};

verus! {

/// Address family of the listening socket.
pub const ADDRESS_FAMILY: i32 = 2;

/// Socket type of the listening socket.
pub const SOCKET_TYPE: i32 = 1;

/// Size of the buffer a connection is read into.
pub const BUFFER_SIZE: usize = 1024;

/// Why the loop was entered.
#[derive(Clone, Copy, Debug, PartialEq, Eq, Structural)]
pub enum Wake {
    /// The first entry: nothing was polled yet.
    Idle,
    /// The descriptor that the last poll reported ready.
    Woken(i32),
}

impl Wake {
    /// The wake reason that a raw poll result stands for: 0 is no result.
    pub open spec fn spec_of(ready: i32) -> Wake {
        if ready == 0 {
            Wake::Idle
        } else {
            Wake::Woken(ready)
        }
    }

    /// The wake reason that a raw poll result stands for: 0 is no result.
    #[verifier::when_used_as_spec(spec_of)]
    pub fn of(ready: i32) -> (wake: Wake)
        ensures
            wake == Wake::spec_of(ready),
    {
        if ready == 0 {
            Wake::Idle
        } else {
            Wake::Woken(ready)
        }
    }
}

/// The outside work that one entry of the loop starts with.
#[derive(Clone, Copy, Debug, PartialEq, Eq, Structural)]
pub enum Request {
    /// Open the listening socket, of family `ADDRESS_FAMILY` and type
    /// `SOCKET_TYPE`.
    Listen,
    /// Read the identifier of the new connection from the listening socket
    /// `fd`.
    Accept { fd: i32 },
    /// Read the available bytes, `BUFFER_SIZE` at most, from connection
    /// `fd`.
    Read { fd: i32 },
    /// The descriptor is not registered: there is nothing to do.
    Nothing,
}

/// What came of the outside work that a `Request` asked for.
#[derive(Clone, Copy, Debug)]
pub enum Completion<'a> {
    /// The listening socket was opened as `sock_fd`.
    Opened { sock_fd: i32 },
    /// The listening socket handed out the connection `channel_fd`.
    Accepted { channel_fd: i32 },
    /// The read on `channel_fd` ended with `status`, 0 for success, and left
    /// `nread` bytes at the start of `buffer`.
    Read { channel_fd: i32, status: i32, buffer: &'a [u8], nread: i32 },
    /// Nothing was asked for.
    Nothing,
}

/// What the host does before it suspends again.
#[derive(Debug)]
pub struct Step {
    /// The commands to perform, in this order.
    pub commands: Vec<Command>,
    /// The descriptors to poll.
    pub watch: Vec<i32>,
}

/// The outside work for a wake-up, given the registry.
pub open spec fn request_for(events: Seq<Event>, wake: Wake) -> Request {
    match wake {
        Wake::Idle => Request::Listen,
        Wake::Woken(fd) => match role_of(events, fd) {
            EventType::AcceptSocket => Request::Accept { fd },
            EventType::ReadSocket => Request::Read { fd },
            EventType::Unknown => Request::Nothing,
        },
    }
}

/// The payload of a successful read that reported `nread` bytes in
/// `buffer`, if the count lies within the buffer.
pub open spec fn payload(buffer: Seq<u8>, nread: i32) -> Option<Seq<u8>> {
    if 0 <= nread <= buffer.len() {
        Some(buffer.subrange(0, nread as int))
    } else {
        None
    }
}

/// The mathematical model of a server.
#[verifier::ext_equal]
pub struct ServerView {
    pub events: Seq<Event>,
    pub session: SessionView,
}

impl ServerView {
    /// The registry has `EVENT_CAPACITY` entries and holds no listening
    /// socket but in its first slot, and so at most one; the session has two
    /// seats and nine cells.
    pub open spec fn wf(self) -> bool {
        &&& self.events.len() == EVENT_CAPACITY
        &&& listener_leads(self.events)
        &&& self.session.wf()
    }

    /// The server a process starts with.
    pub open spec fn fresh() -> ServerView {
        ServerView { events: EventMap::spec_new(), session: SessionView::fresh() }
    }

    /// The server after the listening socket `sock_fd` was opened: the
    /// socket stands in the first slot of the registry.
    pub open spec fn after_open(self, sock_fd: i32) -> ServerView {
        ServerView {
            events: self.events.update(
                0,
                Event { fd: sock_fd, event_type: EventType::AcceptSocket },
            ),
            session: self.session,
        }
    }

    /// The server after the connection `channel_fd` was accepted: it is
    /// registered for reading where a slot is unassigned, and joins the
    /// session where a seat is free.
    pub open spec fn after_accept(self, channel_fd: i32) -> ServerView {
        ServerView {
            events: registered(
                self.events,
                Event { fd: channel_fd, event_type: EventType::ReadSocket },
            ),
            session: self.session.joined(channel_fd),
        }
    }

    /// The server after a read on connection `fd` ended with `status` and
    /// `nread` bytes in `buffer`: a failed read is a disconnection, a
    /// successful one delivers its payload to the session. The registry
    /// stays as it is.
    pub open spec fn after_read(
        self,
        fd: i32,
        status: i32,
        buffer: Seq<u8>,
        nread: i32,
    ) -> ServerView {
        if status != 0 {
            ServerView { events: self.events, session: self.session.left(fd) }
        } else {
            match payload(buffer, nread) {
                Some(bytes) => ServerView {
                    events: self.events,
                    session: self.session.heard(fd, bytes),
                },
                None => self,
            }
        }
    }

    /// What is sent after such a read: the confirmation of a move, or
    /// nothing.
    pub open spec fn read_answer(
        self,
        fd: i32,
        status: i32,
        buffer: Seq<u8>,
        nread: i32,
    ) -> Seq<Command> {
        if status != 0 {
            Seq::empty()
        } else {
            match payload(buffer, nread) {
                Some(bytes) => self.session.answer(fd, bytes),
                None => Seq::empty(),
            }
        }
    }

    /// The server after a completion.
    pub open spec fn after(self, completion: Completion) -> ServerView {
        match completion {
            Completion::Opened { sock_fd } => self.after_open(sock_fd),
            Completion::Accepted { channel_fd } => self.after_accept(channel_fd),
            Completion::Read { channel_fd, status, buffer, nread } => self.after_read(
                channel_fd,
                status,
                buffer@,
                nread,
            ),
            Completion::Nothing => self,
        }
    }

    /// The commands that answer a completion.
    pub open spec fn commands_for(self, completion: Completion) -> Seq<Command> {
        match completion {
            Completion::Opened { sock_fd } => Seq::empty(),
            Completion::Accepted { channel_fd } => seq![self.session.welcome(channel_fd)],
            Completion::Read { channel_fd, status, buffer, nread } => self.read_answer(
                channel_fd,
                status,
                buffer@,
                nread,
            ),
            Completion::Nothing => Seq::empty(),
        }
    }

    /// The descriptors to poll after a completion: the new listening socket
    /// alone after it was opened, else every registered descriptor.
    pub open spec fn watch_after(self, completion: Completion) -> Seq<i32> {
        match completion {
            Completion::Opened { sock_fd } => seq![sock_fd],
            _ => watched(self.after(completion).events),
        }
    }
}

/// The registry and the session of one server process.
#[derive(Debug)]
pub struct Server {
    events: EventMap,
    session: Session,
}

impl View for Server {
    type V = ServerView;

    closed spec fn view(&self) -> ServerView {
        ServerView { events: self.events@, session: self.session@ }
    }
}

impl Server {
    /// Every server has a registry of `EVENT_CAPACITY` entries and a session
    /// of two seats and nine cells.
    pub proof fn lemma_view_sizes(self)
        ensures
            self@.events.len() == EVENT_CAPACITY,
            self@.session.wf(),
    {
        self.events.lemma_capacity();
        self.session.lemma_view_wf();
    }

    /// A server with an empty registry and a fresh session.
    pub fn new() -> (server: Server)
        ensures
            server@ == ServerView::fresh(),
            server@.wf(),
    {
        Server { events: EventMap::new(), session: Session::new() }
    }

    /// The outside work to do for a wake-up: to open the listening socket on
    /// the first entry, else what the role of the ready descriptor asks for.
    pub fn request(&self, wake: Wake) -> (request: Request)
        ensures
            request == request_for(self@.events, wake),
    {
        match wake {
            Wake::Idle => Request::Listen,
            Wake::Woken(fd) => match self.events.lookup(fd) {
                EventType::AcceptSocket => Request::Accept { fd },
                EventType::ReadSocket => Request::Read { fd },
                EventType::Unknown => Request::Nothing,
            },
        }
    }

    /// Takes note of the listening socket `sock_fd` that the host opened.
    pub fn opened(&mut self, sock_fd: i32)
        ensures
            final(self)@ == old(self)@.after_open(sock_fd),
            old(self)@.wf() ==> final(self)@.wf(),
    {
        self.events.listen(sock_fd);
    }

    /// Takes in the connection `channel_fd` that the listening socket
    /// handed out: it is registered for reading where a slot is unassigned,
    /// and the session answers it as a new connection.
    pub fn accepted(&mut self, channel_fd: i32) -> (reply: Command)
        ensures
            final(self)@ == old(self)@.after_accept(channel_fd),
            reply == old(self)@.session.welcome(channel_fd),
            old(self)@.session.full() ==> final(self)@.session == old(self)@.session && reply == (
            Command::Close { fd: channel_fd }),
            old(self)@.wf() ==> final(self)@.wf(),
    {
        self.events.register(channel_fd, EventType::ReadSocket);
        let reply = onopen(&mut self.session, channel_fd);
        proof {
            self.lemma_view_sizes();
        }
        reply
    }

    /// Takes in the outcome of a read on connection `channel_fd`: its
    /// `status`, and the `nread` bytes it left at the start of `buffer`.
    ///
    /// A status other than 0 is a disconnection: the session is told, and
    /// nothing is sent or closed. A successful read hands its payload to the
    /// session; a byte count outside the buffer is ignored. The registry is
    /// not touched: a closed connection stays registered.
    pub fn received(&mut self, channel_fd: i32, status: i32, buffer: &[u8], nread: i32) -> (commands:
        Vec<Command>)
        ensures
            final(self)@ == old(self)@.after_read(channel_fd, status, buffer@, nread),
            commands@ == old(self)@.read_answer(channel_fd, status, buffer@, nread),
            final(self)@.events == old(self)@.events,
            status != 0 ==> commands@.len() == 0 && final(self)@.session == old(
                self,
            )@.session.left(channel_fd),
            old(self)@.wf() ==> final(self)@.wf(),
    {
        if status == 0 {
            if 0 <= nread && nread as usize <= buffer.len() {
                onmessage(&mut self.session, channel_fd, slice_subrange(buffer, 0, nread as usize))
            } else {
                Vec::new()
            }
        } else {
            onclose(&mut self.session, channel_fd);
            Vec::new()
        }
    }

    /// The descriptors to poll: every registered one, in registry order.
    pub fn watch_set(&self) -> (fds: Vec<i32>)
        ensures
            fds@ == watched(self@.events),
    {
        self.events.watch_set()
    }

    /// Handles what came of the outside work of this entry, and tells the
    /// host what to do before it suspends again.
    pub fn complete(&mut self, completion: Completion) -> (step: Step)
        ensures
            final(self)@ == old(self)@.after(completion),
            step.commands@ == old(self)@.commands_for(completion),
            step.watch@ == old(self)@.watch_after(completion),
            old(self)@.wf() ==> final(self)@.wf(),
    {
        match completion {
            Completion::Opened { sock_fd } => {
                self.opened(sock_fd);
                let mut watch: Vec<i32> = Vec::new();
                watch.push(sock_fd);
                Step { commands: Vec::new(), watch }
            },
            Completion::Accepted { channel_fd } => {
                let mut commands: Vec<Command> = Vec::new();
                commands.push(self.accepted(channel_fd));
                Step { commands, watch: self.watch_set() }
            },
            Completion::Read { channel_fd, status, buffer, nread } => {
                let commands = self.received(channel_fd, status, buffer, nread);
                Step { commands, watch: self.watch_set() }
            },
            Completion::Nothing => Step { commands: Vec::new(), watch: self.watch_set() },
        }
    }

    /// The session.
    pub fn session(&self) -> (session: &Session)
        ensures
            session@ == self@.session,
    {
        &self.session
    }

    /// The registry.
    pub fn events(&self) -> (events: &EventMap)
        ensures
            events@ == self@.events,
    {
        &self.events
    }
}

/// The first poll watches what the registry holds: on a server that has
/// registered nothing yet, the listening socket alone is the whole watch
/// set.
pub proof fn lemma_first_poll_is_the_watch_set(sock_fd: i32)
    ensures
        ServerView::fresh().watch_after(Completion::Opened { sock_fd }) == watched(
            ServerView::fresh().after_open(sock_fd).events,
        ),
{
    reveal_with_fuel(Seq::filter, 4);
    let events = ServerView::fresh().after_open(sock_fd).events;
    assert(watched(events) =~= seq![sock_fd]);
}

/// A descriptor that the registry does not hold asks for no work.
pub proof fn lemma_stranger_is_ignored(events: Seq<Event>, fd: i32)
    requires
        forall|i: int| 0 <= i < events.len() ==> events[i].fd != fd,
    ensures
        request_for(events, Wake::Woken(fd)) == Request::Nothing,
{
    lemma_role_of_absent(events, fd);
}

/// An accepted connection is read when it is ready next: after
/// `channel_fd` was accepted by a server whose registry had room and held no
/// entry with this descriptor, a wake-up for `channel_fd` asks to read it.
pub proof fn lemma_accepted_connection_is_read(server: ServerView, channel_fd: i32)
    requires
        exists|i: int| 0 <= i < server.events.len() && server.events[i].event_type is Unknown,
        forall|i: int| 0 <= i < server.events.len() ==> server.events[i].fd != channel_fd,
    ensures
        request_for(server.after_accept(channel_fd).events, Wake::Woken(channel_fd))
            == (Request::Read { fd: channel_fd }),
{
    lemma_next_unknown_is_first(server.events, 0);
    lemma_registered_is_found(
        server.events,
        Event { fd: channel_fd, event_type: EventType::ReadSocket },
    );
}

} // verus!
