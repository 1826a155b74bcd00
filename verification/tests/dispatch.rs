use tictactoe::dispatch::{
    Completion, Request, Server, Step, Wake, ADDRESS_FAMILY, BUFFER_SIZE, SOCKET_TYPE,
};
use tictactoe::event::{Event, EventType};
use tictactoe::session::{Command, Mark};
use tictactoe::wire::Player;

fn send(fd: i32, byte: u8) -> Command {
    Command::Send { fd, byte }
}

fn registry(server: &Server) -> Vec<Event> {
    let mut all = Vec::new();
    for slot in 0..3 {
        all.push(server.events().entry(slot).unwrap());
    }
    all
}

fn board(server: &Server) -> Vec<Mark> {
    let mut marks = Vec::new();
    for cell in 1u8..=9 {
        marks.push(server.session().mark(cell).unwrap());
    }
    marks
}

fn seats(server: &Server) -> (i32, i32) {
    (server.session().player_id(Player::A), server.session().player_id(Player::B))
}

fn check(step: Step, commands: Vec<Command>, watch: Vec<i32>) {
    assert_eq!(step.commands, commands);
    assert_eq!(step.watch, watch);
}

/// Enters the loop once with a read of `bytes` on `fd` and hands back the
/// step.
fn read(server: &mut Server, fd: i32, bytes: &[u8]) -> Step {
    assert_eq!(server.request(Wake::of(fd)), Request::Read { fd });
    let mut buffer = [0u8; BUFFER_SIZE];
    buffer[..bytes.len()].copy_from_slice(bytes);
    server.complete(Completion::Read {
        channel_fd: fd,
        status: 0,
        buffer: &buffer,
        nread: bytes.len() as i32,
    })
}

/// A server that listens on descriptor 3, with connection 4 seated as A and
/// connection 5 as B.
fn running() -> Server {
    let mut server = Server::new();
    server.complete(Completion::Opened { sock_fd: 3 });
    server.complete(Completion::Accepted { channel_fd: 4 });
    server.complete(Completion::Accepted { channel_fd: 5 });
    server
}

#[test]
fn constants_of_the_host_interface() {
    assert_eq!(ADDRESS_FAMILY, 2);
    assert_eq!(SOCKET_TYPE, 1);
    assert_eq!(BUFFER_SIZE, 1024);
}

#[test]
fn wake_of_zero_is_idle() {
    assert_eq!(Wake::of(0), Wake::Idle);
    assert_eq!(Wake::of(3), Wake::Woken(3));
    assert_eq!(Wake::of(-1), Wake::Woken(-1));
}

#[test]
fn first_entry_asks_for_the_listening_socket() {
    let server = Server::new();
    assert_eq!(server.request(Wake::Idle), Request::Listen);
}

#[test]
fn new_server_is_empty() {
    let server = Server::new();
    let vacant = Event { fd: -1, event_type: EventType::Unknown };
    assert_eq!(registry(&server), vec![vacant, vacant, vacant]);
    assert_eq!(seats(&server), (0, 0));
    assert_eq!(board(&server), vec![Mark::Empty; 9]);
    assert_eq!(server.session().turn(), Player::A);
    assert_eq!(server.watch_set(), Vec::<i32>::new());
}

#[test]
fn opened_socket_is_registered_and_polled_alone() {
    let mut server = Server::new();
    let step = server.complete(Completion::Opened { sock_fd: 3 });
    check(step, vec![], vec![3]);
    assert_eq!(server.events().entry(0), Some(Event { fd: 3, event_type: EventType::AcceptSocket }));
    assert_eq!(server.watch_set(), vec![3]);
    assert_eq!(server.request(Wake::Woken(3)), Request::Accept { fd: 3 });
}

#[test]
fn second_opening_replaces_the_listening_socket() {
    let mut server = running();
    let step = server.complete(Completion::Opened { sock_fd: 9 });
    check(step, vec![], vec![9]);
    assert_eq!(
        registry(&server),
        vec![
            Event { fd: 9, event_type: EventType::AcceptSocket },
            Event { fd: 4, event_type: EventType::ReadSocket },
            Event { fd: 5, event_type: EventType::ReadSocket },
        ]
    );
    assert_eq!(seats(&server), (4, 5));
    assert_eq!(server.request(Wake::Woken(3)), Request::Nothing);
}

#[test]
fn accepted_connections_are_registered_and_seated() {
    let mut server = Server::new();
    server.complete(Completion::Opened { sock_fd: 3 });
    let step = server.complete(Completion::Accepted { channel_fd: 4 });
    check(step, vec![send(4, 0x00)], vec![3, 4]);
    let step = server.complete(Completion::Accepted { channel_fd: 5 });
    check(step, vec![send(5, 0x10)], vec![3, 4, 5]);
    assert_eq!(seats(&server), (4, 5));
    assert_eq!(server.request(Wake::Woken(4)), Request::Read { fd: 4 });
    assert_eq!(server.request(Wake::Woken(5)), Request::Read { fd: 5 });
}

#[test]
fn third_connection_attempt_is_closed_at_once() {
    let mut server = running();
    let before = (registry(&server), seats(&server), board(&server), server.session().turn());
    let step = server.complete(Completion::Accepted { channel_fd: 6 });
    check(step, vec![Command::Close { fd: 6 }], vec![3, 4, 5]);
    let after = (registry(&server), seats(&server), board(&server), server.session().turn());
    assert_eq!(after, before);
    assert_eq!(server.request(Wake::Woken(6)), Request::Nothing);
}

#[test]
fn unregistered_descriptor_asks_for_nothing() {
    let mut server = running();
    assert_eq!(server.request(Wake::Woken(8)), Request::Nothing);
    assert_eq!(server.request(Wake::Woken(-1)), Request::Nothing);
    let step = server.complete(Completion::Nothing);
    check(step, vec![], vec![3, 4, 5]);
    assert_eq!(seats(&server), (4, 5));
}

#[test]
fn scenario_through_the_event_loop() {
    let mut server = Server::new();
    assert_eq!(server.request(Wake::of(0)), Request::Listen);
    check(server.complete(Completion::Opened { sock_fd: 3 }), vec![], vec![3]);

    assert_eq!(server.request(Wake::of(3)), Request::Accept { fd: 3 });
    check(server.complete(Completion::Accepted { channel_fd: 4 }), vec![send(4, 0x00)], vec![3, 4]);
    assert_eq!(server.request(Wake::of(3)), Request::Accept { fd: 3 });
    check(
        server.complete(Completion::Accepted { channel_fd: 5 }),
        vec![send(5, 0x10)],
        vec![3, 4, 5],
    );

    check(read(&mut server, 4, &[0x05]), vec![send(4, 0x05), send(5, 0x05)], vec![3, 4, 5]);
    assert_eq!(server.session().turn(), Player::B);

    let marks = board(&server);
    check(read(&mut server, 5, &[0x15]), vec![], vec![3, 4, 5]);
    assert_eq!(board(&server), marks);
    assert_eq!(server.session().turn(), Player::B);

    check(read(&mut server, 5, &[0x13]), vec![send(4, 0x13), send(5, 0x13)], vec![3, 4, 5]);
    assert_eq!(server.session().turn(), Player::A);
    assert_eq!(server.session().mark(5), Some(Mark::PlayerA));
    assert_eq!(server.session().mark(3), Some(Mark::PlayerB));
}

#[test]
fn read_of_no_bytes_changes_nothing() {
    let mut server = running();
    check(read(&mut server, 4, &[]), vec![], vec![3, 4, 5]);
    assert_eq!(board(&server), vec![Mark::Empty; 9]);
    assert_eq!(server.session().turn(), Player::A);
}

#[test]
fn read_of_several_bytes_changes_nothing() {
    let mut server = running();
    check(read(&mut server, 4, &[0x05, 0x06]), vec![], vec![3, 4, 5]);
    check(read(&mut server, 4, &[0x05; BUFFER_SIZE]), vec![], vec![3, 4, 5]);
    assert_eq!(board(&server), vec![Mark::Empty; 9]);
    assert_eq!(server.session().turn(), Player::A);
}

#[test]
fn only_the_bytes_read_are_the_payload() {
    let mut server = running();
    // One byte was read; what lies behind it in the buffer does not count.
    let buffer = [0x05u8, 0x06, 0x07, 0x08];
    let commands = server.received(4, 0, &buffer, 1);
    assert_eq!(commands, vec![send(4, 0x05), send(5, 0x05)]);
    assert_eq!(server.session().mark(5), Some(Mark::PlayerA));
    assert_eq!(server.session().mark(6), Some(Mark::Empty));
}

#[test]
fn byte_count_outside_the_buffer_is_ignored() {
    let mut server = running();
    let buffer = [0x05u8];
    assert_eq!(server.received(4, 0, &buffer, 2), vec![]);
    assert_eq!(server.received(4, 0, &buffer, -1), vec![]);
    assert_eq!(server.received(4, 0, &buffer, i32::MAX), vec![]);
    assert_eq!(server.received(4, 0, &buffer, i32::MIN), vec![]);
    assert_eq!(board(&server), vec![Mark::Empty; 9]);
    assert_eq!(seats(&server), (4, 5));
    assert_eq!(server.session().turn(), Player::A);
}

#[test]
fn failed_read_is_a_disconnection() {
    let mut server = running();
    read(&mut server, 4, &[0x05]);
    let buffer = [0u8; BUFFER_SIZE];
    let step = server.complete(Completion::Read {
        channel_fd: 4,
        status: 8,
        buffer: &buffer,
        nread: 0,
    });
    // Nothing is sent and nothing is closed; the closed connection stays
    // registered and is polled again.
    check(step, vec![], vec![3, 4, 5]);
    assert_eq!(seats(&server), (0, 5));
    assert_eq!(board(&server), vec![Mark::Empty; 9]);
    assert_eq!(server.session().turn(), Player::B);
    assert_eq!(server.request(Wake::Woken(4)), Request::Read { fd: 4 });
}

#[test]
fn failed_read_ignores_the_buffer() {
    let mut server = running();
    let buffer = [0x05u8];
    assert_eq!(server.received(4, -1, &buffer, 1), vec![]);
    assert_eq!(seats(&server), (0, 5));
    assert_eq!(board(&server), vec![Mark::Empty; 9]);
    assert_eq!(server.session().turn(), Player::A);
}

#[test]
fn failed_read_of_a_stranger_changes_nothing() {
    let mut server = running();
    read(&mut server, 4, &[0x05]);
    let marks = board(&server);
    assert_eq!(server.received(9, 1, &[], 0), vec![]);
    assert_eq!(seats(&server), (4, 5));
    assert_eq!(board(&server), marks);
}

#[test]
fn reconnection_after_a_disconnect_is_seated_but_not_registered() {
    let mut server = running();
    server.received(5, 1, &[], 0);
    let step = server.complete(Completion::Accepted { channel_fd: 6 });
    // The seat is free again, the registry is still full.
    check(step, vec![send(6, 0x10)], vec![3, 4, 5]);
    assert_eq!(seats(&server), (4, 6));
    assert_eq!(server.request(Wake::Woken(6)), Request::Nothing);
}

#[test]
fn reused_descriptor_is_read_again() {
    let mut server = running();
    server.received(5, 1, &[], 0);
    let step = server.complete(Completion::Accepted { channel_fd: 5 });
    check(step, vec![send(5, 0x10)], vec![3, 4, 5]);
    check(read(&mut server, 4, &[0x01]), vec![send(4, 0x01), send(5, 0x01)], vec![3, 4, 5]);
}

#[test]
fn direct_calls_agree_with_complete() {
    let mut server = Server::new();
    server.opened(3);
    assert_eq!(server.watch_set(), vec![3]);
    assert_eq!(server.accepted(4), send(4, 0x00));
    assert_eq!(server.accepted(5), send(5, 0x10));
    assert_eq!(server.accepted(6), Command::Close { fd: 6 });
    assert_eq!(server.watch_set(), vec![3, 4, 5]);
    assert_eq!(server.received(4, 0, &[0x09], 1), vec![send(4, 0x09), send(5, 0x09)]);
    assert_eq!(server.session().mark(9), Some(Mark::PlayerA));
}
