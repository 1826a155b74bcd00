//! The two-player session and its three lifecycle handlers.

use vstd::prelude::*;
use crate::wire::{
    cell_of, decode, encode, lemma_rebuilt_byte, message_byte, player_of, Player,
};

verus! {

/// What a board cell holds.
#[derive(Clone, Copy, Debug, PartialEq, Eq, Structural)]
pub enum Mark {
    Empty,
    PlayerA,
    PlayerB,
}

/// The mark a player leaves on a cell.
pub open spec fn mark_of(player: Player) -> Mark {
    match player {
        Player::A => Mark::PlayerA,
        Player::B => Mark::PlayerB,
    }
}

/// Something the host is asked to do on a connection.
#[derive(Clone, Copy, Debug, PartialEq, Eq, Structural)]
pub enum Command {
    /// Write the single byte to the connection.
    Send { fd: i32, byte: u8 },
    /// Close the connection.
    Close { fd: i32 },
}

/// The mathematical model of a session.
#[verifier::ext_equal]
pub struct SessionView {
    /// The connection identifier of each seat, 0 where the seat is free.
    pub players: Seq<i32>,
    /// The nine cells; cell `n` stands at index `n - 1`.
    pub board: Seq<Mark>,
    /// The player who may move next.
    pub turn: Player,
}

impl SessionView {
    /// Two seats and nine cells.
    pub open spec fn wf(self) -> bool {
        self.players.len() == 2 && self.board.len() == 9
    }

    /// The session a process starts with: no players, an empty board, and
    /// player A to move.
    pub open spec fn fresh() -> SessionView {
        SessionView {
            players: seq![0i32, 0i32],
            board: Seq::new(9, |i: int| Mark::Empty),
            turn: Player::A,
        }
    }

    /// The connection identifier seated as `player`.
    pub open spec fn id_of(self, player: Player) -> i32 {
        self.players[player.index()]
    }

    /// The mark on cell `cell`, counted from 1.
    pub open spec fn mark_at(self, cell: int) -> Mark {
        self.board[cell - 1]
    }

    /// Both seats are taken.
    pub open spec fn full(self) -> bool {
        self.players[0] != 0 && self.players[1] != 0
    }

    /// The seat a new connection would get: the first free one.
    pub open spec fn free_seat(self) -> Option<Player> {
        if self.players[0] == 0 {
            Some(Player::A)
        } else if self.players[1] == 0 {
            Some(Player::B)
        } else {
            None
        }
    }

    /// The first seat that holds `id`.
    pub open spec fn seat_of(self, id: i32) -> Option<Player> {
        if self.players[0] == id {
            Some(Player::A)
        } else if self.players[1] == id {
            Some(Player::B)
        } else {
            None
        }
    }

    /// The session after `id` connected: it takes the free seat, if any.
    pub open spec fn joined(self, id: i32) -> SessionView {
        match self.free_seat() {
            Some(p) => SessionView { players: self.players.update(p.index(), id), ..self },
            None => self,
        }
    }

    /// The answer to a connecting `id`: a byte that tells it its seat, or
    /// the closing of the connection where both seats are taken.
    pub open spec fn welcome(self, id: i32) -> Command {
        match self.free_seat() {
            Some(p) => Command::Send { fd: id, byte: message_byte(p, 0) },
            None => Command::Close { fd: id },
        }
    }

    /// Whether the payload `bytes`, sent by `id`, is a move the session
    /// takes.
    pub open spec fn accepts(self, id: i32, bytes: Seq<u8>) -> bool {
        &&& bytes.len() == 1
        &&& self.id_of(player_of(bytes[0])) == id
        &&& self.turn == player_of(bytes[0])
        &&& 1 <= cell_of(bytes[0]) <= 9
        &&& self.mark_at(cell_of(bytes[0]) as int) is Empty
        &&& self.full()
    }

    /// The session after the move that `byte` names: the cell is marked and
    /// the turn passes to the other player.
    pub open spec fn moved(self, byte: u8) -> SessionView {
        SessionView {
            players: self.players,
            board: self.board.update(cell_of(byte) - 1, mark_of(player_of(byte))),
            turn: self.turn.spec_other(),
        }
    }

    /// The confirmation of the move that `byte` names: one byte, the same
    /// for both seats, seat A first.
    pub open spec fn confirmation(self, byte: u8) -> Seq<Command> {
        let echo = message_byte(player_of(byte), cell_of(byte));
        seq![
            Command::Send { fd: self.players[0], byte: echo },
            Command::Send { fd: self.players[1], byte: echo },
        ]
    }

    /// The session after `id` sent the payload `bytes`.
    pub open spec fn heard(self, id: i32, bytes: Seq<u8>) -> SessionView {
        if self.accepts(id, bytes) {
            self.moved(bytes[0])
        } else {
            self
        }
    }

    /// What is sent after `id` sent the payload `bytes`: the confirmation of
    /// a move, nothing for anything else.
    pub open spec fn answer(self, id: i32, bytes: Seq<u8>) -> Seq<Command> {
        if self.accepts(id, bytes) {
            self.confirmation(bytes[0])
        } else {
            Seq::empty()
        }
    }

    /// The session after `id` disconnected: the first seat that held it is
    /// free again and the whole board is wiped; the turn stays.
    pub open spec fn left(self, id: i32) -> SessionView {
        match self.seat_of(id) {
            Some(p) => SessionView {
                players: self.players.update(p.index(), 0i32),
                board: Seq::new(9, |i: int| Mark::Empty),
                turn: self.turn,
            },
            None => self,
        }
    }
}

/// The state of the one game a server runs.
#[derive(Debug)]
pub struct Session {
    players: [i32; 2],
    board: [Mark; 9],
    turn: Player,
}

impl View for Session {
    type V = SessionView;

    closed spec fn view(&self) -> SessionView {
        SessionView { players: self.players@, board: self.board@, turn: self.turn }
    }
}

impl Session {
    /// A session with no players, an empty board, and player A to move.
    pub fn new() -> (session: Session)
        ensures
            session@ == SessionView::fresh(),
    {
        let session = Session { players: [0, 0], board: [Mark::Empty; 9], turn: Player::A };
        assert(session@ =~= SessionView::fresh());
        session
    }

    /// Every session has two seats and nine cells.
    pub proof fn lemma_view_wf(self)
        ensures
            self@.wf(),
    {
    }

    /// The connection identifier seated as `player`, 0 for a free seat.
    pub fn player_id(&self, player: Player) -> (id: i32)
        ensures
            id == self@.id_of(player),
    {
        self.players[player.slot()]
    }

    /// The mark on cell `cell`, for a cell number from 1 to 9.
    pub fn mark(&self, cell: u8) -> (mark: Option<Mark>)
        ensures
            mark == if 1 <= cell <= 9 {
                Some(self@.mark_at(cell as int))
            } else {
                None
            },
    {
        if 1 <= cell && cell <= 9 {
            Some(self.board[(cell - 1) as usize])
        } else {
            None
        }
    }

    /// The player who may move next.
    pub fn turn(&self) -> (player: Player)
        ensures
            player == self@.turn,
    {
        self.turn
    }
}

/// Handles a new connection `channel_id`.
///
/// The connection takes the first free seat and is sent a byte whose bit 4
/// is the seat's index. With both seats taken the connection is closed and
/// the session stays as it is.
pub fn onopen(session: &mut Session, channel_id: i32) -> (reply: Command)
    ensures
        final(session)@ == old(session)@.joined(channel_id),
        reply == old(session)@.welcome(channel_id),
        old(session)@.full() ==> final(session)@ == old(session)@ && reply == (Command::Close {
            fd: channel_id,
        }),
{
    if session.players[0] == 0 {
        session.players[0] = channel_id;
        Command::Send { fd: channel_id, byte: encode(Player::A, 0) }
    } else if session.players[1] == 0 {
        session.players[1] = channel_id;
        Command::Send { fd: channel_id, byte: encode(Player::B, 0) }
    } else {
        Command::Close { fd: channel_id }
    }
}

/// Handles the payload `buffer` read from connection `channel_fd`.
///
/// The payload is a move only if it is one byte long, names the seat that
/// `channel_fd` holds, that seat is to move, the cell is one of 1 to 9 and
/// empty, and both seats are taken. A move marks the cell, passes the turn
/// and is confirmed to both seats with the same byte. Anything else is
/// dropped without effect.
pub fn onmessage(session: &mut Session, channel_fd: i32, buffer: &[u8]) -> (commands: Vec<Command>)
    ensures
        final(session)@ == old(session)@.heard(channel_fd, buffer@),
        commands@ == old(session)@.answer(channel_fd, buffer@),
        old(session)@.accepts(channel_fd, buffer@) ==> {
            &&& final(session)@ == old(session)@.moved(buffer@[0])
            &&& commands@ == old(session)@.confirmation(buffer@[0])
        },
        !old(session)@.accepts(channel_fd, buffer@) ==> {
            &&& final(session)@ == old(session)@
            &&& commands@ == Seq::<Command>::empty()
        },
        old(session)@.accepts(channel_fd, buffer@) <==> final(session)@ != old(session)@,
        old(session)@.accepts(channel_fd, buffer@) <==> commands@.len() > 0,
        buffer@.len() != 1 ==> final(session)@ == old(session)@ && commands@.len() == 0,
        old(session)@.accepts(channel_fd, buffer@) ==> {
            &&& final(session)@.turn == old(session)@.turn.spec_other()
            &&& commands@.len() == 2
            &&& commands@[0] matches Command::Send { fd: first, byte: sent }
            &&& commands@[1] matches Command::Send { fd: second, byte: echoed }
            &&& first == old(session)@.players[0]
            &&& second == old(session)@.players[1]
            &&& sent == echoed
        },
{
    let mut commands: Vec<Command> = Vec::new();
    if buffer.len() != 1 {
        return commands;
    }
    let message: u8 = buffer[0];
    let (player, action) = decode(message);
    if session.players[player.slot()] != channel_fd {
        return commands;
    }
    if session.turn != player {
        return commands;
    }
    if action < 1 || action > 9 || session.board[(action - 1) as usize] != Mark::Empty {
        return commands;
    }
    if session.players[0] == 0 || session.players[1] == 0 {
        return commands;
    }
    session.board[(action - 1) as usize] = match player {
        Player::A => Mark::PlayerA,
        Player::B => Mark::PlayerB,
    };
    session.turn = session.turn.other();
    let echo: u8 = encode(player, action);
    commands.push(Command::Send { fd: session.players[0], byte: echo });
    commands.push(Command::Send { fd: session.players[1], byte: echo });
    commands
}

/// Handles the loss of connection `channel_id`.
///
/// If the connection holds a seat, the first such seat is freed and the
/// whole board is wiped, the other player's marks too. The turn is kept.
/// Any other identifier leaves the session as it is.
pub fn onclose(session: &mut Session, channel_id: i32)
    ensures
        final(session)@ == old(session)@.left(channel_id),
        old(session)@.seat_of(channel_id) matches Some(seat) ==> {
            &&& final(session)@.id_of(seat) == 0
            &&& final(session)@.id_of(seat.spec_other()) == old(session)@.id_of(seat.spec_other())
            &&& forall|cell: int| 1 <= cell <= 9 ==> final(session)@.mark_at(cell) is Empty
            &&& final(session)@.turn == old(session)@.turn
        },
        old(session)@.seat_of(channel_id) is None ==> final(session)@ == old(session)@,
{
    if session.players[0] == channel_id {
        session.players[0] = 0;
        session.board = [Mark::Empty; 9];
    } else if session.players[1] == channel_id {
        session.players[1] = 0;
        session.board = [Mark::Empty; 9];
    }
    assert(session@ =~= old(session)@.left(channel_id));
}

/// Turns alternate: of two moves taken one after the other, the second is
/// made by the other player, and after both the turn is back where it was.
pub proof fn lemma_turns_alternate(
    session: SessionView,
    first_id: i32,
    first: Seq<u8>,
    second_id: i32,
    second: Seq<u8>,
)
    requires
        session.wf(),
        session.accepts(first_id, first),
        session.heard(first_id, first).accepts(second_id, second),
    ensures
        session.heard(first_id, first).turn == session.turn.spec_other(),
        player_of(second[0]) == player_of(first[0]).spec_other(),
        session.heard(first_id, first).heard(second_id, second).turn == session.turn,
{
}

/// A move is confirmed to both seats with one and the same byte, which
/// names the mover and the cell and has no other bit set.
pub proof fn lemma_confirmation_is_shared(session: SessionView, id: i32, bytes: Seq<u8>)
    requires
        session.wf(),
        session.accepts(id, bytes),
    ensures
        session.answer(id, bytes) == seq![
            Command::Send { fd: session.id_of(Player::A), byte: (bytes[0] % 32) as u8 },
            Command::Send { fd: session.id_of(Player::B), byte: (bytes[0] % 32) as u8 },
        ],
        player_of((bytes[0] % 32) as u8) == session.turn,
        cell_of((bytes[0] % 32) as u8) == cell_of(bytes[0]),
{
    lemma_rebuilt_byte(bytes[0]);
}

/// A move leaves its mark: the cell holds the mover's mark afterwards, every
/// other cell and both seats are as before, and the same cell cannot be
/// taken again.
pub proof fn lemma_move_marks_cell(session: SessionView, id: i32, bytes: Seq<u8>)
    requires
        session.wf(),
        session.accepts(id, bytes),
    ensures
        session.heard(id, bytes).wf(),
        session.heard(id, bytes).players == session.players,
        session.heard(id, bytes).mark_at(cell_of(bytes[0]) as int) == mark_of(session.turn),
        forall|cell: int|
            1 <= cell <= 9 && cell != cell_of(bytes[0]) ==> session.heard(id, bytes).mark_at(cell)
                == session.mark_at(cell),
        forall|next_id: i32, next: Seq<u8>|
            next.len() == 1 && cell_of(next[0]) == cell_of(bytes[0]) ==> !(#[trigger] session.heard(
                id,
                bytes,
            ).accepts(next_id, next)),
{
}

/// A disconnection frees a seat: after a seated connection left, the next
/// connection is seated and not closed; where both seats were taken it gets
/// the very seat that was left.
pub proof fn lemma_leaving_frees_seat(session: SessionView, id: i32, next_id: i32)
    requires
        session.wf(),
        session.seat_of(id) is Some,
    ensures
        session.left(id).free_seat() is Some,
        session.left(id).welcome(next_id) is Send,
        session.full() ==> session.left(id).free_seat() == session.seat_of(id),
        session.full() ==> session.left(id).joined(next_id).id_of(session.seat_of(id)->0)
            == next_id,
{
}

/// No move is taken while a seat is free, whoever sends it.
pub proof fn lemma_no_move_without_opponent(session: SessionView, id: i32, bytes: Seq<u8>)
    requires
        session.wf(),
        !session.full(),
    ensures
        session.heard(id, bytes) == session,
        session.answer(id, bytes) == Seq::<Command>::empty(),
{
}

} // verus!
