//! The one-byte wire format.
//!
//! Bit 4 of a byte names the acting player, the low four bits name the
//! target cell. The other bits carry nothing and are dropped when a byte is
//! read.

use vstd::prelude::*;

verus! {

/// One of the two seats of a session.
#[derive(Clone, Copy, Debug, PartialEq, Eq, Structural)]
pub enum Player {
    A,
    B,
}

impl Player {
    /// The seat's index: 0 for `A`, 1 for `B`.
    pub open spec fn index(self) -> int {
        match self {
            Player::A => 0,
            Player::B => 1,
        }
    }

    /// The seat with index `i`, for `i` in 0 and 1.
    pub open spec fn of_index(i: int) -> Player {
        if i == 0 {
            Player::A
        } else {
            Player::B
        }
    }

    /// The opposite seat.
    pub open spec fn spec_other(self) -> Player {
        match self {
            Player::A => Player::B,
            Player::B => Player::A,
        }
    }

    /// The seat's index as a slot number.
    pub fn slot(self) -> (i: usize)
        ensures
            i == self.index(),
    {
        match self {
            Player::A => 0,
            Player::B => 1,
        }
    }

    /// The opposite seat.
    #[verifier::when_used_as_spec(spec_other)]
    pub fn other(self) -> (p: Player)
        ensures
            p == self.spec_other(),
    {
        match self {
            Player::A => Player::B,
            Player::B => Player::A,
        }
    }
}

/// The player a byte names: bit 4, read as a seat.
pub open spec fn player_of(byte: u8) -> Player {
    Player::of_index((byte as int / 16) % 2)
}

/// The cell number a byte names: its low four bits, 0 to 15.
pub open spec fn cell_of(byte: u8) -> u8 {
    byte % 16
}

/// The byte that names `player` and `cell`, for a cell number below 16.
pub open spec fn message_byte(player: Player, cell: u8) -> u8 {
    (16 * player.index() + cell) as u8
}

/// Splits a byte into the player and the cell number it names.
pub fn decode(byte: u8) -> (r: (Player, u8))
    ensures
        r.0 == player_of(byte),
        r.1 == cell_of(byte),
{
    let bit: u8 = (byte >> 4) & 1;
    let low: u8 = byte & 0b0000_1111;
    assert(((byte >> 4) & 1) == (byte / 16) % 2) by (bit_vector);
    assert((byte & 0b0000_1111) == byte % 16) by (bit_vector);
    let player = if bit == 0 {
        Player::A
    } else {
        Player::B
    };
    (player, low)
}

/// Builds the byte that names `player` and `cell`.
pub fn encode(player: Player, cell: u8) -> (byte: u8)
    requires
        cell < 16,
    ensures
        byte == message_byte(player, cell),
{
    let bit: u8 = match player {
        Player::A => 0,
        Player::B => 1,
    };
    assert(bit < 2 && cell < 16 ==> ((bit << 4) | cell) == 16 * bit + cell) by (bit_vector);
    (bit << 4) | cell
}

/// A byte built from a player and a cell names that player and that cell.
pub proof fn lemma_encoded_byte_names_its_parts(player: Player, cell: u8)
    requires
        cell < 16,
    ensures
        player_of(message_byte(player, cell)) == player,
        cell_of(message_byte(player, cell)) == cell,
{
}

/// Reading a byte and building it again drops the three unused high bits
/// and nothing else: a byte below 32 comes back as it was, and any byte
/// comes back naming the same player and cell.
pub proof fn lemma_rebuilt_byte(byte: u8)
    ensures
        byte < 32 ==> message_byte(player_of(byte), cell_of(byte)) == byte,
        message_byte(player_of(byte), cell_of(byte)) == byte % 32,
        player_of(message_byte(player_of(byte), cell_of(byte))) == player_of(byte),
        cell_of(message_byte(player_of(byte), cell_of(byte))) == cell_of(byte),
{
}

} // verus!
