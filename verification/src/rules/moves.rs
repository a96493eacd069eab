//! Moves, their persisted encoding, and the move-generation entry points.

use vstd::prelude::*;

use super::board::{Side, SQUARES};

verus! {

/// Move properties needed to replay a game from `games.moves` alone.
///
/// Three bits of a persisted encoding; bits outside the known set are never
/// kept.
#[derive(Clone, Copy, PartialEq, Eq, Hash, Debug, Structural)]
pub struct MoveFlags(u8);

impl MoveFlags {
    /// Every value of this type holds only known bits: each constructor keeps
    /// to them, and the field is private.
    #[verifier::type_invariant]
    spec fn only_known_bits(self) -> bool {
        self.0 & 0b0000_0111u8 == self.0
    }

    /// No flag set.
    pub fn none() -> (flags: MoveFlags)
        ensures
            flags.spec_bits() == 0,
            flags.is_valid(),
    {
        assert(0u8 & 7u8 == 0u8) by (bit_vector);
        MoveFlags(0)
    }

    /// The move captured at least one piece.
    pub fn capture() -> (flags: MoveFlags)
        ensures
            flags.spec_bits() == 1,
            flags.is_valid(),
    {
        assert(0b0000_0001u8 & 7u8 == 0b0000_0001u8) by (bit_vector);
        MoveFlags(0b0000_0001)
    }

    /// The move captured more than one piece in a chain.
    pub fn multi_jump() -> (flags: MoveFlags)
        ensures
            flags.spec_bits() == 2,
            flags.is_valid(),
    {
        assert(0b0000_0010u8 & 7u8 == 0b0000_0010u8) by (bit_vector);
        MoveFlags(0b0000_0010)
    }

    /// The move crowned a man.
    pub fn promotion() -> (flags: MoveFlags)
        ensures
            flags.spec_bits() == 4,
            flags.is_valid(),
    {
        assert(0b0000_0100u8 & 7u8 == 0b0000_0100u8) by (bit_vector);
        MoveFlags(0b0000_0100)
    }

    /// Every flag this build knows.
    pub const ALL: u8 = 0b0000_0111;

    pub closed spec fn spec_bits(self) -> u8 {
        self.0
    }

    /// The flags with exactly these bits.
    pub closed spec fn of_bits(bits: u8) -> MoveFlags {
        MoveFlags(bits)
    }

    /// Flags are determined by their bits.
    pub proof fn lemma_bits(self, bits: u8)
        ensures
            MoveFlags::of_bits(bits).spec_bits() == bits,
            MoveFlags::of_bits(self.spec_bits()) == self,
    {
    }

    /// Only known bits are set.
    pub open spec fn is_valid(self) -> bool {
        self.spec_bits() & 0b0000_0111u8 == self.spec_bits()
    }

    pub fn bits(self) -> (bits: u8)
        ensures
            bits == self.spec_bits(),
            self.is_valid(),
    {
        proof {
            use_type_invariant(&self);
        }
        self.0
    }

    /// Bits outside the known set are dropped rather than trusted.
    pub fn from_bits_truncate(bits: u8) -> (flags: MoveFlags)
        ensures
            flags.spec_bits() == bits & 0b0000_0111u8,
            flags.is_valid(),
    {
        let kept = bits & 0b0000_0111;
        assert(kept & 0b0000_0111u8 == kept) by (bit_vector)
            requires
                kept == bits & 0b0000_0111u8,
        ;
        MoveFlags(kept)
    }

    pub open spec fn spec_contains(self, other: MoveFlags) -> bool {
        self.spec_bits() & other.spec_bits() == other.spec_bits()
    }

    pub fn contains(self, other: MoveFlags) -> (result: bool)
        ensures
            result == self.spec_contains(other),
    {
        self.0 & other.0 == other.0
    }

    pub fn union(self, other: MoveFlags) -> (flags: MoveFlags)
        ensures
            flags.spec_bits() == self.spec_bits() | other.spec_bits(),
            flags.is_valid(),
    {
        proof {
            use_type_invariant(&self);
            use_type_invariant(&other);
        }
        let a = self.0;
        let b = other.0;
        assert((a & 7u8 == a && b & 7u8 == b) ==> (a | b) & 7u8 == (a | b)) by (bit_vector);
        MoveFlags(a | b)
    }
}

impl Default for MoveFlags {
    fn default() -> (flags: MoveFlags)
        ensures
            flags.spec_bits() == 0,
            flags.is_valid(),
    {
        assert(0u8 & 7u8 == 0u8) by (bit_vector);
        MoveFlags(0)
    }
}

/// A move, encoded as a `u16` when persisted.
#[derive(Clone, Copy, PartialEq, Eq, Hash, Debug, Structural)]
pub struct Move {
    /// Origin square, 0..32.
    pub from: u8,
    /// Destination square, 0..32; for a multi-jump the final landing square.
    pub to: u8,
    pub flags: MoveFlags,
}

/// The persisted `u16` layout (version 1): `from` in bits 0-4, `to` in bits
/// 5-9, flags in bits 10-12.
pub open spec fn packed_move(mv: Move) -> u16 {
    (mv.from as u16) | ((mv.to as u16) << 5u16) | (((mv.flags.spec_bits() & 7u8) as u16) << 10u16)
}

/// The move a persisted `u16` denotes.
pub open spec fn unpacked_move(packed: u16) -> Move {
    Move {
        from: (packed & 0x1Fu16) as u8,
        to: ((packed >> 5u16) & 0x1Fu16) as u8,
        flags: MoveFlags::of_bits(((packed >> 10u16) & 0x07u16) as u8),
    }
}

/// Both squares are on the board.
pub open spec fn move_in_range(mv: Move) -> bool {
    mv.from < SQUARES && mv.to < SQUARES
}

impl Move {
    /// Pack into the persisted `u16`.
    ///
    /// A square outside `0..32` is a defect at the call site that built this
    /// move (masking it would silently persist a different square), so such
    /// moves are outside this function's domain.
    pub fn to_u16(self) -> (packed: u16)
        requires
            move_in_range(self),
        ensures
            packed == packed_move(self),
            self.flags.is_valid(),
            unpacked_move(packed) == self,
    {
        let flags = self.flags;
        proof {
            use_type_invariant(&flags);
            law_packed_move_round_trip(self);
        }
        (self.from as u16) | ((self.to as u16) << 5) | (((self.flags.bits() & 0x07) as u16) << 10)
    }

    /// Unpack a persisted move (version 1 of the encoding).
    pub fn from_u16(packed: u16) -> (mv: Move)
        ensures
            mv == unpacked_move(packed),
            move_in_range(mv),
            mv.flags.is_valid(),
    {
        let from = (packed & 0x1F) as u8;
        let to = ((packed >> 5) & 0x1F) as u8;
        let bits = ((packed >> 10) & 0x07) as u8;
        assert(from < 32 && to < 32 && bits & 7u8 == bits) by (bit_vector)
            requires
                from == (packed & 0x1Fu16) as u8,
                to == ((packed >> 5u16) & 0x1Fu16) as u8,
                bits == ((packed >> 10u16) & 0x07u16) as u8,
        ;
        Move { from, to, flags: MoveFlags(bits) }
    }

    pub open spec fn spec_is_capture(self) -> bool {
        self.flags.spec_bits() & 1u8 == 1u8
    }

    pub fn is_capture(self) -> (capture: bool)
        ensures
            capture == self.spec_is_capture(),
    {
        self.flags.contains(MoveFlags::capture())
    }
}

/// Packing a move with in-range squares and known flags, then unpacking it,
/// gives the same move back. Every `MoveFlags` value a program holds has only
/// known flags (its type invariant), so `Move::to_u16` states this round trip
/// with no premise on the flags.
pub proof fn law_packed_move_round_trip(mv: Move)
    requires
        move_in_range(mv),
        mv.flags.is_valid(),
    ensures
        unpacked_move(packed_move(mv)) == mv,
{
    let from = mv.from;
    let to = mv.to;
    let bits = mv.flags.spec_bits();
    let packed = packed_move(mv);
    mv.flags.lemma_bits(((packed >> 10u16) & 0x07u16) as u8);
    assert(((packed & 0x1Fu16) as u8) == from && (((packed >> 5u16) & 0x1Fu16) as u8) == to && (((
    packed >> 10u16) & 0x07u16) as u8) == bits) by (bit_vector)
        requires
            from < 32,
            to < 32,
            bits & 7u8 == bits,
            packed == (from as u16) | ((to as u16) << 5u16) | (((bits & 7u8) as u16) << 10u16),
    ;
}

/// The side that wins when `loser` cannot move.
pub fn winner_when_stuck(loser: Side) -> (winner: Side)
    ensures
        winner == loser.spec_opponent(),
{
    loser.opponent()
}

} // verus!
