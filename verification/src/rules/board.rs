//! Board representation: 8x8 English draughts on 32 playable squares.

use vstd::prelude::*;

use super::moves::Move;
use super::zobrist::{self, position_hash, Zobrist};

verus! {

/// Playable dark squares: 32 of them, numbered 0 to 31 from Black's back rank.
pub const SQUARES: u32 = 32;

#[derive(Clone, Copy, PartialEq, Eq, Hash, Debug, Structural)]
pub enum Side {
    Black,
    White,
}

impl Side {
    pub open spec fn spec_opponent(self) -> Side {
        match self {
            Side::Black => Side::White,
            Side::White => Side::Black,
        }
    }

    pub fn opponent(self) -> (other: Side)
        ensures
            other == self.spec_opponent(),
            other != self,
    {
        match self {
            Side::Black => Side::White,
            Side::White => Side::Black,
        }
    }

    /// The `side_to_move` encoding persisted in `positions`: Black 0, White 1.
    pub fn as_i64(self) -> (code: i64)
        ensures
            code == (match self {
                Side::Black => 0i64,
                Side::White => 1i64,
            }),
    {
        match self {
            Side::Black => 0,
            Side::White => 1,
        }
    }
}

#[derive(Clone, Copy, PartialEq, Eq, Debug, Structural)]
pub enum GameResult {
    BlackWin,
    WhiteWin,
    Draw,
}

impl GameResult {
    /// The `games.result` encoding: 1 black, 2 white, 3 draw.
    pub fn as_i64(self) -> (code: i64)
        ensures
            code == (match self {
                GameResult::BlackWin => 1i64,
                GameResult::WhiteWin => 2i64,
                GameResult::Draw => 3i64,
            }),
    {
        match self {
            GameResult::BlackWin => 1,
            GameResult::WhiteWin => 2,
            GameResult::Draw => 3,
        }
    }
}

#[derive(Clone, Copy, PartialEq, Eq, Debug, Structural)]
pub enum GameStatus {
    Ongoing,
    Finished(GameResult),
}

/// Whether square `square` is set in the bitboard `bits`.
pub open spec fn has_bit(bits: u32, square: int) -> bool {
    (bits >> (square as u32)) & 1u32 == 1u32
}

/// The number of set bits among the lowest `n` squares of `bits`.
pub open spec fn popcount_below(bits: u32, n: nat) -> nat
    decreases n,
{
    if n == 0 {
        0
    } else {
        popcount_below(bits, (n - 1) as nat) + if has_bit(bits, n - 1) {
            1nat
        } else {
            0nat
        }
    }
}

/// The number of pieces on a 32-square bitboard.
pub open spec fn popcount(bits: u32) -> nat {
    popcount_below(bits, 32)
}

pub proof fn lemma_popcount_below_bounded(bits: u32, n: nat)
    ensures
        popcount_below(bits, n) <= n,
    decreases n,
{
    if n > 0 {
        lemma_popcount_below_bounded(bits, (n - 1) as nat);
    }
}

/// Count the set bits of a bitboard.
pub fn count_ones(bits: u32) -> (count: u32)
    ensures
        count == popcount(bits),
        count <= 32,
{
    let mut count: u32 = 0;
    let mut square: u32 = 0;
    while square < 32
        invariant
            square <= 32,
            count == popcount_below(bits, square as nat),
            count <= square,
        decreases 32 - square,
    {
        if (bits >> square) & 1 == 1 {
            count = count + 1;
        }
        square = square + 1;
    }
    count
}

/// Four bitboards over the 32 playable squares.
///
/// Persisted as exactly 16 bytes, little-endian, in this field order.
#[derive(Clone, Copy, PartialEq, Eq, Hash, Debug, Default, Structural)]
pub struct Board {
    pub black_men: u32,
    pub white_men: u32,
    pub black_kings: u32,
    pub white_kings: u32,
}

/// The four little-endian bytes of a word.
pub open spec fn le_bytes(word: u32) -> Seq<u8> {
    seq![
        (word & 0xff) as u8,
        ((word >> 8u32) & 0xff) as u8,
        ((word >> 16u32) & 0xff) as u8,
        ((word >> 24u32) & 0xff) as u8,
    ]
}

/// The word whose little-endian bytes start at `at` in `bytes`.
pub open spec fn le_word(bytes: Seq<u8>, at: int) -> u32 {
    (bytes[at] as u32) | ((bytes[at + 1] as u32) << 8u32) | ((bytes[at + 2] as u32) << 16u32) | ((
    bytes[at + 3] as u32) << 24u32)
}

/// The 16-byte persisted encoding of a board.
pub open spec fn board_bytes(board: Board) -> Seq<u8> {
    le_bytes(board.black_men) + le_bytes(board.white_men) + le_bytes(board.black_kings)
        + le_bytes(board.white_kings)
}

/// The board a 16-byte version-1 encoding denotes.
pub open spec fn board_of_bytes(bytes: Seq<u8>) -> Board {
    Board {
        black_men: le_word(bytes, 0),
        white_men: le_word(bytes, 4),
        black_kings: le_word(bytes, 8),
        white_kings: le_word(bytes, 12),
    }
}

pub proof fn lemma_le_word_of_le_bytes(word: u32)
    ensures
        le_word(le_bytes(word), 0) == word,
{
    let b = le_bytes(word);
    let b0 = (word & 0xff) as u8;
    let b1 = ((word >> 8u32) & 0xff) as u8;
    let b2 = ((word >> 16u32) & 0xff) as u8;
    let b3 = ((word >> 24u32) & 0xff) as u8;
    assert(b[0] == b0 && b[1] == b1 && b[2] == b2 && b[3] == b3);
    assert((b0 as u32) | ((b1 as u32) << 8u32) | ((b2 as u32) << 16u32) | ((b3 as u32) << 24u32)
        == word) by (bit_vector)
        requires
            b0 == (word & 0xff) as u8,
            b1 == ((word >> 8u32) & 0xff) as u8,
            b2 == ((word >> 16u32) & 0xff) as u8,
            b3 == ((word >> 24u32) & 0xff) as u8,
    ;
}

/// Decoding the encoding of a board gives the board back.
pub proof fn lemma_board_bytes_round_trip(board: Board)
    ensures
        board_bytes(board).len() == 16,
        board_of_bytes(board_bytes(board)) == board,
{
    let bytes = board_bytes(board);
    lemma_le_word_of_le_bytes(board.black_men);
    lemma_le_word_of_le_bytes(board.white_men);
    lemma_le_word_of_le_bytes(board.black_kings);
    lemma_le_word_of_le_bytes(board.white_kings);
    assert(bytes.subrange(0, 4) =~= le_bytes(board.black_men));
    assert(bytes.subrange(4, 8) =~= le_bytes(board.white_men));
    assert(bytes.subrange(8, 12) =~= le_bytes(board.black_kings));
    assert(bytes.subrange(12, 16) =~= le_bytes(board.white_kings));
    assert(le_word(bytes, 4) == le_word(le_bytes(board.white_men), 0));
    assert(le_word(bytes, 8) == le_word(le_bytes(board.black_kings), 0));
    assert(le_word(bytes, 12) == le_word(le_bytes(board.white_kings), 0));
}

/// Men count 1, kings count 2.
pub open spec fn material_score(men: u32, kings: u32) -> int {
    popcount(men) as int + 2 * popcount(kings) as int
}

impl Board {
    /// The standard opening position: twelve men a side on the first three rows.
    pub fn initial() -> (board: Board)
        ensures
            board.black_men == 0x0000_0FFFu32,
            board.white_men == 0xFFF0_0000u32,
            board.black_kings == 0,
            board.white_kings == 0,
    {
        Board { black_men: 0x0000_0FFF, white_men: 0xFFF0_0000, black_kings: 0, white_kings: 0 }
    }

    pub fn occupied(&self) -> (bits: u32)
        ensures
            bits == self.black_men | self.white_men | self.black_kings | self.white_kings,
    {
        self.black_men | self.white_men | self.black_kings | self.white_kings
    }

    pub open spec fn spec_pieces_of(self, side: Side) -> u32 {
        match side {
            Side::Black => self.black_men | self.black_kings,
            Side::White => self.white_men | self.white_kings,
        }
    }

    pub fn pieces_of(&self, side: Side) -> (bits: u32)
        ensures
            bits == self.spec_pieces_of(side),
    {
        match side {
            Side::Black => self.black_men | self.black_kings,
            Side::White => self.white_men | self.white_kings,
        }
    }

    pub open spec fn spec_material_difference(self, perspective: Side) -> int {
        let black = material_score(self.black_men, self.black_kings);
        let white = material_score(self.white_men, self.white_kings);
        match perspective {
            Side::Black => black - white,
            Side::White => white - black,
        }
    }

    /// Men count 1, kings count 2: the material balance from `perspective`.
    pub fn material_difference(&self, perspective: Side) -> (difference: i32)
        ensures
            difference == self.spec_material_difference(perspective),
    {
        let black = count_ones(self.black_men) as i32 + 2 * count_ones(self.black_kings) as i32;
        let white = count_ones(self.white_men) as i32 + 2 * count_ones(self.white_kings) as i32;
        match perspective {
            Side::Black => black - white,
            Side::White => white - black,
        }
    }

    /// The 16-byte `positions.board` / `games.final_board` encoding.
    pub fn to_bytes(&self) -> (out: [u8; 16])
        ensures
            out@ == board_bytes(*self),
    {
        let mut out = [0u8; 16];
        let words = [self.black_men, self.white_men, self.black_kings, self.white_kings];
        let mut w: usize = 0;
        while w < 4
            invariant
                w <= 4,
                out@.len() == 16,
                words@ == seq![self.black_men, self.white_men, self.black_kings, self.white_kings],
                forall|k: int| 0 <= k < 4 * w ==> out@[k] == #[trigger] board_bytes(*self)[k],
            decreases 4 - w,
        {
            let word = words[w];
            out[4 * w] = (word & 0xff) as u8;
            out[4 * w + 1] = ((word >> 8) & 0xff) as u8;
            out[4 * w + 2] = ((word >> 16) & 0xff) as u8;
            out[4 * w + 3] = ((word >> 24) & 0xff) as u8;
            proof {
                let bb = board_bytes(*self);
                assert(bb.subrange(4 * w as int, 4 * w as int + 4) =~= le_bytes(word)) by {
                    assert(bb =~= le_bytes(self.black_men) + le_bytes(self.white_men) + le_bytes(
                        self.black_kings,
                    ) + le_bytes(self.white_kings));
                }
                assert forall|k: int| 0 <= k < 4 * (w + 1) implies out@[k]
                    == #[trigger] board_bytes(*self)[k] by {
                    if k >= 4 * w {
                        assert(board_bytes(*self)[k] == bb.subrange(
                            4 * w as int,
                            4 * w as int + 4,
                        )[k - 4 * w]);
                    }
                }
            }
            w = w + 1;
        }
        assert(out@ =~= board_bytes(*self));
        out
    }

    /// Decode a persisted board; `None` for any `format_version` other than
    /// the current one, which is the only version this decoder knows.
    pub fn from_bytes(bytes: &[u8; 16], format_version: u32) -> (board: Option<Board>)
        ensures
            format_version != crate::CURRENT_FORMAT_VERSION ==> board is None,
            format_version == crate::CURRENT_FORMAT_VERSION ==> board == Some(
                board_of_bytes(bytes@),
            ),
    {
        if format_version != crate::CURRENT_FORMAT_VERSION {
            return None;
        }
        Some(
            Board {
                black_men: word_at(bytes, 0),
                white_men: word_at(bytes, 4),
                black_kings: word_at(bytes, 8),
                white_kings: word_at(bytes, 12),
            },
        )
    }
}

fn word_at(bytes: &[u8; 16], at: usize) -> (word: u32)
    requires
        at + 4 <= 16,
    ensures
        word == le_word(bytes@, at as int),
{
    (bytes[at] as u32) | ((bytes[at + 1] as u32) << 8) | ((bytes[at + 2] as u32) << 16) | ((
    bytes[at + 3] as u32) << 24)
}

/// A game in progress.
#[derive(Clone, PartialEq, Eq, Debug)]
pub struct GameState {
    pub board: Board,
    pub side_to_move: Side,
    pub status: GameStatus,
    pub ply: u32,
    /// Incrementally maintained across `apply_move`; never recomputed per node.
    pub hash: Zobrist,
    pub history: Vec<Move>,
}

impl GameState {
    /// The opening position, Black to move, with its full Zobrist hash.
    pub fn new() -> (state: GameState)
        ensures
            state.board == (Board {
                black_men: 0x0000_0FFFu32,
                white_men: 0xFFF0_0000u32,
                black_kings: 0,
                white_kings: 0,
            }),
            state.side_to_move == Side::Black,
            state.status == GameStatus::Ongoing,
            state.ply == 0,
            state.hash == position_hash(state.board, state.side_to_move),
            state.history@.len() == 0,
    {
        let board = Board::initial();
        let side_to_move = Side::Black;
        GameState {
            hash: zobrist::of_position(&board, side_to_move),
            board,
            side_to_move,
            status: GameStatus::Ongoing,
            ply: 0,
            history: Vec::new(),
        }
    }

    pub fn is_terminal(&self) -> (terminal: bool)
        ensures
            terminal == (self.status is Finished),
    {
        match self.status {
            GameStatus::Finished(_) => true,
            GameStatus::Ongoing => false,
        }
    }
}

impl Default for GameState {
    fn default() -> (state: GameState)
        ensures
            state.side_to_move == Side::Black,
            state.status == GameStatus::Ongoing,
            state.ply == 0,
            state.hash == position_hash(state.board, state.side_to_move),
    {
        GameState::new()
    }
}

/// Encoding a board and decoding it at the current format version gives the
/// same board back.
pub proof fn law_board_blob_round_trip(board: Board)
    ensures
        board_bytes(board).len() == 16,
        board_of_bytes(board_bytes(board)) == board,
{
    lemma_board_bytes_round_trip(board);
}

} // verus!
