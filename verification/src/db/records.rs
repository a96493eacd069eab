//! The record types that cross the writer channel.
//!
//! Every BLOB-bearing record carries its `format_version` explicitly, and
//! every decoder takes the version as a parameter, so that a caller cannot
//! decode without having looked at it. Scores are `f32` bit patterns.

use vstd::prelude::*;

use crate::db::DbError;
use crate::rules::board::{Board, GameResult, Side};
use crate::rules::moves::{move_in_range, packed_move, unpacked_move, Move};

verus! {

/// `games.mode`.
#[derive(Clone, Copy, PartialEq, Eq, Debug, Structural)]
pub enum GameMode {
    HumanCpu,
    CpuCpu,
}

impl GameMode {
    pub fn as_str(self) -> (text: &'static str)
        ensures
            self is HumanCpu ==> text@ == "human_cpu"@,
            self is CpuCpu ==> text@ == "cpu_cpu"@,
    {
        match self {
            GameMode::HumanCpu => "human_cpu",
            GameMode::CpuCpu => "cpu_cpu",
        }
    }
}

/// `lab_batches.status`.
#[derive(Clone, Copy, PartialEq, Eq, Debug, Structural)]
pub enum BatchStatus {
    Queued,
    Running,
    Cancelling,
    Completed,
    Cancelled,
    Failed,
    Interrupted,
}

impl BatchStatus {
    pub fn as_str(self) -> (text: &'static str)
        ensures
            self is Queued ==> text@ == "queued"@,
            self is Running ==> text@ == "running"@,
            self is Cancelling ==> text@ == "cancelling"@,
            self is Completed ==> text@ == "completed"@,
            self is Cancelled ==> text@ == "cancelled"@,
            self is Failed ==> text@ == "failed"@,
            self is Interrupted ==> text@ == "interrupted"@,
    {
        match self {
            BatchStatus::Queued => "queued",
            BatchStatus::Running => "running",
            BatchStatus::Cancelling => "cancelling",
            BatchStatus::Completed => "completed",
            BatchStatus::Cancelled => "cancelled",
            BatchStatus::Failed => "failed",
            BatchStatus::Interrupted => "interrupted",
        }
    }

    /// Only a queued or running batch accepts a cancel request.
    pub fn is_cancellable(self) -> (cancellable: bool)
        ensures
            cancellable == (self is Queued || self is Running),
    {
        match self {
            BatchStatus::Queued | BatchStatus::Running => true,
            _ => false,
        }
    }

    pub fn is_terminal(self) -> (terminal: bool)
        ensures
            terminal == (self is Completed || self is Cancelled || self is Failed
                || self is Interrupted),
    {
        match self {
            BatchStatus::Completed | BatchStatus::Cancelled | BatchStatus::Failed
            | BatchStatus::Interrupted => true,
            _ => false,
        }
    }
}

/// `positions.sample_kind`.
#[derive(Clone, Copy, PartialEq, Eq, Debug, Structural)]
pub enum SampleKind {
    Mcts,
    Terminal,
    /// Sampled from a human match, and therefore belonging to no batch.
    HumanGame,
}

impl SampleKind {
    pub fn as_i64(self) -> (code: i64)
        ensures
            code == (match self {
                SampleKind::Mcts => 0i64,
                SampleKind::Terminal => 1i64,
                SampleKind::HumanGame => 2i64,
            }),
    {
        match self {
            SampleKind::Mcts => 0,
            SampleKind::Terminal => 1,
            SampleKind::HumanGame => 2,
        }
    }
}

#[derive(Clone, Debug)]
pub struct GameRecord {
    /// Pre-assigned from an id lease.
    pub id: i64,
    pub format_version: u32,
    pub batch_id: Option<i64>,
    pub mode: GameMode,
    pub seed: i64,
    pub result: Option<GameResult>,
    pub winner_side: Option<Side>,
    pub ply_count: u32,
    pub moves: Vec<Move>,
    pub final_board: Option<Board>,
    pub elapsed_ms: Option<i64>,
}

/// The two little-endian bytes of a packed move.
pub open spec fn u16_le(value: u16) -> Seq<u8> {
    seq![(value & 0xffu16) as u8, ((value >> 8u16) & 0xffu16) as u8]
}

/// The `games.moves` BLOB of a move list: packed little-endian `u16`, one per
/// move.
pub open spec fn moves_blob(moves: Seq<Move>) -> Seq<u8>
    decreases moves.len(),
{
    if moves.len() == 0 {
        Seq::empty()
    } else {
        moves_blob(moves.drop_last()) + u16_le(packed_move(moves.last()))
    }
}

/// The moves a version-1 BLOB of even length denotes: one per pair of bytes.
pub open spec fn blob_moves(blob: Seq<u8>) -> Seq<Move> {
    Seq::new(
        blob.len() / 2,
        |i: int|
            unpacked_move(((blob[2 * i] as u16) | ((blob[2 * i + 1] as u16) << 8u16)) as u16),
    )
}

proof fn lemma_moves_blob_len(moves: Seq<Move>)
    ensures
        moves_blob(moves).len() == 2 * moves.len(),
    decreases moves.len(),
{
    if moves.len() > 0 {
        lemma_moves_blob_len(moves.drop_last());
    }
}

proof fn lemma_moves_blob_index(moves: Seq<Move>, i: int)
    requires
        0 <= i < moves.len(),
    ensures
        moves_blob(moves)[2 * i] == (packed_move(moves[i]) & 0xffu16) as u8,
        moves_blob(moves)[2 * i + 1] == ((packed_move(moves[i]) >> 8u16) & 0xffu16) as u8,
    decreases moves.len(),
{
    lemma_moves_blob_len(moves.drop_last());
    if i < moves.len() - 1 {
        lemma_moves_blob_index(moves.drop_last(), i);
    }
}

impl GameRecord {
    /// The `games.moves` BLOB. Every move must be on the board: encoding an
    /// out-of-range square would persist a different square.
    pub fn encode_moves(&self) -> (blob: Vec<u8>)
        requires
            forall|i: int| 0 <= i < self.moves@.len() ==> move_in_range(#[trigger] self.moves@[i]),
        ensures
            blob@ == moves_blob(self.moves@),
            blob@.len() == 2 * self.moves@.len(),
            blob_moves(blob@) == self.moves@,
    {
        let mut out: Vec<u8> = Vec::new();
        let mut i: usize = 0;
        while i < self.moves.len()
            invariant
                i <= self.moves@.len(),
                forall|j: int| 0 <= j < self.moves@.len() ==> move_in_range(#[trigger] self.moves@[j]),
                out@ == moves_blob(self.moves@.take(i as int)),
                forall|j: int| 0 <= j < i ==> (#[trigger] self.moves@[j]).flags.is_valid(),
            decreases self.moves@.len() - i,
        {
            let packed = self.moves[i].to_u16();
            out.push((packed & 0xff) as u8);
            out.push(((packed >> 8) & 0xff) as u8);
            assert(self.moves@.take(i + 1).drop_last() =~= self.moves@.take(i as int));
            assert(out@ =~= moves_blob(self.moves@.take(i + 1)));
            i = i + 1;
        }
        assert(self.moves@.take(i as int) =~= self.moves@);
        proof {
            law_moves_blob_round_trip(self.moves@);
        }
        out
    }

    /// Decode a `games.moves` BLOB at the given `format_version`; any version
    /// other than the current one is refused rather than guessed at, and a
    /// BLOB whose length is not a whole number of packed moves is refused as
    /// corrupt rather than silently shortened.
    pub fn decode_moves(blob: &[u8], format_version: u32) -> (decoded: Result<Vec<Move>, DbError>)
        ensures
            format_version != crate::CURRENT_FORMAT_VERSION ==> (decoded matches Err(
                DbError::UnsupportedFormatVersion { found },
            ) && found == format_version),
            (format_version == crate::CURRENT_FORMAT_VERSION && blob@.len() % 2 == 1) ==> (
            decoded matches Err(DbError::CorruptEncoding(what)) && what@
                == "games.moves BLOB of odd length"@),
            (format_version == crate::CURRENT_FORMAT_VERSION && blob@.len() % 2 == 0) ==> (
            decoded matches Ok(moves) && moves@ == blob_moves(blob@)),
    {
        if format_version != crate::CURRENT_FORMAT_VERSION {
            return Err(DbError::UnsupportedFormatVersion { found: format_version });
        }
        if blob.len() % 2 == 1 {
            return Err(DbError::CorruptEncoding("games.moves BLOB of odd length".to_owned()));
        }
        let n = blob.len();
        let pairs = n / 2;
        let mut out: Vec<Move> = Vec::new();
        let mut i: usize = 0;
        while i < pairs
            invariant
                n == blob@.len(),
                pairs == blob@.len() / 2,
                i <= pairs,
                out@.len() == i,
                forall|j: int| 0 <= j < i ==> #[trigger] out@[j] == blob_moves(blob@)[j],
            decreases pairs - i,
        {
            assert(2 * i + 1 < n) by (nonlinear_arith)
                requires
                    i < pairs,
                    pairs == n / 2,
            ;
            let packed = (blob[2 * i] as u16) | ((blob[2 * i + 1] as u16) << 8);
            out.push(Move::from_u16(packed));
            i = i + 1;
        }
        assert(out@ =~= blob_moves(blob@));
        Ok(out)
    }
}

/// Encoding a move list and decoding it at the current format version gives
/// the same moves back, for moves on the board with known flags (which every
/// held `MoveFlags` has, so `encode_moves` states this with no such premise).
pub proof fn law_moves_blob_round_trip(moves: Seq<Move>)
    requires
        forall|i: int| 0 <= i < moves.len() ==> move_in_range(#[trigger] moves[i]),
        forall|i: int| 0 <= i < moves.len() ==> (#[trigger] moves[i]).flags.is_valid(),
    ensures
        moves_blob(moves).len() == 2 * moves.len(),
        blob_moves(moves_blob(moves)) == moves,
{
    lemma_moves_blob_len(moves);
    let blob = moves_blob(moves);
    assert forall|i: int| 0 <= i < moves.len() implies #[trigger] blob_moves(blob)[i]
        == moves[i] by {
        lemma_moves_blob_index(moves, i);
        let p = packed_move(moves[i]);
        let lo = (p & 0xffu16) as u8;
        let hi = ((p >> 8u16) & 0xffu16) as u8;
        assert(((lo as u16) | ((hi as u16) << 8u16)) == p) by (bit_vector)
            requires
                lo == (p & 0xffu16) as u8,
                hi == ((p >> 8u16) & 0xffu16) as u8,
        ;
        crate::rules::moves::law_packed_move_round_trip(moves[i]);
    }
    assert(blob_moves(blob) =~= moves);
}

#[derive(Clone, Debug)]
pub struct PositionRecord {
    pub id: i64,
    pub format_version: u32,
    pub batch_id: Option<i64>,
    pub game_id: i64,
    pub ply: u32,
    pub side_to_move: Side,
    pub board: Board,
    /// Zobrist, comparable across rows only when `format_version` matches.
    pub board_hash: i64,
    pub terminal: bool,
    /// From the perspective of `side_to_move`: 1 win, 0 draw, -1 loss.
    pub outcome: i8,
    pub root_visits: u32,
    /// Bit pattern of the `f32` root value.
    pub root_q: u32,
    pub sample_kind: SampleKind,
}

#[derive(Clone, Copy, Debug)]
pub struct EdgeRecord {
    pub position_id: i64,
    pub mv: Move,
    pub visits: u32,
    pub wins: u32,
    pub draws: u32,
    pub losses: u32,
    /// Bit pattern of the `f32` edge value.
    pub q_value: u32,
    /// Bit pattern of the `f32` prior; `None` for uniform-prior search.
    pub prior: Option<u32>,
}

#[derive(Clone, Debug)]
pub struct FaceEventRecord {
    pub match_id: Option<String>,
    pub game_id: Option<i64>,
    pub event_type: String,
    /// `candle` or `canned`.
    pub provider: &'static str,
    pub fallback_used: bool,
    pub fallback_reason: Option<&'static str>,
    pub circuit_state: i64,
    pub latency_ms: Option<i64>,
    pub token_count: Option<i64>,
}

} // verus!
