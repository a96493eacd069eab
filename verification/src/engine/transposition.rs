//! The global transposition table.
//!
//! One table, shared across every worker thread. The governing requirement:
//! the table may change how long a search takes and must never change what it
//! returns. Hence the full-board verification on every hit, the evaluator
//! scoping, and the refusal to serve an impure evaluator's sample mean in
//! deterministic mode.
//!
//! Values are carried as the bit patterns of `f32` scores; the table never
//! inspects them.

use vstd::prelude::*;

use std::sync::atomic::{AtomicU64, Ordering};
use std::sync::Arc;

use dashmap::DashMap;

use crate::config::validate::is_power_of_two;
use crate::config::TtMode;
use crate::engine::evaluator::EvaluatorIdentity;
use crate::rules::board::{Board, GameState, Side};
use crate::rules::moves::{move_in_range, packed_move, unpacked_move, Move};
use crate::rules::Zobrist;

verus! {

/// Inline move list capacity. A position with more legal moves caches its
/// value and not its move list.
pub const MAX_INLINE_MOVES: usize = 12;

#[derive(Clone, Copy, PartialEq, Eq, Hash, Debug, Structural)]
pub struct TtKey(pub Zobrist);

#[derive(Clone, Copy, PartialEq, Eq, Debug, Structural)]
pub enum TtKind {
    /// Proven terminal score. Never expires, never averaged.
    Terminal,
    /// Position-pure evaluator output. Safe in every mode.
    Exact,
    /// Aggregated sample mean from an impure evaluator. Readable only in
    /// throughput mode.
    Estimate,
}

/// A fixed-capacity move list, stored inline in an entry as packed moves.
#[derive(Clone, Copy, Debug)]
pub struct SmallMoveList {
    moves: [u16; 12],
    len: u8,
}

impl SmallMoveList {
    #[verifier::type_invariant]
    spec fn fits(self) -> bool {
        self.len <= MAX_INLINE_MOVES
    }

    /// The packed moves held, in order.
    pub closed spec fn packed(self) -> Seq<u16> {
        self.moves@.take(self.len as int)
    }

    /// An empty list.
    pub fn empty() -> (list: SmallMoveList)
        ensures
            list.packed().len() == 0,
    {
        SmallMoveList { moves: [0u16; 12], len: 0 }
    }

    /// `None` when the list does not fit: a truncated move list would be an
    /// illegal-move generator, so the caller caches a value without a list.
    pub fn from_moves(moves: &[Move]) -> (list: Option<SmallMoveList>)
        requires
            forall|i: int| 0 <= i < moves@.len() ==> move_in_range(#[trigger] moves@[i]),
        ensures
            moves@.len() > MAX_INLINE_MOVES <==> list is None,
            list matches Some(l) ==> l.packed() == moves@.map_values(|mv: Move| packed_move(mv)),
            list matches Some(l) ==> l.packed().map_values(|p: u16| unpacked_move(p)) == moves@,
    {
        if moves.len() > MAX_INLINE_MOVES {
            return None;
        }
        let mut packed = [0u16; 12];
        let mut i: usize = 0;
        while i < moves.len()
            invariant
                moves@.len() <= MAX_INLINE_MOVES,
                i <= moves@.len(),
                packed@.len() == 12,
                forall|j: int| 0 <= j < moves@.len() ==> move_in_range(#[trigger] moves@[j]),
                forall|j: int| 0 <= j < i ==> packed@[j] == packed_move(#[trigger] moves@[j]),
                forall|j: int| 0 <= j < i ==> (#[trigger] moves@[j]).flags.is_valid(),
            decreases moves@.len() - i,
        {
            packed[i] = moves[i].to_u16();
            i = i + 1;
        }
        let list = SmallMoveList { moves: packed, len: moves.len() as u8 };
        assert(list.packed() =~= moves@.map_values(|mv: Move| packed_move(mv)));
        proof {
            law_inline_move_list_round_trip(moves@, list);
        }
        Some(list)
    }

    /// Unpack the held moves, in order.
    pub fn to_moves(self) -> (moves: Vec<Move>)
        ensures
            moves@ == self.packed().map_values(|p: u16| unpacked_move(p)),
    {
        proof {
            use_type_invariant(&self);
        }
        let mut out: Vec<Move> = Vec::new();
        let n = self.len as usize;
        let mut i: usize = 0;
        while i < n
            invariant
                n == self.len,
                n <= 12,
                self.moves@.len() == 12,
                i <= n,
                out@.len() == i,
                forall|j: int| 0 <= j < i ==> #[trigger] out@[j] == unpacked_move(self.moves@[j]),
            decreases n - i,
        {
            out.push(Move::from_u16(self.moves[i]));
            i = i + 1;
        }
        assert(out@ =~= self.packed().map_values(|p: u16| unpacked_move(p)));
        out
    }

    pub fn len(&self) -> (len: usize)
        ensures
            len == self.packed().len(),
    {
        proof {
            use_type_invariant(self);
        }
        self.len as usize
    }

    pub fn is_empty(&self) -> (empty: bool)
        ensures
            empty == (self.packed().len() == 0),
    {
        proof {
            use_type_invariant(self);
        }
        self.len == 0
    }
}

impl Default for SmallMoveList {
    fn default() -> (list: SmallMoveList)
        ensures
            list.packed().len() == 0,
    {
        SmallMoveList::empty()
    }
}

/// Storing a list of in-range moves with known flags and reading it back gives
/// the same moves (`from_moves` states this for every list it accepts, since
/// every held `MoveFlags` has only known flags).
pub proof fn law_inline_move_list_round_trip(moves: Seq<Move>, list: SmallMoveList)
    requires
        forall|i: int| 0 <= i < moves.len() ==> move_in_range(#[trigger] moves[i]),
        forall|i: int| 0 <= i < moves.len() ==> (#[trigger] moves[i]).flags.is_valid(),
        list.packed() == moves.map_values(|mv: Move| packed_move(mv)),
    ensures
        list.packed().map_values(|p: u16| unpacked_move(p)) == moves,
{
    let unpacked = list.packed().map_values(|p: u16| unpacked_move(p));
    assert forall|i: int| 0 <= i < moves.len() implies #[trigger] unpacked[i] == moves[i] by {
        crate::rules::moves::law_packed_move_round_trip(moves[i]);
    }
    assert(list.packed().map_values(|p: u16| unpacked_move(p)) =~= moves);
}

#[derive(Clone, Copy, Debug)]
pub struct TtEntry {
    /// The full board, stored so that a hit can be verified: a Zobrist
    /// collision must cost throughput, never correctness.
    pub board: Board,
    pub side_to_move: Side,
    /// Bit pattern of an `f32` in `[-1.0, 1.0]`, from `side_to_move`'s
    /// perspective.
    pub value: u32,
    /// Samples aggregated into `value`.
    pub samples: u32,
    pub moves: SmallMoveList,
    pub kind: TtKind,
    pub evaluator: EvaluatorIdentity,
    pub epoch: u16,
}

/// What a caller wants stored after a search visited a node.
#[derive(Clone, Copy, Debug)]
pub struct TtUpdate {
    /// Bit pattern of an `f32` score.
    pub value: u32,
    pub samples: u32,
    pub moves: SmallMoveList,
    pub kind: TtKind,
    pub evaluator: EvaluatorIdentity,
}

#[derive(Debug)]
pub enum Probe {
    Miss,
    /// Legal moves were cached; the value was not usable in this mode.
    Moves(SmallMoveList),
    /// Both the move list and a usable value were cached.
    Full {
        moves: SmallMoveList,
        /// Bit pattern of an `f32` score.
        value: u32,
        samples: u32,
        kind: TtKind,
    },
}

/// Hit/miss accounting. Diagnostics, not control flow.
#[derive(Debug, Default, Clone, Copy)]
pub struct TtStats {
    pub probes: u64,
    pub hits: u64,
    pub collisions: u64,
    pub stores: u64,
    pub evictions: u64,
}

#[verifier::external_type_specification]
#[verifier::external_body]
#[verifier::reject_recursive_types(K)]
#[verifier::reject_recursive_types(V)]
#[verifier::reject_recursive_types(S)]
pub struct ExDashMap<K, V, S>(DashMap<K, V, S>);

/// A map with no entries.
pub open spec fn no_entries() -> Map<u64, TtEntry> {
    Map::empty()
}

/// The entries a table map holds, by Zobrist key.
pub uninterp spec fn tt_contents(map: DashMap<u64, TtEntry>) -> Map<u64, TtEntry>;

/// `DashMap::with_capacity_and_shard_amount`: a new, empty map. The crate
/// asserts that the shard count is a power of two greater than one, so other
/// counts are outside this function's domain.
#[verifier::external_body]
fn new_map(capacity: usize, shards: usize) -> (created: DashMap<u64, TtEntry>)
    requires
        shards > 1,
        is_power_of_two(shards as nat),
    ensures
        tt_contents(created) == no_entries(),
{
    DashMap::with_capacity_and_shard_amount(capacity, shards)
}

/// `DashMap::get`, copying the entry out of the read guard: the entry under
/// `key`, if there is one.
#[verifier::external_body]
fn map_get(map: &DashMap<u64, TtEntry>, key: u64) -> (entry: Option<TtEntry>)
    ensures
        entry matches Some(e) ==> tt_contents(*map).contains_key(key) && tt_contents(*map)[key]
            == e,
        entry is None ==> !tt_contents(*map).contains_key(key),
{
    map.get(&key).map(|guard| *guard)
}

/// `DashMap::len`: the number of entries.
#[verifier::external_body]
fn map_len(map: &DashMap<u64, TtEntry>) -> (len: usize)
    ensures
        len == tt_contents(*map).len(),
{
    map.len()
}

/// `DashMap::is_empty`: whether there are no entries.
#[verifier::external_body]
fn map_is_empty(map: &DashMap<u64, TtEntry>) -> (empty: bool)
    ensures
        empty == (tt_contents(*map).len() == 0),
{
    map.is_empty()
}

/// What a probe answers for a table holding `contents`, with value
/// `capacity`, for `state` under evaluator `id` in `mode`.
pub open spec fn spec_probe(
    contents: Map<u64, TtEntry>,
    capacity: usize,
    state: GameState,
    id: EvaluatorIdentity,
    mode: TtMode,
) -> Probe {
    if capacity == 0 || !contents.contains_key(state.hash) {
        Probe::Miss
    } else {
        let entry = contents[state.hash];
        if entry.board != state.board || entry.side_to_move != state.side_to_move {
            Probe::Miss
        } else if entry.evaluator != id {
            Probe::Miss
        } else if entry.kind == TtKind::Terminal || entry.kind == TtKind::Exact || mode
            == TtMode::Throughput {
            Probe::Full {
                moves: entry.moves,
                value: entry.value,
                samples: entry.samples,
                kind: entry.kind,
            }
        } else {
            Probe::Moves(entry.moves)
        }
    }
}

pub struct TranspositionTable {
    map: DashMap<u64, TtEntry>,
    capacity: usize,
    epoch: AtomicU64,
    probes: AtomicU64,
    hits: AtomicU64,
    collisions: AtomicU64,
    stores: AtomicU64,
    evictions: AtomicU64,
}

impl TranspositionTable {
    /// Smallest shard count the map accepts.
    pub const MIN_SHARDS: usize = 2;

    pub closed spec fn contents(&self) -> Map<u64, TtEntry> {
        tt_contents(self.map)
    }

    pub closed spec fn spec_capacity(&self) -> usize {
        self.capacity
    }

    /// A table of `entries` capacity over `shards` shards. The shard count
    /// must be a power of two of at least two.
    pub fn with_capacity(entries: usize, shards: usize) -> (table: Arc<TranspositionTable>)
        requires
            shards >= 2,
            is_power_of_two(shards as nat),
        ensures
            table.contents() == Map::<u64, TtEntry>::empty(),
            table.spec_capacity() == entries,
    {
        Arc::new(
            TranspositionTable {
                map: new_map(entries, shards),
                capacity: entries,
                epoch: AtomicU64::new(0),
                probes: AtomicU64::new(0),
                hits: AtomicU64::new(0),
                collisions: AtomicU64::new(0),
                stores: AtomicU64::new(0),
                evictions: AtomicU64::new(0),
            },
        )
    }

    /// A table that never hits and never stores: the proof that the cache is
    /// an optimisation and not load-bearing for correctness.
    pub fn disabled() -> (table: Arc<TranspositionTable>)
        ensures
            table.contents() == Map::<u64, TtEntry>::empty(),
            table.spec_capacity() == 0,
    {
        assert(is_power_of_two(2)) by {
            reveal_with_fuel(is_power_of_two, 2);
        }
        TranspositionTable::with_capacity(0, 2)
    }

    pub fn is_disabled(&self) -> (disabled: bool)
        ensures
            disabled == (self.spec_capacity() == 0),
    {
        self.capacity == 0
    }

    pub fn capacity(&self) -> (capacity: usize)
        ensures
            capacity == self.spec_capacity(),
    {
        self.capacity
    }

    pub fn len(&self) -> (len: usize)
        ensures
            len == self.contents().len(),
    {
        map_len(&self.map)
    }

    pub fn is_empty(&self) -> (empty: bool)
        ensures
            empty == (self.contents().len() == 0),
    {
        map_is_empty(&self.map)
    }

    /// Counter snapshot. A disabled table is not a hot path: nothing ever
    /// counts on it, so its counters read zero. Otherwise the counters are
    /// relaxed diagnostics, updated concurrently, and nothing is claimed about
    /// their values.
    pub fn stats(&self) -> (stats: TtStats)
        ensures
            self.spec_capacity() == 0 ==> stats == (TtStats {
                probes: 0,
                hits: 0,
                collisions: 0,
                stores: 0,
                evictions: 0,
            }),
    {
        if self.capacity == 0 {
            return TtStats { probes: 0, hits: 0, collisions: 0, stores: 0, evictions: 0 };
        }
        TtStats {
            probes: self.probes.load(Ordering::Relaxed),
            hits: self.hits.load(Ordering::Relaxed),
            collisions: self.collisions.load(Ordering::Relaxed),
            stores: self.stores.load(Ordering::Relaxed),
            evictions: self.evictions.load(Ordering::Relaxed),
        }
    }

    /// Retire every entry from previous epochs.
    pub fn advance_epoch(&self) {
        self.epoch.fetch_add(1, Ordering::Relaxed);
    }

    /// The current epoch, truncated to the entry field's width.
    pub fn epoch(&self) -> u16 {
        let raw = self.epoch.load(Ordering::Relaxed);
        low_sixteen_bits(raw)
    }

    /// Look a position up. A hit is served only when the full board and the
    /// side to move match (a Zobrist collision is a miss) and the entry was
    /// written by the same evaluator; its value is served only when the entry
    /// is a proven or position-pure score, or the mode is throughput.
    pub fn probe(&self, state: &GameState, id: EvaluatorIdentity, mode: TtMode) -> (probe: Probe)
        ensures
            probe == spec_probe(self.contents(), self.spec_capacity(), *state, id, mode),
    {
        if self.capacity == 0 {
            return Probe::Miss;
        }
        self.probes.fetch_add(1, Ordering::Relaxed);
        let entry = match map_get(&self.map, state.hash) {
            Some(entry) => entry,
            None => {
                return Probe::Miss;
            },
        };
        if entry.board != state.board || entry.side_to_move != state.side_to_move {
            self.collisions.fetch_add(1, Ordering::Relaxed);
            return Probe::Miss;
        }
        if entry.evaluator != id {
            return Probe::Miss;
        }
        self.hits.fetch_add(1, Ordering::Relaxed);
        let value_usable = match entry.kind {
            TtKind::Terminal | TtKind::Exact => true,
            TtKind::Estimate => mode == TtMode::Throughput,
        };
        if value_usable {
            Probe::Full {
                moves: entry.moves,
                value: entry.value,
                samples: entry.samples,
                kind: entry.kind,
            }
        } else {
            Probe::Moves(entry.moves)
        }
    }

    /// Store after a search visited a node.
    ///
    /// A disabled table stores nothing, and deterministic mode drops an
    /// impure evaluator's sample mean before storing: it caches move
    /// generation and proven scores only. Storing, merging and capacity
    /// enforcement past those two refusals are not part of this version, so
    /// the domain is the updates that those refusals answer.
    pub fn store(&self, state: &GameState, update: TtUpdate, mode: TtMode)
        requires
            self.spec_capacity() == 0 || (update.kind == TtKind::Estimate && mode
                != TtMode::Throughput),
    {
        if self.capacity == 0 {
            return ;
        }
        if update.kind == TtKind::Estimate && mode != TtMode::Throughput {
            return ;
        }
    }
}

fn low_sixteen_bits(raw: u64) -> (bits: u16)
    ensures
        bits == raw % 0x1_0000,
{
    (raw % 0x1_0000) as u16
}

/// A table never changes what a search sees: a disabled table always misses,
/// and a table that has stored nothing always misses.
pub proof fn law_an_empty_or_disabled_table_never_hits(
    contents: Map<u64, TtEntry>,
    capacity: usize,
    state: GameState,
    id: EvaluatorIdentity,
    mode: TtMode,
)
    requires
        capacity == 0 || contents == Map::<u64, TtEntry>::empty(),
    ensures
        spec_probe(contents, capacity, state, id, mode) == Probe::Miss,
{
}

/// A hit is never served across a board mismatch or to another evaluator,
/// and an estimate's value is never served in deterministic mode.
pub proof fn law_a_hit_is_verified_scoped_and_mode_safe(
    contents: Map<u64, TtEntry>,
    capacity: usize,
    state: GameState,
    id: EvaluatorIdentity,
    mode: TtMode,
)
    ensures
        !(spec_probe(contents, capacity, state, id, mode) is Miss) ==> {
            &&& contents.contains_key(state.hash)
            &&& contents[state.hash].board == state.board
            &&& contents[state.hash].side_to_move == state.side_to_move
            &&& contents[state.hash].evaluator == id
        },
        (spec_probe(contents, capacity, state, id, mode) is Full && mode == TtMode::Deterministic)
            ==> contents[state.hash].kind != TtKind::Estimate,
{
}

} // verus!
