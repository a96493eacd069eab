//! Zobrist hashing: the key of the shared transposition table and a persisted
//! column (`positions.board_hash`).
//!
//! The key table must never change between builds without a `format_version`
//! bump, so it is derived from a hard-coded seed by a documented generator
//! (SplitMix64), and [`TABLE_FINGERPRINT`] pins the result.

use vstd::prelude::*;
use vstd::arithmetic::div_mod::{lemma_add_mod_noop, lemma_mod_multiples_vanish, lemma_mul_mod_noop_left};
use vstd::wrapping::u64_specs::{wrapping_add, wrapping_mul};

use super::board::{has_bit, Board, Side};
use super::hashing::{fnv1a, fnv1a_fold_u64, u64_le_bytes, FNV1A_OFFSET_BASIS};

verus! {

pub type Zobrist = u64;

/// The seed. Changing this constant is a `format_version` bump.
pub const ZOBRIST_SEED: u64 = 0x5852_F42D_4C95_7F2D;

/// The SplitMix64 increment.
pub const SPLITMIX_GAMMA: u64 = 0x9E37_79B9_7F4A_7C15;

/// Piece planes, in hashing order: black men, white men, black kings, white
/// kings (the order of the persisted board blob).
pub const PLANES: usize = 4;

/// Number of piece keys: one per plane and square.
pub const PIECE_KEYS: usize = 128;

/// Fingerprint of the generated key table, asserted by a test, so that a
/// change to the generator, the seed, the plane order or the square count
/// fails a test rather than silently invalidating every persisted hash.
pub const TABLE_FINGERPRINT: u64 = 5_314_808_694_657_829_724;

pub open spec fn modulus() -> nat {
    0x1_0000_0000_0000_0000nat
}

/// The SplitMix64 output function.
pub open spec fn splitmix_mix(state: u64) -> u64 {
    let z1 = wrapping_mul(state ^ (state >> 30u64), 0xBF58_476D_1CE4_E5B9u64);
    let z2 = wrapping_mul(z1 ^ (z1 >> 27u64), 0x94D0_49BB_1331_11EBu64);
    z2 ^ (z2 >> 31u64)
}

/// The generator's state after `n` steps from the seed.
pub open spec fn splitmix_state(n: nat) -> u64
    decreases n,
{
    if n == 0 {
        ZOBRIST_SEED
    } else {
        wrapping_add(splitmix_state((n - 1) as nat), SPLITMIX_GAMMA)
    }
}

/// The `i`-th key drawn from the generator (the first draw is key 0).
pub open spec fn key_at(i: nat) -> u64 {
    splitmix_mix(splitmix_state(i + 1))
}

/// The key of a piece on `square` in `plane`.
pub open spec fn piece_key(plane: int, square: int) -> u64 {
    key_at((plane * 32 + square) as nat)
}

/// The key folded in when White is to move: the draw after every piece key.
pub open spec fn side_key() -> u64 {
    key_at(PIECE_KEYS as nat)
}

/// The generator state in closed form.
proof fn lemma_splitmix_state_closed(n: nat)
    ensures
        splitmix_state(n) as nat == (ZOBRIST_SEED as nat + n * (SPLITMIX_GAMMA as nat))
            % modulus(),
    decreases n,
{
    if n > 0 {
        lemma_splitmix_state_closed((n - 1) as nat);
        let prev = splitmix_state((n - 1) as nat);
        let a = ZOBRIST_SEED as nat + (n - 1) * (SPLITMIX_GAMMA as nat);
        assert(wrapping_add(prev, SPLITMIX_GAMMA) as nat == (prev as nat + SPLITMIX_GAMMA as nat)
            % modulus());
        lemma_add_mod_noop(a as int, SPLITMIX_GAMMA as int, modulus() as int);
        assert((SPLITMIX_GAMMA as nat) % modulus() == SPLITMIX_GAMMA as nat);
        assert(a + SPLITMIX_GAMMA as nat == ZOBRIST_SEED as nat + n * (SPLITMIX_GAMMA as nat))
            by (nonlinear_arith)
            requires
                a == ZOBRIST_SEED as nat + (n - 1) * (SPLITMIX_GAMMA as nat),
                n > 0,
        ;
    }
}

fn splitmix_mix_exec(state: u64) -> (out: u64)
    ensures
        out == splitmix_mix(state),
{
    let z1 = (state ^ (state >> 30)).wrapping_mul(0xBF58_476D_1CE4_E5B9);
    let z2 = (z1 ^ (z1 >> 27)).wrapping_mul(0x94D0_49BB_1331_11EB);
    z2 ^ (z2 >> 31)
}

/// The `index`-th key, computed directly from the generator's closed form.
fn key_for(index: u64) -> (key: u64)
    requires
        index <= PIECE_KEYS,
    ensures
        key == key_at(index as nat),
{
    let steps = index + 1;
    let state = ZOBRIST_SEED.wrapping_add(steps.wrapping_mul(SPLITMIX_GAMMA));
    proof {
        lemma_splitmix_state_closed(steps as nat);
        let m = modulus() as int;
        let prod = steps as int * SPLITMIX_GAMMA as int;
        assert(wrapping_mul(steps, SPLITMIX_GAMMA) as int == prod % m);
        lemma_add_mod_noop(ZOBRIST_SEED as int, prod, m);
        assert((ZOBRIST_SEED as int) % m == ZOBRIST_SEED as int);
        assert(state as int == (ZOBRIST_SEED as int + prod % m) % m);
    }
    splitmix_mix_exec(state)
}

/// The hash contribution of the pieces among the lowest `n` squares of one
/// plane.
pub open spec fn plane_hash_below(bits: u32, plane: int, n: nat) -> u64
    decreases n,
{
    if n == 0 {
        0
    } else {
        plane_hash_below(bits, plane, (n - 1) as nat) ^ (if has_bit(bits, n - 1) {
            piece_key(plane, n - 1)
        } else {
            0u64
        })
    }
}

/// The bitboard of plane `plane` (in hashing order).
pub open spec fn plane_bits(board: Board, plane: int) -> u32 {
    if plane == 0 {
        board.black_men
    } else if plane == 1 {
        board.white_men
    } else if plane == 2 {
        board.black_kings
    } else {
        board.white_kings
    }
}

/// The hash contribution of the first `p` planes.
pub open spec fn planes_hash(board: Board, p: nat) -> u64
    decreases p,
{
    if p == 0 {
        0
    } else {
        planes_hash(board, (p - 1) as nat) ^ plane_hash_below(
            plane_bits(board, p - 1),
            p - 1,
            32,
        )
    }
}

/// The Zobrist hash of a position: every piece's key, plus the side key when
/// White is to move, folded with xor.
pub open spec fn position_hash(board: Board, side_to_move: Side) -> u64 {
    planes_hash(board, 4) ^ (if side_to_move == Side::White {
        side_key()
    } else {
        0u64
    })
}

/// `board` with the piece on `square` of plane `plane` added or removed.
pub open spec fn toggled(board: Board, plane: int, square: int) -> Board {
    let bit = 1u32 << (square as u32);
    if plane == 0 {
        Board { black_men: board.black_men ^ bit, ..board }
    } else if plane == 1 {
        Board { white_men: board.white_men ^ bit, ..board }
    } else if plane == 2 {
        Board { black_kings: board.black_kings ^ bit, ..board }
    } else {
        Board { white_kings: board.white_kings ^ bit, ..board }
    }
}

/// The committed key table: `PLANES x SQUARES` piece keys, plus one key folded
/// in when White is to move.
pub struct KeyTable {
    pieces: Vec<u64>,
    side_to_move: u64,
}

impl KeyTable {
    #[verifier::type_invariant]
    spec fn holds_generated_keys(self) -> bool {
        &&& self.pieces@.len() == PIECE_KEYS
        &&& forall|i: int| 0 <= i < PIECE_KEYS ==> #[trigger] self.pieces@[i] == key_at(i as nat)
        &&& self.side_to_move == side_key()
    }

    /// Draw the table from the fixed seed with SplitMix64, piece keys first
    /// (plane by plane, square by square), then the side-to-move key.
    pub fn generate() -> (table: KeyTable)
        ensures
            forall|plane: int, square: int|
                0 <= plane < 4 && 0 <= square < 32 ==> #[trigger] table.spec_piece(plane, square)
                    == piece_key(plane, square),
            table.spec_side_to_move() == side_key(),
    {
        let mut state = ZOBRIST_SEED;
        let mut pieces: Vec<u64> = Vec::new();
        let mut i: usize = 0;
        while i < PIECE_KEYS
            invariant
                i <= PIECE_KEYS,
                state == splitmix_state(i as nat),
                pieces@.len() == i,
                forall|j: int| 0 <= j < i ==> #[trigger] pieces@[j] == key_at(j as nat),
            decreases PIECE_KEYS - i,
        {
            state = state.wrapping_add(SPLITMIX_GAMMA);
            pieces.push(splitmix_mix_exec(state));
            i = i + 1;
        }
        state = state.wrapping_add(SPLITMIX_GAMMA);
        let side_to_move = splitmix_mix_exec(state);
        KeyTable { pieces, side_to_move }
    }

    pub closed spec fn spec_piece(self, plane: int, square: int) -> u64 {
        self.pieces@[plane * 32 + square]
    }

    pub closed spec fn spec_side_to_move(self) -> u64 {
        self.side_to_move
    }

    pub fn piece(&self, plane: usize, square: u32) -> (key: u64)
        requires
            plane < PLANES,
            square < 32,
        ensures
            key == piece_key(plane as int, square as int),
    {
        proof {
            use_type_invariant(self);
            assert(plane * 32 + square < 128) by (nonlinear_arith)
                requires
                    plane < 4,
                    square < 32,
            ;
        }
        self.pieces[plane * 32 + square as usize]
    }

    pub fn side_to_move(&self) -> (key: u64)
        ensures
            key == side_key(),
    {
        proof {
            use_type_invariant(self);
        }
        self.side_to_move
    }

    /// An order-sensitive fingerprint of the whole table: FNV-1a over every
    /// key's little-endian bytes, piece keys first, then the side key.
    pub fn fingerprint(&self) -> (hash: u64)
        ensures
            hash == fnv1a(FNV1A_OFFSET_BASIS, key_stream_bytes((PIECE_KEYS + 1) as nat)),
    {
        proof {
            use_type_invariant(self);
        }
        let mut hash: u64 = FNV1A_OFFSET_BASIS;
        let mut i: usize = 0;
        while i < PIECE_KEYS
            invariant
                i <= PIECE_KEYS,
                self.pieces@.len() == PIECE_KEYS,
                forall|j: int| 0 <= j < PIECE_KEYS ==> #[trigger] self.pieces@[j] == key_at(
                    j as nat,
                ),
                hash == fnv1a(FNV1A_OFFSET_BASIS, key_stream_bytes(i as nat)),
            decreases PIECE_KEYS - i,
        {
            hash = fnv1a_fold_u64(hash, self.pieces[i]);
            proof {
                lemma_fnv1a_fold_key(i as nat);
            }
            i = i + 1;
        }
        hash = fnv1a_fold_u64(hash, self.side_to_move);
        proof {
            lemma_fnv1a_fold_key(PIECE_KEYS as nat);
        }
        hash
    }
}

/// The bytes of the first `n` generated keys, one after the other.
pub open spec fn key_stream_bytes(n: nat) -> Seq<u8>
    decreases n,
{
    if n == 0 {
        Seq::empty()
    } else {
        key_stream_bytes((n - 1) as nat) + u64_le_bytes(key_at((n - 1) as nat))
    }
}

proof fn lemma_fnv1a_fold_key(i: nat)
    ensures
        fnv1a(fnv1a(FNV1A_OFFSET_BASIS, key_stream_bytes(i)), u64_le_bytes(key_at(i))) == fnv1a(
            FNV1A_OFFSET_BASIS,
            key_stream_bytes(i + 1),
        ),
{
    super::hashing::lemma_fnv1a_append(
        FNV1A_OFFSET_BASIS,
        key_stream_bytes(i),
        u64_le_bytes(key_at(i)),
    );
}

/// The committed key table, generated from the fixed seed.
pub fn keys() -> (table: KeyTable)
    ensures
        forall|plane: int, square: int|
            0 <= plane < 4 && 0 <= square < 32 ==> #[trigger] table.spec_piece(plane, square)
                == piece_key(plane, square),
        table.spec_side_to_move() == side_key(),
{
    KeyTable::generate()
}

/// Full recomputation of a position's hash: the reference the incremental
/// updates are held to.
pub fn of_position(board: &Board, side_to_move: Side) -> (hash: Zobrist)
    ensures
        hash == position_hash(*board, side_to_move),
{
    let planes = [board.black_men, board.white_men, board.black_kings, board.white_kings];
    let mut hash: u64 = 0;
    let mut plane: usize = 0;
    while plane < PLANES
        invariant
            plane <= PLANES,
            planes@ == seq![board.black_men, board.white_men, board.black_kings, board.white_kings],
            hash == planes_hash(*board, plane as nat),
        decreases PLANES - plane,
    {
        let bits = planes[plane];
        assert(bits == plane_bits(*board, plane as int));
        let mut square: u32 = 0;
        let ghost before = hash;
        proof {
            lemma_xor_zero(hash);
        }
        while square < 32
            invariant
                plane < PLANES,
                square <= 32,
                hash == before ^ plane_hash_below(bits, plane as int, square as nat),
            decreases 32 - square,
        {
            let ghost prev = plane_hash_below(bits, plane as int, square as nat);
            if (bits >> square) & 1 == 1 {
                let key = key_for((plane * 32) as u64 + square as u64);
                proof {
                    lemma_xor_assoc(before, prev, key);
                }
                hash = hash ^ key;
            } else {
                proof {
                    lemma_xor_zero(prev);
                }
            }
            square = square + 1;
        }
        plane = plane + 1;
    }
    if side_to_move == Side::White {
        hash = hash ^ key_for(PIECE_KEYS as u64);
    } else {
        proof {
            lemma_xor_zero(hash);
        }
    }
    hash
}

proof fn lemma_xor_assoc(a: u64, b: u64, c: u64)
    ensures
        (a ^ b) ^ c == a ^ (b ^ c),
{
    assert((a ^ b) ^ c == a ^ (b ^ c)) by (bit_vector);
}

proof fn lemma_xor_zero(a: u64)
    ensures
        a ^ 0u64 == a,
{
    assert(a ^ 0u64 == a) by (bit_vector);
}


proof fn lemma_toggled_bit(bits: u32, square: u32, m: u32)
    requires
        square < 32,
        m < 32,
    ensures
        has_bit(bits ^ (1u32 << square), m as int) == (has_bit(bits, m as int) != (m == square)),
{
    assert((((bits ^ (1u32 << square)) >> m) & 1u32 == 1u32) == ((((bits >> m) & 1u32) == 1u32)
        != (m == square))) by (bit_vector)
        requires
            square < 32,
            m < 32,
    ;
}

proof fn lemma_plane_hash_toggle(bits: u32, plane: int, square: int, n: nat)
    requires
        0 <= square < 32,
        n <= 32,
    ensures
        plane_hash_below(bits ^ (1u32 << (square as u32)), plane, n) == plane_hash_below(
            bits,
            plane,
            n,
        ) ^ (if square < n {
            piece_key(plane, square)
        } else {
            0u64
        }),
    decreases n,
{
    let flipped = bits ^ (1u32 << (square as u32));
    if n == 0 {
        assert(0u64 ^ 0u64 == 0u64) by (bit_vector);
    } else {
        let m = (n - 1) as nat;
        lemma_plane_hash_toggle(bits, plane, square, m);
        lemma_toggled_bit(bits, square as u32, m as u32);
        let a = plane_hash_below(bits, plane, m);
        let k = piece_key(plane, square);
        let km = piece_key(plane, m as int);
        let t = if has_bit(bits, m as int) {
            km
        } else {
            0u64
        };
        if m == square {
            assert(plane_hash_below(flipped, plane, m) == a ^ 0u64);
            if has_bit(bits, m as int) {
                assert((a ^ 0u64) ^ 0u64 == (a ^ k) ^ k) by (bit_vector);
            } else {
                assert((a ^ 0u64) ^ k == (a ^ 0u64) ^ k);
            }
            assert((a ^ 0u64) ^ 0u64 == a) by (bit_vector);
            assert((a ^ 0u64) == a) by (bit_vector);
        } else {
            let c = if square < m {
                k
            } else {
                0u64
            };
            assert(plane_hash_below(flipped, plane, n) == (a ^ c) ^ t);
            assert((a ^ c) ^ t == (a ^ t) ^ c) by (bit_vector);
        }
    }
}

/// Adding or removing a piece twice leaves a hash unchanged, and so does
/// flipping the side to move twice.
pub proof fn law_toggles_are_involutions(hash: Zobrist, plane: int, square: int)
    ensures
        (hash ^ piece_key(plane, square)) ^ piece_key(plane, square) == hash,
        (hash ^ side_key()) ^ side_key() == hash,
{
    let k = piece_key(plane, square);
    let s = side_key();
    assert((hash ^ k) ^ k == hash) by (bit_vector);
    assert((hash ^ s) ^ s == hash) by (bit_vector);
}

/// An incremental update is indistinguishable from a full recomputation:
/// adding or removing one piece changes a position's hash by exactly that
/// piece's key.
pub proof fn law_incremental_update_agrees_with_full_recomputation(
    board: Board,
    side_to_move: Side,
    plane: int,
    square: int,
)
    requires
        0 <= plane < 4,
        0 <= square < 32,
    ensures
        position_hash(toggled(board, plane, square), side_to_move) == position_hash(
            board,
            side_to_move,
        ) ^ piece_key(plane, square),
{
    let after = toggled(board, plane, square);
    lemma_plane_hash_toggle(plane_bits(board, plane), plane, square, 32);
    let h0 = plane_hash_below(board.black_men, 0, 32);
    let h1 = plane_hash_below(board.white_men, 1, 32);
    let h2 = plane_hash_below(board.black_kings, 2, 32);
    let h3 = plane_hash_below(board.white_kings, 3, 32);
    let g0 = plane_hash_below(after.black_men, 0, 32);
    let g1 = plane_hash_below(after.white_men, 1, 32);
    let g2 = plane_hash_below(after.black_kings, 2, 32);
    let g3 = plane_hash_below(after.white_kings, 3, 32);
    reveal_with_fuel(planes_hash, 5);
    assert(planes_hash(board, 4) == (((0u64 ^ h0) ^ h1) ^ h2) ^ h3);
    assert(planes_hash(after, 4) == (((0u64 ^ g0) ^ g1) ^ g2) ^ g3);
    let k = piece_key(plane, square);
    let sk = if side_to_move == Side::White {
        side_key()
    } else {
        0u64
    };
    if plane == 0 {
        assert(((((0u64 ^ (h0 ^ k)) ^ h1) ^ h2) ^ h3) ^ sk == (((((0u64 ^ h0) ^ h1) ^ h2) ^ h3)
            ^ sk) ^ k) by (bit_vector);
    } else if plane == 1 {
        assert(((((0u64 ^ h0) ^ (h1 ^ k)) ^ h2) ^ h3) ^ sk == (((((0u64 ^ h0) ^ h1) ^ h2) ^ h3)
            ^ sk) ^ k) by (bit_vector);
    } else if plane == 2 {
        assert(((((0u64 ^ h0) ^ h1) ^ (h2 ^ k)) ^ h3) ^ sk == (((((0u64 ^ h0) ^ h1) ^ h2) ^ h3)
            ^ sk) ^ k) by (bit_vector);
    } else {
        assert(((((0u64 ^ h0) ^ h1) ^ h2) ^ (h3 ^ k)) ^ sk == (((((0u64 ^ h0) ^ h1) ^ h2) ^ h3)
            ^ sk) ^ k) by (bit_vector);
    }
}

/// The side to move is folded into the hash: the same board with the other
/// side to move hashes to the hash with the side key toggled.
pub proof fn law_side_to_move_is_folded_into_the_hash(board: Board, side_to_move: Side)
    ensures
        position_hash(board, side_to_move.spec_opponent()) == position_hash(board, side_to_move)
            ^ side_key(),
{
    let p = planes_hash(board, 4);
    let s = side_key();
    assert((p ^ 0u64) ^ s == p ^ s) by (bit_vector);
    assert((p ^ s) ^ s == p ^ 0u64) by (bit_vector);
}

/// Add or remove one piece. Xor is its own inverse, so one function does both.
pub fn toggle_piece(hash: Zobrist, plane: usize, square: u32) -> (out: Zobrist)
    requires
        plane < PLANES,
        square < 32,
    ensures
        out == hash ^ piece_key(plane as int, square as int),
{
    hash ^ key_for((plane * 32) as u64 + square as u64)
}

/// Flip the side to move.
pub fn toggle_side(hash: Zobrist) -> (out: Zobrist)
    ensures
        out == hash ^ side_key(),
{
    hash ^ key_for(PIECE_KEYS as u64)
}

/// Plane index for a piece, matching the persisted board blob's field order.
pub fn plane_of(side: Side, king: bool) -> (plane: usize)
    ensures
        plane < PLANES,
        plane == (match (side, king) {
            (Side::Black, false) => 0usize,
            (Side::White, false) => 1usize,
            (Side::Black, true) => 2usize,
            (Side::White, true) => 3usize,
        }),
{
    match (side, king) {
        (Side::Black, false) => 0,
        (Side::White, false) => 1,
        (Side::Black, true) => 2,
        (Side::White, true) => 3,
    }
}

proof fn lemma_xorshift_injective(x: u64, y: u64)
    ensures
        (x ^ (x >> 30u64)) == (y ^ (y >> 30u64)) ==> x == y,
        (x ^ (x >> 27u64)) == (y ^ (y >> 27u64)) ==> x == y,
        (x ^ (x >> 31u64)) == (y ^ (y >> 31u64)) ==> x == y,
{
    assert((x ^ (x >> 30u64)) == (y ^ (y >> 30u64)) ==> x == y) by (bit_vector);
    assert((x ^ (x >> 27u64)) == (y ^ (y >> 27u64)) ==> x == y) by (bit_vector);
    assert((x ^ (x >> 31u64)) == (y ^ (y >> 31u64)) ==> x == y) by (bit_vector);
}

/// Multiplying by `c` modulo 2^64 is undone by multiplying by its inverse.
proof fn lemma_undo_mul(x: u64, c: u64, inverse: u64, k: int)
    requires
        c as int * inverse as int == 1 + k * modulus(),
    ensures
        wrapping_mul(wrapping_mul(x, c), inverse) == x,
{
    let m = modulus() as int;
    let y = wrapping_mul(x, c);
    assert(y as int == (x as int * c as int) % m);
    lemma_mul_mod_noop_left(x as int * c as int, inverse as int, m);
    assert(x as int * c as int * inverse as int == m * (x as int * k) + x as int) by (nonlinear_arith)
        requires
            c as int * inverse as int == 1 + k * m,
    ;
    lemma_mod_multiples_vanish(x as int * k, x as int, m);
    assert(wrapping_mul(y, inverse) as int == (y as int * inverse as int) % m);
}

/// The output function is a bijection: distinct states give distinct keys.
proof fn lemma_mix_injective(a: u64, b: u64)
    requires
        splitmix_mix(a) == splitmix_mix(b),
    ensures
        a == b,
{
    let xa = a ^ (a >> 30u64);
    let xb = b ^ (b >> 30u64);
    let z1a = wrapping_mul(xa, 0xBF58_476D_1CE4_E5B9u64);
    let z1b = wrapping_mul(xb, 0xBF58_476D_1CE4_E5B9u64);
    let ya = z1a ^ (z1a >> 27u64);
    let yb = z1b ^ (z1b >> 27u64);
    let z2a = wrapping_mul(ya, 0x94D0_49BB_1331_11EBu64);
    let z2b = wrapping_mul(yb, 0x94D0_49BB_1331_11EBu64);
    lemma_xorshift_injective(z2a, z2b);
    lemma_undo_mul(ya, 0x94D0_49BB_1331_11EBu64, 0x3196_42B2_D24D_8EC3u64, 2077064247507883091);
    lemma_undo_mul(yb, 0x94D0_49BB_1331_11EBu64, 0x3196_42B2_D24D_8EC3u64, 2077064247507883091);
    lemma_xorshift_injective(z1a, z1b);
    lemma_undo_mul(xa, 0xBF58_476D_1CE4_E5B9u64, 0x96DE_1B17_3F11_9089u64, 8125545580553827436);
    lemma_undo_mul(xb, 0xBF58_476D_1CE4_E5B9u64, 0x96DE_1B17_3F11_9089u64, 8125545580553827436);
    lemma_xorshift_injective(a, b);
}

/// The generator state after `n` steps, as the two wrapping operations that
/// compute it directly.
proof fn lemma_state_wrapping(n: u64)
    ensures
        splitmix_state(n as nat) == wrapping_add(ZOBRIST_SEED, wrapping_mul(n, SPLITMIX_GAMMA)),
{
    lemma_splitmix_state_closed(n as nat);
    let m = modulus() as int;
    let prod = n as int * SPLITMIX_GAMMA as int;
    assert(wrapping_mul(n, SPLITMIX_GAMMA) as int == prod % m);
    lemma_add_mod_noop(ZOBRIST_SEED as int, prod, m);
    assert((ZOBRIST_SEED as int) % m == ZOBRIST_SEED as int);
}

/// Distinct draws come from distinct generator states.
proof fn lemma_states_distinct(i: u64, j: u64)
    requires
        i != j,
    ensures
        splitmix_state(i as nat) != splitmix_state(j as nat),
{
    lemma_state_wrapping(i);
    lemma_state_wrapping(j);
    let gi = wrapping_mul(i, SPLITMIX_GAMMA);
    let gj = wrapping_mul(j, SPLITMIX_GAMMA);
    if wrapping_add(ZOBRIST_SEED, gi) == wrapping_add(ZOBRIST_SEED, gj) {
        assert(gi == gj);
        lemma_undo_mul(i, SPLITMIX_GAMMA, 0xF1DE_83E1_9937_733Du64, 10771413168148108919);
        lemma_undo_mul(j, SPLITMIX_GAMMA, 0xF1DE_83E1_9937_733Du64, 10771413168148108919);
    }
}

/// Every key the table draws is distinct from every other: the 128 piece
/// keys and the side key.
pub proof fn law_the_key_table_is_distinct(i: nat, j: nat)
    requires
        i <= PIECE_KEYS,
        j <= PIECE_KEYS,
        i != j,
    ensures
        key_at(i) != key_at(j),
{
    lemma_states_distinct((i + 1) as u64, (j + 1) as u64);
    if key_at(i) == key_at(j) {
        lemma_mix_injective(splitmix_state(i + 1), splitmix_state(j + 1));
    }
}

/// Distinct pieces on distinct squares have distinct keys, and no piece key
/// is the side key.
pub proof fn law_every_key_is_distinct(plane: int, square: int, other_plane: int, other_square: int)
    requires
        0 <= plane < 4,
        0 <= square < 32,
        0 <= other_plane < 4,
        0 <= other_square < 32,
    ensures
        (plane, square) != (other_plane, other_square) ==> piece_key(plane, square) != piece_key(
            other_plane,
            other_square,
        ),
        piece_key(plane, square) != side_key(),
{
    law_the_key_table_is_distinct((plane * 32 + square) as nat, PIECE_KEYS as nat);
    if (plane, square) != (other_plane, other_square) {
        law_the_key_table_is_distinct(
            (plane * 32 + square) as nat,
            (other_plane * 32 + other_square) as nat,
        );
    }
}

proof fn lemma_empty_plane_hash(plane: int, n: nat)
    ensures
        plane_hash_below(0u32, plane, n) == 0,
    decreases n,
{
    if n > 0 {
        lemma_empty_plane_hash(plane, (n - 1) as nat);
        let shift = (n - 1) as u32;
        assert(((0u32 >> shift) & 1u32) != 1u32) by (bit_vector);
        assert(!has_bit(0u32, n - 1));
        assert(0u64 ^ 0u64 == 0u64) by (bit_vector);
    }
}

/// The side key is not zero, so the two sides to move of one board never
/// hash alike; and the empty board with Black to move hashes to zero.
pub proof fn law_the_side_key_separates_the_sides(board: Board)
    ensures
        side_key() != 0,
        position_hash(board, Side::White) != position_hash(board, Side::Black),
        position_hash((Board { black_men: 0, white_men: 0, black_kings: 0, white_kings: 0 }), Side::Black)
            == 0,
{
    lemma_state_wrapping(129u64);
    let g = wrapping_mul(129u64, SPLITMIX_GAMMA);
    assert(129u64 as nat * SPLITMIX_GAMMA as nat == 79 * modulus() + 13399429869638026901nat);
    lemma_mod_multiples_vanish(79, 13399429869638026901, modulus() as int);
    assert(g == 13399429869638026901u64);
    assert(wrapping_add(ZOBRIST_SEED, g) == 1317103494751978946u64);
    let zero_mix = splitmix_mix(0u64);
    assert(wrapping_mul(0u64, 0xBF58_476D_1CE4_E5B9u64) == 0u64);
    assert(wrapping_mul(0u64, 0x94D0_49BB_1331_11EBu64) == 0u64);
    assert((0u64 ^ (0u64 >> 30u64)) == 0u64 && (0u64 ^ (0u64 >> 27u64)) == 0u64 && (0u64 ^ (
    0u64 >> 31u64)) == 0u64) by (bit_vector);
    assert(zero_mix == 0u64);
    if side_key() == 0 {
        lemma_mix_injective(splitmix_state(PIECE_KEYS as nat + 1), 0u64);
    }
    let p = planes_hash(board, 4);
    let sk = side_key();
    assert(sk != 0u64 ==> (p ^ sk) != (p ^ 0u64)) by (bit_vector);
    let empty = Board { black_men: 0, white_men: 0, black_kings: 0, white_kings: 0 };
    lemma_empty_plane_hash(0, 32);
    lemma_empty_plane_hash(1, 32);
    lemma_empty_plane_hash(2, 32);
    lemma_empty_plane_hash(3, 32);
    reveal_with_fuel(planes_hash, 5);
    assert(planes_hash(empty, 4) == (((0u64 ^ 0u64) ^ 0u64) ^ 0u64) ^ 0u64);
    assert((((0u64 ^ 0u64) ^ 0u64) ^ 0u64) ^ 0u64 == 0u64) by (bit_vector);
    assert(0u64 ^ 0u64 == 0u64) by (bit_vector);
}

} // verus!
