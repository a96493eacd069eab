//! Evaluator identity and the score normalisation every evaluator shares.

use vstd::prelude::*;
use vstd::string::StringSliceAdditionalSpecFns;

use crate::rules::board::{GameResult, GameState, GameStatus, Side};
use crate::rules::hashing::{
    fnv1a, fnv1a_fold, fnv1a_fold_u64, u64_le_bytes, FNV1A_OFFSET_BASIS,
};

verus! {

/// Identity of an evaluator including its configuration.
///
/// Transposition entries are only shared between evaluators with an identical
/// identity.
#[derive(Clone, Copy, PartialEq, Eq, Hash, Debug, Structural)]
pub struct EvaluatorIdentity(u64);

/// FNV-1a over every parameter's key bytes and then its value's
/// little-endian bytes, in order.
pub open spec fn params_fold(hash: u64, params: Seq<(&str, u64)>) -> u64
    decreases params.len(),
{
    if params.len() == 0 {
        hash
    } else {
        let last = params.last();
        fnv1a(
            fnv1a(params_fold(hash, params.drop_last()), last.0.spec_bytes()),
            u64_le_bytes(last.1),
        )
    }
}

/// The identity value of an evaluator name with numeric parameters.
pub open spec fn identity_value(name: &str, params: Seq<(&str, u64)>) -> u64 {
    params_fold(fnv1a(FNV1A_OFFSET_BASIS, name.spec_bytes()), params)
}

impl EvaluatorIdentity {
    pub closed spec fn value(self) -> u64 {
        self.0
    }

    /// Build an identity from a name and its numeric parameters.
    pub fn new(name: &str, params: &[(&str, u64)]) -> (identity: EvaluatorIdentity)
        ensures
            identity.value() == identity_value(name, params@),
    {
        let mut hash = fnv1a_fold(FNV1A_OFFSET_BASIS, name.as_bytes());
        let ghost start = hash;
        let mut i: usize = 0;
        while i < params.len()
            invariant
                i <= params@.len(),
                start == fnv1a(FNV1A_OFFSET_BASIS, name.spec_bytes()),
                hash == params_fold(start, params@.take(i as int)),
            decreases params@.len() - i,
        {
            let (key, value) = params[i];
            hash = fnv1a_fold(hash, key.as_bytes());
            hash = fnv1a_fold_u64(hash, value);
            assert(params@.take(i + 1).drop_last() =~= params@.take(i as int));
            i = i + 1;
        }
        assert(params@.take(i as int) =~= params@);
        EvaluatorIdentity(hash)
    }

    /// Build an identity from a name and an opaque discriminator, such as a
    /// model checkpoint id.
    pub fn from_str(name: &str, discriminator: &str) -> (identity: EvaluatorIdentity)
        ensures
            identity.value() == fnv1a(identity_value(name, Seq::empty()), discriminator.spec_bytes()),
    {
        let base = EvaluatorIdentity::new(name, &[]);
        proof {
            assert(Seq::<(&str, u64)>::empty() =~= seq![]);
        }
        EvaluatorIdentity(fnv1a_fold(base.0, discriminator.as_bytes()))
    }

    pub fn as_u64(self) -> (value: u64)
        ensures
            value == self.value(),
    {
        self.0
    }
}

/// The normalised outcome of a finished game from `perspective`: `1` win,
/// `0` draw, `-1` loss. Every evaluator's terminal score is this value.
pub open spec fn spec_result_outcome(result: GameResult, perspective: Side) -> i8 {
    match (result, perspective) {
        (GameResult::Draw, _) => 0i8,
        (GameResult::BlackWin, Side::Black) | (GameResult::WhiteWin, Side::White) => 1i8,
        (GameResult::BlackWin, Side::White) | (GameResult::WhiteWin, Side::Black) => -1i8,
    }
}

/// The normalised outcome of a finished game from `perspective`.
pub fn result_outcome(result: GameResult, perspective: Side) -> (outcome: i8)
    ensures
        outcome == spec_result_outcome(result, perspective),
{
    match (result, perspective) {
        (GameResult::Draw, _) => 0,
        (GameResult::BlackWin, Side::Black) | (GameResult::WhiteWin, Side::White) => 1,
        (GameResult::BlackWin, Side::White) | (GameResult::WhiteWin, Side::Black) => -1,
    }
}

/// Terminal scores are antisymmetric: what one side wins the other loses, and
/// a draw is worth nothing to either.
pub proof fn law_terminal_scores_are_antisymmetric(result: GameResult)
    ensures
        spec_result_outcome(result, Side::Black) == -spec_result_outcome(result, Side::White),
        result == GameResult::Draw ==> spec_result_outcome(result, Side::Black) == 0,
{
}

/// The rollout evaluator: play the position out at random and score it.
pub struct RandomRolloutEvaluator {
    rng_seed: u64,
    max_playout_ply: u32,
}

/// The identity every random-rollout evaluator with this playout cap shares.
pub open spec fn rollout_identity(max_playout_ply: u32) -> u64 {
    identity_value("random_rollout", seq![("max_playout_ply", max_playout_ply as u64)])
}

impl RandomRolloutEvaluator {
    pub closed spec fn spec_seed(self) -> u64 {
        self.rng_seed
    }

    pub closed spec fn spec_max_playout_ply(self) -> u32 {
        self.max_playout_ply
    }

    pub fn new(rng_seed: u64, max_playout_ply: u32) -> (evaluator: RandomRolloutEvaluator)
        ensures
            evaluator.spec_seed() == rng_seed,
            evaluator.spec_max_playout_ply() == max_playout_ply,
    {
        RandomRolloutEvaluator { rng_seed, max_playout_ply }
    }

    pub fn seed(&self) -> (seed: u64)
        ensures
            seed == self.spec_seed(),
    {
        self.rng_seed
    }

    pub fn max_playout_ply(&self) -> (ply: u32)
        ensures
            ply == self.spec_max_playout_ply(),
    {
        self.max_playout_ply
    }

    /// Name of the evaluator.
    pub fn name(&self) -> (name: &'static str)
        ensures
            name@ == "random_rollout"@,
    {
        "random_rollout"
    }

    /// The seed is not part of the identity (two workers with different seeds
    /// sample the same distribution); the playout cap is.
    pub fn identity(&self) -> (identity: EvaluatorIdentity)
        ensures
            identity.value() == rollout_identity(self.spec_max_playout_ply()),
    {
        let params = [("max_playout_ply", self.max_playout_ply as u64)];
        let identity = EvaluatorIdentity::new("random_rollout", params.as_slice());
        assert(params@ =~= seq![("max_playout_ply", self.max_playout_ply as u64)]);
        identity
    }

    /// A rollout samples a trajectory, so two calls on the same state
    /// legitimately disagree: never position-pure.
    pub fn is_position_pure(&self) -> (pure: bool)
        ensures
            !pure,
    {
        false
    }

    /// The exact terminal outcome from `perspective`, or `None` for a game in
    /// progress.
    pub fn terminal_outcome(&self, state: &GameState, perspective: Side) -> (outcome: Option<i8>)
        ensures
            outcome == (match state.status {
                GameStatus::Finished(result) => Some(spec_result_outcome(result, perspective)),
                GameStatus::Ongoing => None,
            }),
    {
        match state.status {
            GameStatus::Finished(result) => Some(result_outcome(result, perspective)),
            GameStatus::Ongoing => None,
        }
    }
}

/// The seed is not part of an evaluator's identity: two rollout evaluators
/// with the same playout cap share cached entries whatever their seeds.
pub proof fn law_rollout_identity_ignores_the_seed(a: RandomRolloutEvaluator, b: RandomRolloutEvaluator)
    requires
        a.spec_max_playout_ply() == b.spec_max_playout_ply(),
    ensures
        rollout_identity(a.spec_max_playout_ply()) == rollout_identity(b.spec_max_playout_ply()),
{
}

} // verus!
