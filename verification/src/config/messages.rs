//! The operator-facing wording of validation findings.

use vstd::prelude::*;

use super::validate::{departed_key_names, ValidationError, ValidationWarning, GB};
use crate::decimal::{decimal, push_decimal};

verus! {

/// `bytes` in GB, to tenths: the quotient rounded to the nearest tenth, ties
/// to even.
pub open spec fn gb_tenths(bytes: u64) -> nat {
    let g = GB as int;
    let q = (bytes / GB) * 10 + ((bytes % GB) * 10) / g;
    let r = ((bytes % GB) * 10) % g;
    if r * 2 > g || (r * 2 == g && q % 2 == 1) {
        (q + 1) as nat
    } else {
        q as nat
    }
}

/// `bytes` in GB with one decimal place.
pub open spec fn gb_text(bytes: u64) -> Seq<char> {
    decimal(gb_tenths(bytes) / 10) + "."@ + decimal(gb_tenths(bytes) % 10)
}

fn push_gb(text: &mut String, bytes: u64)
    ensures
        final(text)@ == old(text)@ + gb_text(bytes),
{
    let whole = bytes / GB;
    let part = bytes % GB;
    let q = whole * 10 + (part * 10) / GB;
    let r = (part * 10) % GB;
    let tenths = if r * 2 > GB || (r * 2 == GB && q % 2 == 1) {
        q + 1
    } else {
        q
    };
    push_decimal(text, tenths / 10);
    text.append(".");
    push_decimal(text, tenths % 10);
}

/// The keys, separated by commas.
pub open spec fn joined(keys: Seq<Seq<char>>) -> Seq<char>
    decreases keys.len(),
{
    if keys.len() == 0 {
        Seq::empty()
    } else if keys.len() == 1 {
        keys[0]
    } else {
        joined(keys.drop_last()) + ", "@ + keys.last()
    }
}

impl ValidationError {
    pub open spec fn spec_message(&self) -> Seq<char> {
        match self {
            ValidationError::MemoryBudgetExceeded {
                projected_bytes,
                budget_gb,
                largest_key,
                largest_bytes,
            } => "projected memory ceiling is "@ + gb_text(*projected_bytes)
                + " GB, over the limits.max_total_memory_gb budget of "@ + decimal(
                *budget_gb as nat,
            ) + " GB. Largest consumer: "@ + largest_key@ + " at "@ + gb_text(*largest_bytes)
                + " GB"@,
            ValidationError::VramBudgetExceeded { profile, model_mb, projected_mb, budget_mb } =>
                "face."@ + profile@ + ".model_path ("@ + decimal(*model_mb as nat) + " MB) projects "@
                + decimal(*projected_mb as nat) + " MB of VRAM against a limits.max_vram_mb budget of "@
                + decimal(*budget_mb as nat) + " MB"@,
            ValidationError::DeadlineInfeasible {
                profile,
                device,
                model_mb,
                projected_ms,
                max_tokens,
                deadline_ms,
            } => "the active profile face."@ + profile@ + " ("@ + decimal(*model_mb as nat)
                + " MB) projects "@ + decimal(*projected_ms as nat)
                + " ms to generate face.max_tokens = "@ + decimal(*max_tokens as nat)
                + " tokens on "@ + device@ + ", over the face.deadline_ms of "@ + decimal(
                *deadline_ms as nat,
            )
                + " ms. A Face layer that cannot meet its deadline is a circuit that will be open within three moves"@,
            ValidationError::ShardCountNotPowerOfTwo(count) => "engine.transposition.shard_count = "@
                + decimal(*count as nat) + " must be a power of two of at least 2"@,
            ValidationError::RetryBackoffLengthMismatch { expected, actual } =>
                "database.writer.retry_backoff_ms has "@ + decimal(*actual as nat)
                + " entries but database.writer.max_retries is "@ + decimal(*expected as nat),
            ValidationError::MustBePositive { key } => key@ + " must be greater than zero"@,
            ValidationError::RepetitionCountTooLow(count) => "rules.draw.repetition_count = "@
                + decimal(*count as nat)
                + " would draw a game at the opening position; a repetition rule needs at least two occurrences to have seen one"@,
        }
    }

    /// The description of the finding, naming the key responsible.
    pub fn message(&self) -> (text: String)
        ensures
            text@ == self.spec_message(),
    {
        let mut text = String::new();
        match self {
            ValidationError::MemoryBudgetExceeded {
                projected_bytes,
                budget_gb,
                largest_key,
                largest_bytes,
            } => {
                text.append("projected memory ceiling is ");
                push_gb(&mut text, *projected_bytes);
                text.append(" GB, over the limits.max_total_memory_gb budget of ");
                push_decimal(&mut text, *budget_gb);
                text.append(" GB. Largest consumer: ");
                text.append(largest_key);
                text.append(" at ");
                push_gb(&mut text, *largest_bytes);
                text.append(" GB");
            },
            ValidationError::VramBudgetExceeded { profile, model_mb, projected_mb, budget_mb } => {
                text.append("face.");
                text.append(profile);
                text.append(".model_path (");
                push_decimal(&mut text, *model_mb);
                text.append(" MB) projects ");
                push_decimal(&mut text, *projected_mb);
                text.append(" MB of VRAM against a limits.max_vram_mb budget of ");
                push_decimal(&mut text, *budget_mb);
                text.append(" MB");
            },
            ValidationError::DeadlineInfeasible {
                profile,
                device,
                model_mb,
                projected_ms,
                max_tokens,
                deadline_ms,
            } => {
                text.append("the active profile face.");
                text.append(profile);
                text.append(" (");
                push_decimal(&mut text, *model_mb);
                text.append(" MB) projects ");
                push_decimal(&mut text, *projected_ms);
                text.append(" ms to generate face.max_tokens = ");
                push_decimal(&mut text, *max_tokens as u64);
                text.append(" tokens on ");
                text.append(device);
                text.append(", over the face.deadline_ms of ");
                push_decimal(&mut text, *deadline_ms);
                text.append(
                    " ms. A Face layer that cannot meet its deadline is a circuit that will be open within three moves",
                );
            },
            ValidationError::ShardCountNotPowerOfTwo(count) => {
                text.append("engine.transposition.shard_count = ");
                push_decimal(&mut text, *count as u64);
                text.append(" must be a power of two of at least 2");
            },
            ValidationError::RetryBackoffLengthMismatch { expected, actual } => {
                text.append("database.writer.retry_backoff_ms has ");
                push_decimal(&mut text, *actual as u64);
                text.append(" entries but database.writer.max_retries is ");
                push_decimal(&mut text, *expected as u64);
            },
            ValidationError::MustBePositive { key } => {
                text.append(key);
                text.append(" must be greater than zero");
            },
            ValidationError::RepetitionCountTooLow(count) => {
                text.append("rules.draw.repetition_count = ");
                push_decimal(&mut text, *count as u64);
                text.append(
                    " would draw a game at the opening position; a repetition rule needs at least two occurrences to have seen one",
                );
            },
        }
        text
    }
}

impl ValidationWarning {
    pub open spec fn spec_message(&self) -> Seq<char> {
        match self {
            ValidationWarning::ShardContention { shard_count, lab_worker_threads } =>
                "engine.transposition.shard_count = "@ + decimal(*shard_count as nat)
                + " does not comfortably exceed engine.lab.worker_threads = "@ + decimal(
                *lab_worker_threads as nat,
            ) + "; expect shard contention"@,
            ValidationWarning::FailureThresholdClamped =>
                "face.circuit_breaker.failure_threshold = 0 is clamped to 1 at runtime; the breaker will trip on the first counted failure"@,
            ValidationWarning::HalfOpenProbesUnwired =>
                "face.circuit_breaker.half_open_probes is not yet wired to the breaker, which always admits exactly one probe; this value has no effect"@,
            ValidationWarning::HighVisitEdgesUnwired =>
                "lab.sampling.only_store_high_visit_edges is not yet wired to the sampler; this value has no effect"@,
            ValidationWarning::DrawPolicyUnwired =>
                "rules.draw is not yet wired to the rules core or the game loop, which do not adjudicate draws yet; this value has no effect"@,
            ValidationWarning::DrawPolicyDeparts {
                non_progress_plies,
                non_progress_reset,
                repetition_count,
                repetition_window,
            } => joined(
                departed_key_names(
                    *non_progress_plies,
                    *non_progress_reset,
                    *repetition_count,
                    *repetition_window,
                ),
            )
                + " departs from the english_draughts draw rules; games played under this policy are still recorded with rules = \"english_draughts\""@,
            ValidationWarning::LabTimeBudget =>
                "engine.lab.time_budget_ms is non-zero; a time-bounded search is a function of machine load, and a batch whose strength varies with what else the machine was doing produces training data with an invisible confound"@,
            ValidationWarning::MmapExceedsBudget { mmap_size_gb } => "database.mmap_size_gb = "@
                + decimal(*mmap_size_gb as nat)
                + " exceeds the whole memory budget; it is not counted as process memory, but a window this large is not free on a host this size"@,
            ValidationWarning::ModelUnreadable { profile, path } => "face."@ + profile@
                + ".model_path ("@ + path@
                + ") is not readable; its deadline feasibility could not be checked"@,
            ValidationWarning::InactiveProfileDeadline(failure) => failure.spec_message()
                + " - this profile is not the active one, so the process will start, but a device change would turn this into a silent outage"@,
            ValidationWarning::HostMemoryExceeded { budget_gb, host_bytes } =>
                "limits.max_total_memory_gb = "@ + decimal(*budget_gb as nat)
                + " GB exceeds the host's "@ + gb_text(*host_bytes)
                + " GB of RAM; the budget is not a budget on this machine"@,
        }
    }

    /// The description of the finding, naming the keys it concerns.
    pub fn message(&self) -> (text: String)
        ensures
            text@ == self.spec_message(),
    {
        let mut text = String::new();
        match self {
            ValidationWarning::ShardContention { shard_count, lab_worker_threads } => {
                text.append("engine.transposition.shard_count = ");
                push_decimal(&mut text, *shard_count as u64);
                text.append(" does not comfortably exceed engine.lab.worker_threads = ");
                push_decimal(&mut text, *lab_worker_threads as u64);
                text.append("; expect shard contention");
            },
            ValidationWarning::FailureThresholdClamped => {
                text.append(
                    "face.circuit_breaker.failure_threshold = 0 is clamped to 1 at runtime; the breaker will trip on the first counted failure",
                );
            },
            ValidationWarning::HalfOpenProbesUnwired => {
                text.append(
                    "face.circuit_breaker.half_open_probes is not yet wired to the breaker, which always admits exactly one probe; this value has no effect",
                );
            },
            ValidationWarning::HighVisitEdgesUnwired => {
                text.append(
                    "lab.sampling.only_store_high_visit_edges is not yet wired to the sampler; this value has no effect",
                );
            },
            ValidationWarning::DrawPolicyUnwired => {
                text.append(
                    "rules.draw is not yet wired to the rules core or the game loop, which do not adjudicate draws yet; this value has no effect",
                );
            },
            ValidationWarning::DrawPolicyDeparts {
                non_progress_plies,
                non_progress_reset,
                repetition_count,
                repetition_window,
            } => {
                let keys = self.departed_keys();
                let ghost names = departed_key_names(
                    *non_progress_plies,
                    *non_progress_reset,
                    *repetition_count,
                    *repetition_window,
                );
                let mut i: usize = 0;
                while i < keys.len()
                    invariant
                        keys@.map_values(|key: &'static str| key@) == names,
                        i <= keys@.len(),
                        text@ == joined(names.take(i as int)),
                    decreases keys@.len() - i,
                {
                    proof {
                        assert(names.take(i + 1).drop_last() =~= names.take(i as int));
                    }
                    if i > 0 {
                        text.append(", ");
                    }
                    text.append(keys[i]);
                    proof {
                        if i == 0 {
                            assert(names.take(1) =~= seq![names[0]]);
                        }
                    }
                    i = i + 1;
                }
                proof {
                    assert(names.take(keys@.len() as int) =~= names);
                }
                text.append(
                    " departs from the english_draughts draw rules; games played under this policy are still recorded with rules = \"english_draughts\"",
                );
            },
            ValidationWarning::LabTimeBudget => {
                text.append(
                    "engine.lab.time_budget_ms is non-zero; a time-bounded search is a function of machine load, and a batch whose strength varies with what else the machine was doing produces training data with an invisible confound",
                );
            },
            ValidationWarning::MmapExceedsBudget { mmap_size_gb } => {
                text.append("database.mmap_size_gb = ");
                push_decimal(&mut text, *mmap_size_gb);
                text.append(
                    " exceeds the whole memory budget; it is not counted as process memory, but a window this large is not free on a host this size",
                );
            },
            ValidationWarning::ModelUnreadable { profile, path } => {
                text.append("face.");
                text.append(profile);
                text.append(".model_path (");
                text.append(path.as_str());
                text.append(") is not readable; its deadline feasibility could not be checked");
            },
            ValidationWarning::InactiveProfileDeadline(failure) => {
                text = failure.message();
                text.append(
                    " - this profile is not the active one, so the process will start, but a device change would turn this into a silent outage",
                );
            },
            ValidationWarning::HostMemoryExceeded { budget_gb, host_bytes } => {
                text.append("limits.max_total_memory_gb = ");
                push_decimal(&mut text, *budget_gb);
                text.append(" GB exceeds the host's ");
                push_gb(&mut text, *host_bytes);
                text.append(" GB of RAM; the budget is not a budget on this machine");
            },
        }
        text
    }
}

} // verus!
