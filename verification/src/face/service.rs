//! The commentary facade's decisions.
//!
//! Never fails, and never blocks a move: a short-circuited request returns a
//! canned line at once; an admitted one goes to the primary adapter, and its
//! outcome is reported to the breaker before the line (or a canned stand-in)
//! is returned. The caller performs the adapter call between the two steps.

use vstd::prelude::*;

use super::breaker::{Admission, CircuitBreaker};
use super::canned::{is_canned_for, CannedFaceAdapter};
use super::{Commentary, CommentaryContext, FaceError, FallbackReason};

verus! {

/// What a commentary request does after the breaker has been asked.
pub enum CommentaryStep {
    /// The circuit is open: serve this canned line, attempt no inference.
    Serve(Commentary),
    /// Ask the primary adapter, then report with [`finish_commentary`].
    CallPrimary,
}

/// Ask the breaker whether the request may reach the primary adapter.
pub fn begin_commentary(
    breaker: &mut CircuitBreaker,
    fallback: &CannedFaceAdapter,
    context: &CommentaryContext,
    now_ms: u64,
) -> (step: CommentaryStep)
    ensures
        final(breaker)@ == old(breaker)@.after_admit(now_ms).0,
        old(breaker)@.after_admit(now_ms).1 == Admission::Allow ==> step is CallPrimary,
        old(breaker)@.after_admit(now_ms).1 == Admission::ShortCircuit ==> (step matches CommentaryStep::Serve(
            line,
        ) && is_canned_for(line, *context, FallbackReason::CircuitOpen, final(breaker)@.circuit)),
{
    match breaker.admit_request(now_ms) {
        Admission::ShortCircuit => CommentaryStep::Serve(
            fallback.canned(context, FallbackReason::CircuitOpen, breaker.state()),
        ),
        Admission::Allow => CommentaryStep::CallPrimary,
    }
}

/// Report the primary adapter's outcome and produce the line to show: the
/// generated one on success, a canned one naming the failure otherwise.
pub fn finish_commentary(
    breaker: &mut CircuitBreaker,
    fallback: &CannedFaceAdapter,
    context: &CommentaryContext,
    outcome: Result<Commentary, FaceError>,
    now_ms: u64,
) -> (commentary: Commentary)
    requires
        outcome matches Err(error) ==> (error.spec_counts_toward_trip()
            ==> old(breaker)@.consecutive_failures < u32::MAX),
    ensures
        outcome matches Ok(line) ==> final(breaker)@ == old(breaker)@.after_success() && commentary
            == line,
        outcome matches Err(error) ==> final(breaker)@ == old(breaker)@.after_failure(
            now_ms,
            error.spec_counts_toward_trip(),
        ) && is_canned_for(commentary, *context, error.spec_fallback_reason(), final(breaker)@.circuit),
{
    match outcome {
        Ok(line) => {
            breaker.on_success();
            line
        },
        Err(error) => {
            let reason = error.fallback_reason();
            breaker.on_failure(now_ms, &error);
            fallback.canned(context, reason, breaker.state())
        },
    }
}

} // verus!
