//! The circuit breaker.
//!
//! Commentary is optional; gameplay is not. Without a breaker, a model that has
//! begun timing out imposes its full deadline on every later request. The
//! breaker turns a persistent fault into one cheap decision per request while
//! it is open.

use vstd::prelude::*;

use std::sync::Arc;
use std::time::{Duration, Instant};

use super::FaceError;
use crate::config::CircuitBreakerConfig;

verus! {

#[derive(Clone, Copy, PartialEq, Eq, Debug, Structural)]
pub enum CircuitState {
    Closed,
    Open,
    HalfOpen,
}

impl CircuitState {
    pub open spec fn spec_as_i64(self) -> i64 {
        match self {
            CircuitState::Closed => 0,
            CircuitState::Open => 1,
            CircuitState::HalfOpen => 2,
        }
    }

    /// The persisted `face_events.circuit_state` encoding.
    pub fn as_i64(self) -> (code: i64)
        ensures
            code == self.spec_as_i64(),
    {
        match self {
            CircuitState::Closed => 0,
            CircuitState::Open => 1,
            CircuitState::HalfOpen => 2,
        }
    }

    pub open spec fn spec_from_u8(raw: u8) -> CircuitState {
        if raw == 1 {
            CircuitState::Open
        } else if raw == 2 {
            CircuitState::HalfOpen
        } else {
            CircuitState::Closed
        }
    }

    /// Decode a stored state; anything unknown reads as closed.
    pub fn from_u8(raw: u8) -> (state: CircuitState)
        ensures
            state == CircuitState::spec_from_u8(raw),
    {
        if raw == 1 {
            CircuitState::Open
        } else if raw == 2 {
            CircuitState::HalfOpen
        } else {
            CircuitState::Closed
        }
    }
}

/// Decoding the persisted code of a state gives the state back.
pub proof fn law_circuit_state_code_round_trip(state: CircuitState)
    ensures
        CircuitState::spec_from_u8(state.spec_as_i64() as u8) == state,
{
}

#[derive(Clone, Copy, PartialEq, Eq, Debug, Structural)]
pub enum Admission {
    /// Go to the primary adapter.
    Allow,
    /// Serve canned. No inference is attempted.
    ShortCircuit,
}

/// Monotonic milliseconds since process start. Injected, so that a test can
/// advance past a long cooldown without sleeping through it.
pub trait MonotonicClock {
    fn now_ms(&self) -> u64;
}

#[verifier::external_type_specification]
#[verifier::external_body]
pub struct ExInstant(Instant);

/// `Instant::now`: a reading of the monotonic clock. Nothing is claimed of
/// its value.
#[verifier::external_body]
fn instant_now() -> Instant {
    Instant::now()
}

/// `Instant::elapsed`: the time since `origin`. Nothing is claimed of it; it
/// depends on when it is called.
#[verifier::external_body]
fn elapsed_since(origin: &Instant) -> Duration {
    origin.elapsed()
}

/// `Duration::as_millis`: the whole milliseconds in a duration. Nothing is
/// claimed of it beyond its type.
#[verifier::external_body]
fn whole_millis(duration: &Duration) -> u128 {
    duration.as_millis()
}

pub struct SystemClock {
    origin: Instant,
}

impl SystemClock {
    pub fn new() -> Arc<SystemClock> {
        Arc::new(SystemClock { origin: instant_now() })
    }
}

impl MonotonicClock for SystemClock {
    fn now_ms(&self) -> u64 {
        let millis = whole_millis(&elapsed_since(&self.origin));
        #[verifier::truncate]
        (millis as u64)
    }
}

/// `x + 1`, wrapping at the top of the range: a diagnostic counter that
/// overflows starts again rather than stopping the breaker.
pub open spec fn wrapping_inc(x: u64) -> u64 {
    if x == u64::MAX {
        0
    } else {
        (x + 1) as u64
    }
}

fn wrapping_increment(x: u64) -> (y: u64)
    ensures
        y == wrapping_inc(x),
{
    if x == u64::MAX {
        0
    } else {
        x + 1
    }
}

/// `a - b`, or zero where `b > a`.
pub open spec fn sat_sub(a: u64, b: u64) -> u64 {
    if a >= b {
        (a - b) as u64
    } else {
        0
    }
}

/// Everything a breaker remembers, as plain values.
#[derive(Clone, Copy, PartialEq, Eq, Debug, Structural)]
pub struct BreakerState {
    pub circuit: CircuitState,
    pub consecutive_failures: u32,
    pub opened_at_ms: u64,
    /// Single-probe admission: at most one request enters a half-open
    /// circuit, however many arrive at once.
    pub half_open_token: bool,
    /// Set when the model could not be loaded at all. Suppresses the cooldown,
    /// so that the circuit keeps reporting open.
    pub permanently_open: bool,
    pub failure_threshold: u32,
    pub cooldown_ms: u64,
    pub trips: u64,
    pub short_circuited: u64,
}

impl BreakerState {
    /// The states a breaker can be in.
    pub open spec fn well_formed(self) -> bool {
        &&& self.failure_threshold >= 1
        &&& self.permanently_open ==> (self.circuit == CircuitState::Open && !self.half_open_token)
        &&& self.circuit == CircuitState::Closed ==> self.half_open_token
        &&& (self.circuit == CircuitState::Open && !self.permanently_open) ==> self.half_open_token
    }

    pub open spec fn initial(failure_threshold: u32, cooldown_seconds: u64) -> BreakerState {
        BreakerState {
            circuit: CircuitState::Closed,
            consecutive_failures: 0,
            opened_at_ms: 0,
            half_open_token: true,
            permanently_open: false,
            failure_threshold: if failure_threshold < 1 {
                1
            } else {
                failure_threshold
            },
            cooldown_ms: crate::config::validate::sat_mul(cooldown_seconds as int, 1000),
            trips: 0,
            short_circuited: 0,
        }
    }

    pub open spec fn cooldown_elapsed(self, now_ms: u64) -> bool {
        sat_sub(now_ms, self.opened_at_ms) >= self.cooldown_ms
    }

    pub open spec fn cooldown_remaining_seconds(self, now_ms: u64) -> u64 {
        if self.circuit != CircuitState::Open {
            0
        } else {
            (sat_sub(self.cooldown_ms, sat_sub(now_ms, self.opened_at_ms)) / 1000) as u64
        }
    }

    pub open spec fn short_circuit(self) -> (BreakerState, Admission) {
        (BreakerState { short_circuited: wrapping_inc(self.short_circuited), ..self }, Admission::ShortCircuit)
    }

    /// The single probe of a half-open circuit: the first request takes the
    /// token, every later one is short-circuited.
    pub open spec fn after_probe_attempt(self) -> (BreakerState, Admission) {
        if self.half_open_token {
            (BreakerState { half_open_token: false, ..self }, Admission::Allow)
        } else {
            self.short_circuit()
        }
    }

    pub open spec fn after_admit(self, now_ms: u64) -> (BreakerState, Admission) {
        if self.permanently_open {
            self.short_circuit()
        } else {
            match self.circuit {
                CircuitState::Closed => (self, Admission::Allow),
                CircuitState::Open => {
                    if self.cooldown_elapsed(now_ms) {
                        BreakerState { circuit: CircuitState::HalfOpen, ..self }.after_probe_attempt()
                    } else {
                        self.short_circuit()
                    }
                },
                CircuitState::HalfOpen => self.after_probe_attempt(),
            }
        }
    }

    /// Only a request that observed the circuit not open may close it: a
    /// success that arrives after a trip is stale and is dropped.
    pub open spec fn after_success(self) -> BreakerState {
        if self.circuit == CircuitState::Open {
            self
        } else {
            BreakerState {
                consecutive_failures: 0,
                circuit: CircuitState::Closed,
                half_open_token: true,
                ..self
            }
        }
    }

    /// A failure that counts toward the threshold; one that does not leaves
    /// the breaker untouched.
    pub open spec fn after_failure(self, now_ms: u64, counts: bool) -> BreakerState {
        if !counts {
            self
        } else {
            let failures = (self.consecutive_failures + 1) as u32;
            if failures >= self.failure_threshold || self.circuit == CircuitState::HalfOpen {
                BreakerState {
                    consecutive_failures: failures,
                    opened_at_ms: now_ms,
                    circuit: CircuitState::Open,
                    half_open_token: if self.permanently_open {
                        self.half_open_token
                    } else {
                        true
                    },
                    trips: wrapping_inc(self.trips),
                    ..self
                }
            } else {
                BreakerState { consecutive_failures: failures, ..self }
            }
        }
    }

    pub open spec fn after_open_permanently(self, now_ms: u64) -> BreakerState {
        BreakerState {
            opened_at_ms: now_ms,
            circuit: CircuitState::Open,
            half_open_token: false,
            permanently_open: true,
            trips: wrapping_inc(self.trips),
            ..self
        }
    }
}

pub struct CircuitBreaker {
    current: BreakerState,
}

impl View for CircuitBreaker {
    type V = BreakerState;

    closed spec fn view(&self) -> BreakerState {
        self.current
    }
}

impl CircuitBreaker {
    #[verifier::type_invariant]
    spec fn reachable(self) -> bool {
        self.current.well_formed()
    }

    /// A closed breaker. A threshold of zero is read as one; the cooldown
    /// saturates rather than overflowing.
    pub fn new(config: &CircuitBreakerConfig) -> (breaker: CircuitBreaker)
        ensures
            breaker@ == BreakerState::initial(config.failure_threshold, config.cooldown_seconds),
            breaker@.well_formed(),
    {
        let failure_threshold = if config.failure_threshold < 1 {
            1
        } else {
            config.failure_threshold
        };
        let cooldown_ms = match config.cooldown_seconds.checked_mul(1000) {
            Some(ms) => ms,
            None => u64::MAX,
        };
        CircuitBreaker {
            current: BreakerState {
                circuit: CircuitState::Closed,
                consecutive_failures: 0,
                opened_at_ms: 0,
                half_open_token: true,
                permanently_open: false,
                failure_threshold,
                cooldown_ms,
                trips: 0,
                short_circuited: 0,
            },
        }
    }

    /// Everything the breaker currently remembers.
    pub fn snapshot(&self) -> (state: BreakerState)
        ensures
            state == self@,
            state.well_formed(),
    {
        proof {
            use_type_invariant(self);
        }
        self.current
    }

    pub fn state(&self) -> (state: CircuitState)
        ensures
            state == self@.circuit,
    {
        self.current.circuit
    }

    pub fn consecutive_failures(&self) -> (failures: u32)
        ensures
            failures == self@.consecutive_failures,
    {
        self.current.consecutive_failures
    }

    pub fn trips_total(&self) -> (trips: u64)
        ensures
            trips == self@.trips,
    {
        self.current.trips
    }

    pub fn short_circuited_total(&self) -> (count: u64)
        ensures
            count == self@.short_circuited,
    {
        self.current.short_circuited
    }

    /// Seconds until the circuit becomes half-open; `0` when it is not open.
    pub fn cooldown_remaining_seconds(&self, now_ms: u64) -> (seconds: u64)
        ensures
            seconds == self@.cooldown_remaining_seconds(now_ms),
    {
        if self.current.circuit != CircuitState::Open {
            return 0;
        }
        let elapsed = now_ms.saturating_sub(self.current.opened_at_ms);
        self.current.cooldown_ms.saturating_sub(elapsed) / 1000
    }

    /// Cheap enough to call on every commentary request.
    pub fn admit_request(&mut self, now_ms: u64) -> (admission: Admission)
        ensures
            (final(self)@, admission) == old(self)@.after_admit(now_ms),
    {
        proof {
            use_type_invariant(&*self);
        }
        if self.current.permanently_open {
            return self.short_circuit();
        }
        match self.current.circuit {
            CircuitState::Closed => Admission::Allow,
            CircuitState::Open => {
                let elapsed = now_ms.saturating_sub(self.current.opened_at_ms);
                if elapsed >= self.current.cooldown_ms {
                    self.current = BreakerState { circuit: CircuitState::HalfOpen, ..self.current };
                    self.try_take_probe_token()
                } else {
                    self.short_circuit()
                }
            },
            CircuitState::HalfOpen => self.try_take_probe_token(),
        }
    }

    pub fn on_success(&mut self)
        ensures
            final(self)@ == old(self)@.after_success(),
    {
        proof {
            use_type_invariant(&*self);
        }
        if self.current.circuit == CircuitState::Open {
            return ;
        }
        self.current = BreakerState {
            consecutive_failures: 0,
            circuit: CircuitState::Closed,
            half_open_token: true,
            ..self.current
        };
    }

    /// Report a failed request. The failure counter is a `u32`; counting one
    /// more past its top is refused.
    pub fn on_failure(&mut self, now_ms: u64, error: &FaceError)
        requires
            error.spec_counts_toward_trip() ==> old(self)@.consecutive_failures < u32::MAX,
        ensures
            final(self)@ == old(self)@.after_failure(now_ms, error.spec_counts_toward_trip()),
    {
        proof {
            use_type_invariant(&*self);
        }
        if !error.counts_toward_trip() {
            return ;
        }
        let failures = self.current.consecutive_failures + 1;
        let probe_failed = self.current.circuit == CircuitState::HalfOpen;
        if failures >= self.current.failure_threshold || probe_failed {
            let token = if self.current.permanently_open {
                self.current.half_open_token
            } else {
                true
            };
            let trips = wrapping_increment(self.current.trips);
            self.current = BreakerState {
                consecutive_failures: failures,
                opened_at_ms: now_ms,
                circuit: CircuitState::Open,
                half_open_token: token,
                trips,
                ..self.current
            };
        } else {
            self.current = BreakerState { consecutive_failures: failures, ..self.current };
        }
    }

    /// Open the circuit and leave it open: the model could not be loaded, and
    /// retrying a load on a timer will not start it succeeding.
    pub fn open_permanently(&mut self, now_ms: u64)
        ensures
            final(self)@ == old(self)@.after_open_permanently(now_ms),
    {
        proof {
            use_type_invariant(&*self);
        }
        let trips = wrapping_increment(self.current.trips);
        self.current = BreakerState {
            opened_at_ms: now_ms,
            circuit: CircuitState::Open,
            half_open_token: false,
            permanently_open: true,
            trips,
            ..self.current
        };
    }

    fn short_circuit(&mut self) -> (admission: Admission)
        ensures
            (final(self)@, admission) == old(self)@.short_circuit(),
    {
        proof {
            use_type_invariant(&*self);
        }
        let count = wrapping_increment(self.current.short_circuited);
        self.current = BreakerState { short_circuited: count, ..self.current };
        Admission::ShortCircuit
    }

    fn try_take_probe_token(&mut self) -> (admission: Admission)
        requires
            old(self)@.circuit == CircuitState::HalfOpen,
        ensures
            (final(self)@, admission) == old(self)@.after_probe_attempt(),
    {
        proof {
            use_type_invariant(&*self);
        }
        if self.current.half_open_token {
            self.current = BreakerState { half_open_token: false, ..self.current };
            Admission::Allow
        } else {
            self.short_circuit()
        }
    }
}

/// `count` counting failures in a row, all reported at `now_ms`.
pub open spec fn after_failures(state: BreakerState, now_ms: u64, count: nat) -> BreakerState
    decreases count,
{
    if count == 0 {
        state
    } else {
        after_failures(state, now_ms, (count - 1) as nat).after_failure(now_ms, true)
    }
}

/// Every operation keeps a breaker in a reachable state.
pub proof fn law_operations_keep_the_breaker_well_formed(state: BreakerState, now_ms: u64, counts: bool)
    requires
        state.well_formed(),
        counts ==> state.consecutive_failures < u32::MAX,
    ensures
        state.after_admit(now_ms).0.well_formed(),
        state.after_success().well_formed(),
        state.after_failure(now_ms, counts).well_formed(),
        state.after_open_permanently(now_ms).well_formed(),
{
}

/// From a closed breaker with no failures on record, fewer than the threshold
/// of consecutive faults leave the circuit closed, and the threshold-th opens
/// it, counting one trip.
pub proof fn law_the_threshold_th_consecutive_fault_opens_the_circuit(
    state: BreakerState,
    now_ms: u64,
    count: nat,
)
    requires
        state.well_formed(),
        state.circuit == CircuitState::Closed,
        state.consecutive_failures == 0,
        count <= state.failure_threshold,
    ensures
        count < state.failure_threshold ==> after_failures(state, now_ms, count) == (BreakerState {
            consecutive_failures: count as u32,
            ..state
        }),
        count == state.failure_threshold ==> after_failures(state, now_ms, count).circuit
            == CircuitState::Open,
        count == state.failure_threshold ==> after_failures(state, now_ms, count).opened_at_ms
            == now_ms,
        count == state.failure_threshold ==> after_failures(state, now_ms, count).trips
            == wrapping_inc(state.trips),
        count == state.failure_threshold ==> after_failures(state, now_ms, count).half_open_token,
    decreases count,
{
    if count > 0 {
        law_the_threshold_th_consecutive_fault_opens_the_circuit(state, now_ms, (count - 1) as nat);
    }
}

/// Saturation and a disabled layer are not faults: reporting them changes
/// nothing, however many arrive.
pub proof fn law_non_faults_never_trip_the_breaker(state: BreakerState, now_ms: u64)
    ensures
        state.after_failure(now_ms, false) == state,
{
}

/// A success reported while the circuit is not open closes it and resets the
/// failure count; one reported while it is open (a request admitted before the
/// trip) changes nothing, so the cooldown still applies.
pub proof fn law_only_a_current_success_closes_the_circuit(state: BreakerState)
    ensures
        state.circuit != CircuitState::Open ==> state.after_success().circuit
            == CircuitState::Closed,
        state.circuit != CircuitState::Open ==> state.after_success().consecutive_failures == 0,
        state.circuit == CircuitState::Open ==> state.after_success() == state,
{
}

/// An open circuit short-circuits until its cooldown has elapsed; after it,
/// a circuit that is not permanently open admits a probe and turns half-open.
pub proof fn law_an_open_circuit_admits_a_probe_after_its_cooldown(state: BreakerState, now_ms: u64)
    requires
        state.well_formed(),
        state.circuit == CircuitState::Open,
    ensures
        !state.cooldown_elapsed(now_ms) ==> state.after_admit(now_ms).1
            == Admission::ShortCircuit,
        !state.cooldown_elapsed(now_ms) ==> state.after_admit(now_ms).0.circuit
            == CircuitState::Open,
        (state.cooldown_elapsed(now_ms) && !state.permanently_open) ==> state.after_admit(
            now_ms,
        ).1 == Admission::Allow,
        (state.cooldown_elapsed(now_ms) && !state.permanently_open) ==> state.after_admit(
            now_ms,
        ).0.circuit == CircuitState::HalfOpen,
{
}

/// One probe at a time: once a circuit that is not closed has admitted a
/// request, every further request is short-circuited until that probe's
/// outcome is reported.
pub proof fn law_a_half_open_circuit_admits_a_single_probe(
    state: BreakerState,
    first_ms: u64,
    later_ms: u64,
)
    requires
        state.well_formed(),
        state.circuit != CircuitState::Closed,
        state.after_admit(first_ms).1 == Admission::Allow,
    ensures
        state.after_admit(first_ms).0.circuit == CircuitState::HalfOpen,
        state.after_admit(first_ms).0.after_admit(later_ms).1 == Admission::ShortCircuit,
        state.after_admit(first_ms).0.after_admit(later_ms).0.circuit == CircuitState::HalfOpen,
        !state.after_admit(first_ms).0.after_admit(later_ms).0.half_open_token,
{
}

/// A failed probe reopens the circuit with a fresh cooldown, and (unless the
/// circuit is permanently open) leaves it probeable again once that cooldown
/// has passed.
pub proof fn law_a_failed_probe_reopens_with_a_fresh_cooldown(
    state: BreakerState,
    now_ms: u64,
    later_ms: u64,
)
    requires
        state.well_formed(),
        state.circuit == CircuitState::HalfOpen,
        state.consecutive_failures < u32::MAX,
    ensures
        state.after_failure(now_ms, true).circuit == CircuitState::Open,
        state.after_failure(now_ms, true).opened_at_ms == now_ms,
        state.after_failure(now_ms, true).trips == wrapping_inc(state.trips),
        (!state.permanently_open && state.after_failure(now_ms, true).cooldown_elapsed(later_ms))
            ==> state.after_failure(now_ms, true).after_admit(later_ms).1 == Admission::Allow,
{
}

/// A permanently open circuit stays open whatever happens, and never admits a
/// request.
pub proof fn law_a_permanently_open_circuit_never_admits(
    state: BreakerState,
    now_ms: u64,
    counts: bool,
)
    requires
        state.well_formed(),
        state.permanently_open,
        counts ==> state.consecutive_failures < u32::MAX,
    ensures
        state.after_admit(now_ms).1 == Admission::ShortCircuit,
        state.after_admit(now_ms).0.permanently_open,
        state.after_admit(now_ms).0.circuit == CircuitState::Open,
        state.after_success() == state,
        state.after_failure(now_ms, counts).permanently_open,
        state.after_failure(now_ms, counts).circuit == CircuitState::Open,
{
}

/// A run of requests at the given times, with no outcome reported in
/// between: the breaker's state after them, and what each was answered.
pub open spec fn admit_run(state: BreakerState, times: Seq<u64>) -> (BreakerState, Seq<Admission>)
    decreases times.len(),
{
    if times.len() == 0 {
        (state, Seq::empty())
    } else {
        let (before, answers) = admit_run(state, times.drop_last());
        let (after, answer) = before.after_admit(times.last());
        (after, answers.push(answer))
    }
}

/// How many of `answers` admitted a request.
pub open spec fn allowed_count(answers: Seq<Admission>) -> nat
    decreases answers.len(),
{
    if answers.len() == 0 {
        0
    } else {
        allowed_count(answers.drop_last()) + if answers.last() == Admission::Allow {
            1nat
        } else {
            0nat
        }
    }
}

proof fn lemma_allowed_count_zero(answers: Seq<Admission>)
    ensures
        (allowed_count(answers) == 0) == !answers.contains(Admission::Allow),
    decreases answers.len(),
{
    if answers.len() > 0 {
        lemma_allowed_count_zero(answers.drop_last());
        if answers.drop_last().contains(Admission::Allow) {
            let j = choose|j: int| 0 <= j < answers.drop_last().len() && answers.drop_last()[j]
                == Admission::Allow;
            assert(answers[j] == Admission::Allow);
        }
        if answers.contains(Admission::Allow) {
            let j = choose|j: int| 0 <= j < answers.len() && answers[j] == Admission::Allow;
            if j < answers.len() - 1 {
                assert(answers.drop_last()[j] == Admission::Allow);
            }
        }
    }
}

/// What one request does to a circuit that is not closed.
proof fn lemma_one_request(state: BreakerState, now_ms: u64)
    requires
        state.well_formed(),
        state.circuit != CircuitState::Closed,
    ensures
        state.after_admit(now_ms).0.well_formed(),
        state.after_admit(now_ms).0.circuit != CircuitState::Closed,
        state.after_admit(now_ms).0.permanently_open == state.permanently_open,
        state.after_admit(now_ms).1 == Admission::Allow ==> state.half_open_token
            && !state.after_admit(now_ms).0.half_open_token,
        state.after_admit(now_ms).1 != Admission::Allow ==> state.after_admit(now_ms).0.half_open_token
            == state.half_open_token,
        state.circuit == CircuitState::HalfOpen ==> (state.after_admit(now_ms).1
            == Admission::Allow <==> state.half_open_token),
        (state.after_admit(now_ms).1 == Admission::ShortCircuit) <==> (state.after_admit(
            now_ms,
        ).0.short_circuited == wrapping_inc(state.short_circuited)),
{
}

proof fn lemma_run_invariant(state: BreakerState, times: Seq<u64>)
    requires
        state.well_formed(),
        state.circuit != CircuitState::Closed,
    ensures
        admit_run(state, times).0.well_formed(),
        admit_run(state, times).0.circuit != CircuitState::Closed,
        admit_run(state, times).0.permanently_open == state.permanently_open,
        admit_run(state, times).0.half_open_token == (state.half_open_token && !admit_run(
            state,
            times,
        ).1.contains(Admission::Allow)),
        admit_run(state, times).1.len() == times.len(),
        allowed_count(admit_run(state, times).1) <= 1,
        !state.half_open_token ==> allowed_count(admit_run(state, times).1) == 0,
    decreases times.len(),
{
    if times.len() > 0 {
        let prev = times.drop_last();
        lemma_run_invariant(state, prev);
        let (before, answers) = admit_run(state, prev);
        lemma_one_request(before, times.last());
        let run = admit_run(state, times);
        assert(run.1.drop_last() =~= answers);
        lemma_allowed_count_zero(answers);
        lemma_allowed_count_zero(run.1);
        if answers.contains(Admission::Allow) {
            let j = choose|j: int| 0 <= j < answers.len() && answers[j] == Admission::Allow;
            assert(run.1[j] == Admission::Allow);
        }
        if run.1.contains(Admission::Allow) && run.1.last() != Admission::Allow {
            let j = choose|j: int| 0 <= j < run.1.len() && run.1[j] == Admission::Allow;
            assert(answers[j] == Admission::Allow);
        }
    }
}

proof fn lemma_run_len(state: BreakerState, times: Seq<u64>)
    ensures
        admit_run(state, times).1.len() == times.len(),
    decreases times.len(),
{
    if times.len() > 0 {
        lemma_run_len(state, times.drop_last());
    }
}

/// The answer to request `i` of a run, and the state it leaves, are those of
/// the run's first `i` requests followed by that one.
proof fn lemma_run_prefix(state: BreakerState, times: Seq<u64>, i: int)
    requires
        0 <= i < times.len(),
    ensures
        admit_run(state, times).1[i] == admit_run(state, times.take(i)).0.after_admit(times[i]).1,
        admit_run(state, times.take(i + 1)).0 == admit_run(state, times.take(i)).0.after_admit(
            times[i],
        ).0,
    decreases times.len(),
{
    assert(times.take(i + 1).drop_last() =~= times.take(i));
    let prev = times.drop_last();
    let (before, answers) = admit_run(state, prev);
    assert(admit_run(state, times).1 == answers.push(before.after_admit(times.last()).1));
    lemma_run_len(state, prev);
    if i < times.len() - 1 {
        lemma_run_prefix(state, prev, i);
        assert(prev.take(i) =~= times.take(i));
        assert(prev.take(i + 1) =~= times.take(i + 1));
        assert(prev[i] == times[i]);
    } else {
        assert(times.drop_last() =~= times.take(i));
    }
}

/// One probe per opening. Once a circuit is not closed, and until an outcome
/// is reported, it stays not closed; it admits at most one request, and
/// none once its probe has been taken (or ever, when it is permanently
/// open); its probe token is held exactly while no request has been
/// admitted. Whenever such a circuit is half-open, a request is admitted if
/// and only if it holds its token and none has been admitted since; a
/// circuit that has just opened (and not for good) holds its token, so there
/// a request is admitted if and only if none has been since it last opened.
/// Every request it does not
/// admit, and only those, adds one to the short-circuit count.
pub proof fn law_a_circuit_admits_one_probe_per_opening(state: BreakerState, times: Seq<u64>)
    requires
        state.well_formed(),
        state.circuit != CircuitState::Closed,
    ensures
        admit_run(state, times).0.well_formed(),
        admit_run(state, times).0.circuit != CircuitState::Closed,
        admit_run(state, times).0.permanently_open == state.permanently_open,
        admit_run(state, times).0.half_open_token == (state.half_open_token && !admit_run(
            state,
            times,
        ).1.contains(Admission::Allow)),
        admit_run(state, times).1.len() == times.len(),
        allowed_count(admit_run(state, times).1) <= 1,
        !state.half_open_token ==> allowed_count(admit_run(state, times).1) == 0,
        forall|i: int|
            #![trigger admit_run(state, times.take(i))]
            0 <= i < times.len() && admit_run(state, times.take(i)).0.circuit
                == CircuitState::HalfOpen ==> ((admit_run(state, times).1[i] == Admission::Allow)
                <==> (state.half_open_token && !admit_run(state, times.take(i)).1.contains(
                Admission::Allow,
            ))),
        forall|i: int|
            #![trigger admit_run(state, times.take(i))]
            0 <= i < times.len() ==> ((admit_run(state, times).1[i] == Admission::ShortCircuit)
                <==> (admit_run(state, times.take(i + 1)).0.short_circuited == wrapping_inc(
                admit_run(state, times.take(i)).0.short_circuited,
            ))),
        state.circuit == CircuitState::Open && !state.permanently_open ==> forall|i: int|
            #![trigger admit_run(state, times.take(i))]
            0 <= i < times.len() && admit_run(state, times.take(i)).0.circuit
                == CircuitState::HalfOpen ==> ((admit_run(state, times).1[i] == Admission::Allow)
                <==> !admit_run(state, times.take(i)).1.contains(Admission::Allow)),
{
    lemma_run_invariant(state, times);
    assert forall|i: int|
        #![trigger admit_run(state, times.take(i))]
        0 <= i < times.len() && admit_run(state, times.take(i)).0.circuit == CircuitState::HalfOpen
            implies ((admit_run(state, times).1[i] == Admission::Allow) <==> (state.half_open_token
        && !admit_run(state, times.take(i)).1.contains(Admission::Allow))) by {
        lemma_run_prefix(state, times, i);
        lemma_run_invariant(state, times.take(i));
        lemma_one_request(admit_run(state, times.take(i)).0, times[i]);
    }
    assert forall|i: int|
        #![trigger admit_run(state, times.take(i))]
        0 <= i < times.len() implies ((admit_run(state, times).1[i] == Admission::ShortCircuit)
        <==> (admit_run(state, times.take(i + 1)).0.short_circuited == wrapping_inc(
        admit_run(state, times.take(i)).0.short_circuited,
    ))) by {
        lemma_run_prefix(state, times, i);
        lemma_run_invariant(state, times.take(i));
        lemma_one_request(admit_run(state, times.take(i)).0, times[i]);
    }
}

} // verus!
