//! The availability gate: a bounded retry loop with exponential backoff.
//!
//! A freshly detected file may still be held open by its writer. Before a
//! worker reads a file, its availability is tried up to `max_retries`
//! times. After every failed attempt the caller sleeps; the delay starts at
//! the configured initial delay, doubles after each failure, and is capped
//! at the configured maximum. This component performs no I/O and never
//! sleeps: the driver reports each observation and performs the waits, so
//! the whole retry policy is decided here.

use vstd::prelude::*;
use vstd::arithmetic::power2::lemma2_to64;
use vstd::arithmetic::power2::lemma_pow2_pos;
use vstd::arithmetic::power2::lemma_pow2_unfold;
use vstd::arithmetic::power2::pow2;

use crate::config::ProcessingConfig;

verus! {

/// The backoff cap in milliseconds: the configured cap in seconds, scaled,
/// saturating at the largest representable delay.
pub open spec fn spec_cap_ms(max_retry_delay_sec: nat) -> nat {
    if max_retry_delay_sec * 1000 <= u64::MAX {
        max_retry_delay_sec * 1000
    } else {
        u64::MAX as nat
    }
}

/// The delay slept after the `attempt`-th failed availability check
/// (1-based): the initial delay doubled `attempt - 1` times, capped.
pub open spec fn spec_backoff_delay(initial_ms: nat, cap_ms: nat, attempt: nat) -> nat
    recommends
        attempt >= 1,
{
    if initial_ms * pow2((attempt - 1) as nat) <= cap_ms {
        initial_ms * pow2((attempt - 1) as nat)
    } else {
        cap_ms
    }
}

/// The delay after the `attempt`-th failed check under a given configuration.
pub open spec fn spec_gate_delay(config: ProcessingConfig, attempt: nat) -> nat {
    spec_backoff_delay(
        config.initial_retry_delay_ms as nat,
        spec_cap_ms(config.max_retry_delay_sec as nat),
        attempt,
    )
}

/// Capped doubling takes each backoff delay to the next one.
proof fn lemma_backoff_step(initial_ms: nat, cap_ms: nat, attempt: nat)
    requires
        attempt >= 1,
    ensures
        spec_backoff_delay(initial_ms, cap_ms, attempt + 1) == ({
            let d = spec_backoff_delay(initial_ms, cap_ms, attempt);
            if d > cap_ms / 2 {
                cap_ms
            } else {
                2 * d
            }
        }),
{
    let e = (attempt - 1) as nat;
    lemma_pow2_unfold(attempt);
    lemma_pow2_pos(e);
    let p = pow2(e);
    assert(initial_ms * pow2(attempt) == 2 * (initial_ms * p)) by (nonlinear_arith)
        requires
            pow2(attempt) == 2 * p,
    ;
    let raw = initial_ms * p;
    if raw <= cap_ms {
        if raw > cap_ms / 2 {
            assert(2 * raw > cap_ms);
        } else {
            assert(2 * raw <= cap_ms);
        }
    } else {
        if cap_ms > 0 {
            assert(cap_ms > cap_ms / 2);
        }
        assert(2 * raw > cap_ms);
    }
}

/// The backoff schedule, stated on the delays themselves: the delay after
/// the `attempt`-th failed check never exceeds the cap; the first delay is
/// the initial delay, unless the initial delay already exceeds the cap, in
/// which case it is the cap; and every following delay is the double of the
/// one before it, saturating at the cap.
pub proof fn lemma_gate_delay_law(config: ProcessingConfig, attempt: nat)
    requires
        attempt >= 1,
    ensures
        spec_gate_delay(config, attempt) <= spec_cap_ms(config.max_retry_delay_sec as nat),
        spec_gate_delay(config, 1) == ({
            let cap = spec_cap_ms(config.max_retry_delay_sec as nat);
            if config.initial_retry_delay_ms <= cap {
                config.initial_retry_delay_ms as nat
            } else {
                cap
            }
        }),
        spec_gate_delay(config, attempt + 1) == ({
            let cap = spec_cap_ms(config.max_retry_delay_sec as nat);
            let d = spec_gate_delay(config, attempt);
            if 2 * d <= cap {
                2 * d
            } else {
                cap
            }
        }),
{
    let initial = config.initial_retry_delay_ms as nat;
    let cap = spec_cap_ms(config.max_retry_delay_sec as nat);
    lemma2_to64();
    assert(pow2(0) == 1);
    assert(initial * pow2(0) == initial);
    lemma_backoff_step(initial, cap, attempt);
    let d = spec_backoff_delay(initial, cap, attempt);
    if d > cap / 2 {
        assert(2 * d > cap);
    } else {
        assert(2 * d <= cap);
    }
}

/// What the availability retry loop tells its driver after one observation.
pub enum GateStep {
    /// The file is available: stop retrying and read it.
    Proceed,
    /// The file is not available yet: sleep this long, then check again if
    /// attempts remain.
    Sleep { delay_ms: u64 },
}

/// The state of one file's availability gate.
pub struct AvailabilityGate {
    /// Delay before the first retry, in milliseconds.
    pub initial_delay_ms: u64,
    /// Upper bound on every backoff delay, in milliseconds.
    pub cap_ms: u64,
    /// Maximum number of availability checks.
    pub max_retries: u32,
    /// Number of failed checks so far.
    pub failed_checks: u32,
    /// Delay to sleep after the next failed check.
    pub next_delay_ms: u64,
}

impl AvailabilityGate {
    /// The invariant: the pending delay is always the backoff delay of the
    /// next failure.
    pub open spec fn wf(&self) -> bool {
        &&& self.failed_checks <= self.max_retries
        &&& self.next_delay_ms == spec_backoff_delay(
            self.initial_delay_ms as nat,
            self.cap_ms as nat,
            (self.failed_checks + 1) as nat,
        )
    }

    /// A fresh gate for one file, under the given retry policy.
    pub fn new(config: &ProcessingConfig) -> (g: Self)
        ensures
            g.wf(),
            g.failed_checks == 0,
            g.max_retries == config.max_retries,
            g.initial_delay_ms == config.initial_retry_delay_ms,
            g.cap_ms == spec_cap_ms(config.max_retry_delay_sec as nat),
    {
        let cap_ms: u64 = if config.max_retry_delay_sec <= 18446744073709551u64 {
            config.max_retry_delay_sec * 1000
        } else {
            u64::MAX
        };
        let first_delay: u64 = if config.initial_retry_delay_ms <= cap_ms {
            config.initial_retry_delay_ms
        } else {
            cap_ms
        };
        proof {
            lemma2_to64();
            assert(pow2(0) == 1);
            assert((config.initial_retry_delay_ms as nat) * pow2(0)
                == config.initial_retry_delay_ms as nat);
            assert(first_delay as nat == spec_backoff_delay(
                config.initial_retry_delay_ms as nat,
                cap_ms as nat,
                1,
            ));
        }
        AvailabilityGate {
            initial_delay_ms: config.initial_retry_delay_ms,
            cap_ms,
            max_retries: config.max_retries,
            failed_checks: 0,
            next_delay_ms: first_delay,
        }
    }

    /// Whether another availability check may still be made.
    pub fn attempts_remaining(&self) -> (remaining: bool)
        ensures
            remaining == (self.failed_checks < self.max_retries),
    {
        self.failed_checks < self.max_retries
    }

    /// Record one availability observation. An available file lets the
    /// worker proceed; a failed attempt counts against `max_retries` and
    /// tells the driver how long to sleep before the next one.
    pub fn observe(&mut self, available: bool) -> (step: GateStep)
        requires
            old(self).wf(),
            old(self).failed_checks < old(self).max_retries,
        ensures
            final(self).wf(),
            final(self).initial_delay_ms == old(self).initial_delay_ms,
            final(self).cap_ms == old(self).cap_ms,
            final(self).max_retries == old(self).max_retries,
            available ==> step == GateStep::Proceed && *final(self) == *old(self),
            !available ==> final(self).failed_checks == old(self).failed_checks + 1 && (
            step matches GateStep::Sleep { delay_ms } && delay_ms == spec_backoff_delay(
                old(self).initial_delay_ms as nat,
                old(self).cap_ms as nat,
                (old(self).failed_checks + 1) as nat,
            )),
    {
        if available {
            return GateStep::Proceed;
        }
        let this_delay = self.next_delay_ms;
        let cap = self.cap_ms;
        assert(this_delay <= cap);
        let doubled: u64 = if this_delay > cap / 2 {
            cap
        } else {
            this_delay * 2
        };
        proof {
            lemma_backoff_step(
                self.initial_delay_ms as nat,
                self.cap_ms as nat,
                (self.failed_checks + 1) as nat,
            );
        }
        self.failed_checks = self.failed_checks + 1;
        self.next_delay_ms = doubled;
        GateStep::Sleep { delay_ms: this_delay }
    }
}

/// The index of the first `true` below `bound`, searching from `i`;
/// `bound` when there is none.
pub open spec fn spec_first_true_from(avail: Seq<bool>, i: int, bound: int) -> int
    decreases bound - i,
{
    if i < 0 || i >= bound {
        bound
    } else if avail[i] {
        i
    } else {
        spec_first_true_from(avail, i + 1, bound)
    }
}

/// The index of the first availability check that would succeed, or `bound`
/// when none below `bound` would.
pub open spec fn spec_first_true(avail: Seq<bool>, bound: int) -> int {
    spec_first_true_from(avail, 0, bound)
}

proof fn lemma_first_true_from_at(avail: Seq<bool>, i: int, bound: int, k: int)
    requires
        0 <= i <= k < bound,
        avail[k],
        forall|j: int| i <= j < k ==> !avail[j],
    ensures
        spec_first_true_from(avail, i, bound) == k,
    decreases k - i,
{
    if i < k {
        lemma_first_true_from_at(avail, i + 1, bound, k);
    }
}

proof fn lemma_first_true_from_none(avail: Seq<bool>, i: int, bound: int)
    requires
        0 <= i <= bound,
        forall|j: int| i <= j < bound ==> !avail[j],
    ensures
        spec_first_true_from(avail, i, bound) == bound,
    decreases bound - i,
{
    if i < bound {
        lemma_first_true_from_none(avail, i + 1, bound);
    }
}

/// The outcome of driving one gate to completion.
pub struct GateRun {
    /// Whether the file became available within the allowed attempts.
    pub cleared: bool,
    /// How many availability checks were made.
    pub checks_made: u32,
    /// The backoff delay slept after each failed check, in order.
    pub delays_ms: Vec<u64>,
}

/// Drive a gate over a given availability history: entry `j` tells whether
/// the file would be readable at the `j + 1`-th check.
///
/// Backoff correctness: when the file first becomes available at attempt
/// `k + 1 <= max_retries`, the run clears after exactly `k` failed attempts,
/// and the delay slept after the `i`-th failure is the initial delay doubled
/// `i - 1` times, capped at the configured maximum. Retry exhaustion: a file
/// that never becomes available ends the run uncleared after exactly
/// `max_retries` attempts.
pub fn run_gate(config: &ProcessingConfig, availability: &Vec<bool>) -> (run: GateRun)
    requires
        availability@.len() >= config.max_retries,
    ensures
        run.cleared <==> spec_first_true(availability@, config.max_retries as int)
            < config.max_retries,
        run.cleared ==> run.checks_made == spec_first_true(
            availability@,
            config.max_retries as int,
        ) + 1 && run.delays_ms@.len() == spec_first_true(availability@, config.max_retries as int),
        !run.cleared ==> run.checks_made == config.max_retries && run.delays_ms@.len()
            == config.max_retries,
        forall|i: int|
            0 <= i < run.delays_ms@.len() ==> run.delays_ms@[i] == spec_gate_delay(
                *config,
                (i + 1) as nat,
            ),
{
    let mut gate = AvailabilityGate::new(config);
    let mut delays_ms: Vec<u64> = Vec::new();
    let mut checks_made: u32 = 0;
    let mut cleared = false;
    while checks_made < config.max_retries && !cleared
        invariant
            availability@.len() >= config.max_retries,
            gate.wf(),
            gate.max_retries == config.max_retries,
            gate.initial_delay_ms == config.initial_retry_delay_ms,
            gate.cap_ms == spec_cap_ms(config.max_retry_delay_sec as nat),
            checks_made <= config.max_retries,
            !cleared ==> gate.failed_checks == checks_made && delays_ms@.len() == checks_made && (
            forall|j: int| 0 <= j < checks_made ==> !availability@[j]),
            cleared ==> checks_made >= 1 && availability@[checks_made - 1] && delays_ms@.len()
                == checks_made - 1 && (forall|j: int| 0 <= j < checks_made - 1 ==> !availability@[j]),
            forall|i: int|
                0 <= i < delays_ms@.len() ==> delays_ms@[i] == spec_gate_delay(
                    *config,
                    (i + 1) as nat,
                ),
        decreases config.max_retries - checks_made + (if cleared {
            0int
        } else {
            1int
        }),
    {
        let available = availability[checks_made as usize];
        match gate.observe(available) {
            GateStep::Proceed => {
                cleared = true;
            },
            GateStep::Sleep { delay_ms } => {
                delays_ms.push(delay_ms);
            },
        }
        checks_made = checks_made + 1;
    }
    proof {
        let bound = config.max_retries as int;
        if cleared {
            lemma_first_true_from_at(availability@, 0, bound, checks_made - 1);
        } else {
            lemma_first_true_from_none(availability@, 0, bound);
        }
    }
    GateRun { cleared, checks_made, delays_ms }
}

} // verus!
