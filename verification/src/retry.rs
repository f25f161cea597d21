//! Backoff schedule shared by the link and session supervisors.

use crate::clock::{after_delay, later};
use vstd::arithmetic::power2::{lemma2_to64, lemma_pow2_strictly_increases, lemma_pow2_unfold, pow2};
use vstd::prelude::*;

verus! {

/// Default delay before the first retry, in milliseconds.
pub const DEFAULT_BASE_DELAY_MS: u64 = 1000;

/// Default upper bound of any retry delay, in milliseconds.
pub const DEFAULT_CAP_DELAY_MS: u64 = 30000;

/// The delay that follows `failures` consecutive failures: the base delay
/// doubled once per failure, never above the cap.
pub open spec fn nominal_delay(base: nat, cap: nat, failures: nat) -> nat {
    if base * pow2(failures) < cap {
        base * pow2(failures)
    } else {
        cap
    }
}

/// The largest amount that jitter may add to a delay: a quarter of it.
pub open spec fn jitter_span(delay: nat) -> nat {
    delay / 4
}

/// A delay with jitter: the nominal delay plus `entropy` folded into the
/// jitter span, never above the cap.
pub open spec fn jittered_delay(nominal: nat, cap: nat, entropy: nat) -> nat {
    let raw = nominal + entropy % (jitter_span(nominal) + 1);
    if raw < cap {
        raw
    } else {
        cap
    }
}

/// Doubling the delay is the same as one more failure.
pub proof fn lemma_nominal_delay_step(base: nat, cap: nat, failures: nat)
    ensures
        nominal_delay(base, cap, failures + 1) == if 2 * nominal_delay(base, cap, failures) < cap {
            2 * nominal_delay(base, cap, failures)
        } else {
            cap
        },
{
    lemma_pow2_unfold(failures + 1);
    assert(pow2(failures + 1) == 2 * pow2(failures));
    assert(base * pow2(failures + 1) == 2 * (base * pow2(failures))) by (nonlinear_arith)
        requires
            pow2(failures + 1) == 2 * pow2(failures),
    ;
}

/// From 64 failures on every positive base has reached any cap that a
/// `u64` can hold.
pub proof fn lemma_nominal_delay_saturates(base: nat, cap: nat, failures: nat)
    requires
        0 < base,
        cap <= u64::MAX,
        64 <= failures,
    ensures
        nominal_delay(base, cap, failures) == cap,
{
    lemma2_to64();
    if 64 < failures {
        lemma_pow2_strictly_increases(64, failures);
    }
    assert(pow2(64) <= pow2(failures));
    assert(base * pow2(failures) >= pow2(failures)) by (nonlinear_arith)
        requires
            0 < base,
    ;
}

/// The nominal delays never shrink as failures accumulate.
pub proof fn lemma_nominal_delay_monotonic(base: nat, cap: nat, fewer: nat, more: nat)
    requires
        fewer <= more,
    ensures
        nominal_delay(base, cap, fewer) <= nominal_delay(base, cap, more),
    decreases more - fewer,
{
    if fewer < more {
        lemma_nominal_delay_monotonic(base, cap, fewer, (more - 1) as nat);
        lemma_nominal_delay_step(base, cap, (more - 1) as nat);
    }
}

/// Jitter keeps a delay between its nominal value and the next nominal
/// value, so a jittered sequence is as ordered as the nominal one.
pub proof fn lemma_jittered_delay_bounds(base: nat, cap: nat, failures: nat, entropy: nat)
    ensures
        nominal_delay(base, cap, failures) <= jittered_delay(
            nominal_delay(base, cap, failures),
            cap,
            entropy,
        ) <= nominal_delay(base, cap, failures + 1),
        jittered_delay(nominal_delay(base, cap, failures), cap, entropy) <= cap,
{
    lemma_nominal_delay_step(base, cap, failures);
    let nominal = nominal_delay(base, cap, failures);
    assert(entropy % (jitter_span(nominal) + 1) <= jitter_span(nominal));
}

/// What a retry budget stands for: its two parameters and the number of
/// failures since the last success.
pub struct RetryBudgetView {
    pub base: nat,
    pub cap: nat,
    pub failures: nat,
}

impl RetryBudgetView {
    /// The budget after one more failure; the count stops at `u32::MAX`.
    pub open spec fn after_failure(self) -> RetryBudgetView {
        RetryBudgetView {
            failures: if self.failures < u32::MAX {
                self.failures + 1
            } else {
                self.failures
            },
            ..self
        }
    }

    /// The budget after a success: no failures are left.
    pub open spec fn after_success(self) -> RetryBudgetView {
        RetryBudgetView { failures: 0, ..self }
    }

    /// The delay before the next attempt, without jitter.
    pub open spec fn delay(self) -> nat {
        nominal_delay(self.base, self.cap, self.failures)
    }

    /// The delay before the next attempt, with jitter drawn from `entropy`.
    pub open spec fn jittered(self, entropy: u64) -> nat {
        jittered_delay(self.delay(), self.cap, entropy as nat)
    }

    /// The time of the next attempt when the delay starts at `now_ms`: a
    /// time beyond the clock's range is its last value.
    pub open spec fn deadline(self, now_ms: u64, entropy: u64) -> u64 {
        later(now_ms, self.jittered(entropy))
    }
}

/// The delays of one supervisor, with or without jitter, never shrink from
/// one failure to the next and never pass the cap; after a success the
/// delay is the base again.
pub proof fn lemma_delay_sequence(budget: RetryBudgetView, entropy: u64, next_entropy: u64)
    requires
        0 < budget.base <= budget.cap <= u64::MAX,
    ensures
        budget.delay() <= budget.after_failure().delay() <= budget.cap,
        budget.jittered(entropy) <= budget.after_failure().jittered(next_entropy) <= budget.cap,
        budget.after_success().delay() == budget.base,
        budget.after_success().jittered(entropy) <= budget.after_failure().jittered(next_entropy),
{
    let next = budget.after_failure();
    lemma_jittered_delay_bounds(budget.base, budget.cap, budget.failures, entropy as nat);
    lemma_jittered_delay_bounds(budget.base, budget.cap, next.failures, next_entropy as nat);
    lemma_jittered_delay_bounds(budget.base, budget.cap, 0, entropy as nat);
    lemma_nominal_delay_monotonic(budget.base, budget.cap, 1, next.failures);
    if budget.failures >= u32::MAX {
        lemma_nominal_delay_saturates(budget.base, budget.cap, budget.failures);
    }
    lemma2_to64();
    assert(budget.base * pow2(0) == budget.base);
}

/// Failure counter and next delay of one supervisor.
pub struct RetryBudget {
    base_ms: u64,
    cap_ms: u64,
    failures: u32,
    next_delay_ms: u64,
}

impl View for RetryBudget {
    type V = RetryBudgetView;

    closed spec fn view(&self) -> RetryBudgetView {
        RetryBudgetView {
            base: self.base_ms as nat,
            cap: self.cap_ms as nat,
            failures: self.failures as nat,
        }
    }
}

impl RetryBudget {
    #[verifier::type_invariant]
    spec fn inv(self) -> bool {
        &&& 0 < self.base_ms <= self.cap_ms
        &&& self.next_delay_ms == nominal_delay(
            self.base_ms as nat,
            self.cap_ms as nat,
            self.failures as nat,
        )
    }

    /// A fresh budget. The base delay must be positive and not above the cap.
    pub fn new(base_ms: u64, cap_ms: u64) -> (budget: Option<RetryBudget>)
        ensures
            budget is Some <==> 0 < base_ms <= cap_ms,
            budget matches Some(b) ==> b@ == (RetryBudgetView {
                base: base_ms as nat,
                cap: cap_ms as nat,
                failures: 0,
            }),
    {
        if base_ms == 0 || base_ms > cap_ms {
            return None;
        }
        proof {
            lemma2_to64();
            assert(base_ms as nat * pow2(0) == base_ms as nat);
        }
        Some(RetryBudget { base_ms, cap_ms, failures: 0, next_delay_ms: base_ms })
    }

    /// The budget with the default base and cap.
    pub fn with_defaults() -> (budget: RetryBudget)
        ensures
            budget@ == (RetryBudgetView {
                base: DEFAULT_BASE_DELAY_MS as nat,
                cap: DEFAULT_CAP_DELAY_MS as nat,
                failures: 0,
            }),
    {
        proof {
            lemma2_to64();
            assert(DEFAULT_BASE_DELAY_MS as nat * pow2(0) == DEFAULT_BASE_DELAY_MS as nat);
        }
        RetryBudget {
            base_ms: DEFAULT_BASE_DELAY_MS,
            cap_ms: DEFAULT_CAP_DELAY_MS,
            failures: 0,
            next_delay_ms: DEFAULT_BASE_DELAY_MS,
        }
    }

    /// The base delay in milliseconds.
    pub fn base_ms(&self) -> (base: u64)
        ensures
            base == self@.base,
            0 < base <= self@.cap,
    {
        proof {
            use_type_invariant(self);
        }
        self.base_ms
    }

    /// The cap in milliseconds.
    pub fn cap_ms(&self) -> (cap: u64)
        ensures
            cap == self@.cap,
            0 < self@.base <= cap,
    {
        proof {
            use_type_invariant(self);
        }
        self.cap_ms
    }

    /// Failures since the last success; the count stops at `u32::MAX`.
    pub fn failures(&self) -> (failures: u32)
        ensures
            failures == self@.failures,
    {
        self.failures
    }

    /// The delay to wait before the next attempt, without jitter.
    pub fn next_delay_ms(&self) -> (delay: u64)
        ensures
            delay == nominal_delay(self@.base, self@.cap, self@.failures),
            self@.failures == 0 ==> delay == self@.base,
            self@.base <= delay <= self@.cap,
    {
        proof {
            use_type_invariant(self);
            lemma2_to64();
            assert(self@.base * pow2(0) == self@.base);
            lemma_nominal_delay_monotonic(self@.base, self@.cap, 0, self@.failures);
        }
        self.next_delay_ms
    }

    /// The delay to wait before the next attempt, with jitter drawn from
    /// `entropy`.
    pub fn jittered_delay_ms(&self, entropy: u64) -> (delay: u64)
        ensures
            delay == jittered_delay(
                nominal_delay(self@.base, self@.cap, self@.failures),
                self@.cap,
                entropy as nat,
            ),
            nominal_delay(self@.base, self@.cap, self@.failures) <= delay <= self@.cap,
    {
        proof {
            use_type_invariant(self);
            lemma_jittered_delay_bounds(self@.base, self@.cap, self@.failures, entropy as nat);
        }
        let span: u64 = self.next_delay_ms / 4;
        let extra: u64 = entropy % (span + 1);
        if extra >= self.cap_ms - self.next_delay_ms {
            self.cap_ms
        } else {
            self.next_delay_ms + extra
        }
    }

    /// The time of the next attempt when the jittered delay starts at
    /// `now_ms`.
    pub fn deadline_after(&self, now_ms: u64, entropy: u64) -> (deadline: u64)
        ensures
            deadline == self@.deadline(now_ms, entropy),
            deadline >= now_ms,
    {
        after_delay(now_ms, self.jittered_delay_ms(entropy))
    }

    /// Counts one failure: the next delay doubles, up to the cap.
    pub fn record_failure(&mut self)
        ensures
            final(self)@ == old(self)@.after_failure(),
    {
        proof {
            use_type_invariant(&*self);
            lemma_nominal_delay_step(self@.base, self@.cap, self@.failures);
            if self.failures == u32::MAX {
                lemma_nominal_delay_saturates(self@.base, self@.cap, self@.failures);
            }
        }
        if self.failures < u32::MAX {
            let doubled: u64 = if self.next_delay_ms >= self.cap_ms - self.next_delay_ms {
                self.cap_ms
            } else {
                self.next_delay_ms + self.next_delay_ms
            };
            *self = RetryBudget {
                base_ms: self.base_ms,
                cap_ms: self.cap_ms,
                failures: self.failures + 1,
                next_delay_ms: doubled,
            };
        }
    }

    /// Forgets all failures: the next delay is the base again.
    pub fn reset(&mut self)
        ensures
            final(self)@ == old(self)@.after_success(),
    {
        proof {
            use_type_invariant(&*self);
            lemma2_to64();
            assert(self@.base * pow2(0) == self@.base);
        }
        *self = RetryBudget {
            base_ms: self.base_ms,
            cap_ms: self.cap_ms,
            failures: 0,
            next_delay_ms: self.base_ms,
        };
    }
}

} // verus!
