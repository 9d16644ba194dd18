//! Pauses between the attempts of an operation that may fail.

use vstd::prelude::*;

verus! {

/// A schedule of pauses between the attempts of an operation that may fail:
/// the first pause is `base_ms`, each later one is `factor` times the one
/// before, none is longer than `cap_ms`, and after `max_attempts` attempts no
/// further one is made.
#[derive(Debug, Clone, Copy, PartialEq, Eq, Structural)]
pub struct Backoff {
    pub base_ms: u64,
    pub factor: u64,
    pub max_attempts: u32,
    pub cap_ms: u64,
}

impl Backoff {
    /// The pause before retry number `retry`, counting from zero, before the
    /// cap is applied.
    pub open spec fn uncapped_ms(self, retry: nat) -> nat
        decreases retry,
    {
        if retry == 0 {
            self.base_ms as nat
        } else {
            self.factor as nat * self.uncapped_ms((retry - 1) as nat)
        }
    }

    /// The pause before retry number `retry`, counting from zero.
    pub open spec fn delay_ms(self, retry: nat) -> nat {
        if self.uncapped_ms(retry) <= self.cap_ms {
            self.uncapped_ms(retry)
        } else {
            self.cap_ms as nat
        }
    }

    /// The schedule for writing an event to the store: 50 ms doubled each
    /// time, at most 2 s, five attempts.
    pub open spec fn persist_schedule() -> Backoff {
        Backoff { base_ms: 50, factor: 2, max_attempts: 5, cap_ms: 2000 }
    }

    /// The schedule for an inference call that failed with a retryable
    /// error: 250 ms, 1 s and 4 s before the three retries. Jitter is added
    /// by the caller.
    pub open spec fn provider_schedule() -> Backoff {
        Backoff { base_ms: 250, factor: 4, max_attempts: 4, cap_ms: 4000 }
    }

    /// The schedule for writing an event to the store.
    pub fn persist() -> (policy: Self)
        ensures
            policy == Self::persist_schedule(),
    {
        Backoff { base_ms: 50, factor: 2, max_attempts: 5, cap_ms: 2000 }
    }

    /// The schedule for retrying an inference call.
    pub fn provider() -> (policy: Self)
        ensures
            policy == Self::provider_schedule(),
    {
        Backoff { base_ms: 250, factor: 4, max_attempts: 4, cap_ms: 4000 }
    }

    /// The pause before the next attempt once `retries_made` retries have
    /// failed, or `None` where the attempts are used up.
    pub fn retry_delay(&self, retries_made: u32) -> (delay: Option<u64>)
        ensures
            delay == if retries_made + 1 < self.max_attempts {
                Some(self.delay_ms(retries_made as nat) as u64)
            } else {
                None
            },
            self.delay_ms(retries_made as nat) <= self.cap_ms,
    {
        if retries_made >= self.max_attempts || retries_made + 1 >= self.max_attempts {
            return None;
        }
        if self.factor == 0 {
            proof {
                if retries_made > 0 {
                    assert(self.uncapped_ms(retries_made as nat) == 0) by (nonlinear_arith)
                        requires
                            self.factor == 0,
                            self.uncapped_ms(retries_made as nat) == self.factor as nat
                                * self.uncapped_ms((retries_made - 1) as nat),
                    ;
                }
            }
            return Some(
                if retries_made == 0 {
                    if self.base_ms <= self.cap_ms {
                        self.base_ms
                    } else {
                        self.cap_ms
                    }
                } else {
                    0
                },
            );
        }
        // From here on the pauses never shrink, so one that has reached the
        // cap stays there.
        let mut delay: u64 = if self.base_ms <= self.cap_ms {
            self.base_ms
        } else {
            self.cap_ms
        };
        let mut i: u32 = 0;
        while i < retries_made
            invariant
                0 <= i <= retries_made,
                self.factor >= 1,
                delay == self.delay_ms(i as nat),
            decreases retries_made - i,
        {
            let ghost before = self.uncapped_ms(i as nat);
            let ghost after = self.uncapped_ms((i + 1) as nat);
            proof {
                assert(after == self.factor as nat * before);
                assert(before > self.cap_ms ==> after > self.cap_ms) by (nonlinear_arith)
                    requires
                        after == self.factor as nat * before,
                        self.factor >= 1,
                ;
            }
            proof {
                assert(delay as nat * self.factor as nat <= 0xffff_ffff_ffff_ffffu64 as nat
                    * 0xffff_ffff_ffff_ffffu64 as nat) by (nonlinear_arith)
                    requires
                        delay <= 0xffff_ffff_ffff_ffffu64,
                        self.factor <= 0xffff_ffff_ffff_ffffu64,
                ;
            }
            let product: u128 = delay as u128 * self.factor as u128;
            proof {
                if before <= self.cap_ms {
                    assert(product == after) by (nonlinear_arith)
                        requires
                            product == delay as nat * self.factor as nat,
                            delay == before,
                            after == self.factor as nat * before,
                    ;
                } else {
                    assert(product >= self.cap_ms) by (nonlinear_arith)
                        requires
                            product == delay as nat * self.factor as nat,
                            delay == self.cap_ms,
                            self.factor >= 1,
                    ;
                }
            }
            delay = if product <= self.cap_ms as u128 {
                product as u64
            } else {
                self.cap_ms
            };
            i = i + 1;
        }
        Some(delay)
    }
}

/// A pause with its jitter: the pause itself and, on top of it, the part of
/// `random` that fits into a quarter of the pause.
pub open spec fn jittered_ms(delay_ms: u64, random: u64) -> nat {
    (delay_ms + random % ((delay_ms / 4 + 1) as u64)) as nat
}

/// Adds jitter to a pause. `random` is a number that the caller has drawn;
/// the result lies between the pause and five quarters of it, and is held
/// at the largest pause that can be told.
pub fn jittered(delay_ms: u64, random: u64) -> (pause: u64)
    ensures
        pause == if jittered_ms(delay_ms, random) > u64::MAX {
            u64::MAX
        } else {
            jittered_ms(delay_ms, random) as u64
        },
        delay_ms <= pause,
        pause - delay_ms <= delay_ms / 4,
{
    let spread = delay_ms / 4 + 1;
    delay_ms.saturating_add(random % spread)
}

} // verus!
