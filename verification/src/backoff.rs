//! Retry delays after transient failures.

use vstd::prelude::*;

verus! {

/// The exponent at which the delay stops growing.
pub const BACKOFF_CAP: u32 = 6;

/// The longest delay, in seconds.
pub const BACKOFF_CEILING_SECONDS: u64 = 64;

/// Two to the power `n`.
pub open spec fn pow2(n: nat) -> nat
    decreases n,
{
    if n == 0 {
        1
    } else {
        2 * pow2((n - 1) as nat)
    }
}

/// The delay, in seconds, before the retry that follows `attempt` earlier
/// failures in a row: `2^attempt`, held at 64.
pub open spec fn backoff_seconds(attempt: nat) -> nat {
    if attempt >= 6 {
        64
    } else {
        pow2(attempt)
    }
}

/// Powers of two never decrease.
pub proof fn lemma_pow2_monotonic(a: nat, b: nat)
    requires
        a <= b,
    ensures
        pow2(a) <= pow2(b),
    decreases b,
{
    if a < b {
        lemma_pow2_monotonic(a, (b - 1) as nat);
    }
}

/// The values of `pow2` up to the cap.
pub proof fn lemma_pow2_small()
    ensures
        pow2(0) == 1,
        pow2(1) == 2,
        pow2(2) == 4,
        pow2(3) == 8,
        pow2(4) == 16,
        pow2(5) == 32,
        pow2(6) == 64,
{
    reveal_with_fuel(pow2, 8);
}

/// The delay is the smaller of `2^attempt` and the ceiling, for every
/// attempt count.
pub proof fn lemma_backoff_is_capped_power(attempt: nat)
    ensures
        backoff_seconds(attempt) == if pow2(attempt) <= 64 {
            pow2(attempt)
        } else {
            64
        },
        1 <= backoff_seconds(attempt) <= 64,
{
    lemma_pow2_small();
    if attempt >= 6 {
        lemma_pow2_monotonic(6, attempt);
        if attempt > 6 {
            lemma_pow2_monotonic(7, attempt);
            reveal_with_fuel(pow2, 8);
        }
    } else {
        lemma_pow2_monotonic(attempt, 6);
        lemma_pow2_monotonic(0, attempt);
    }
}

/// A later attempt never waits less than an earlier one.
pub proof fn lemma_backoff_monotonic(a: nat, b: nat)
    requires
        a <= b,
    ensures
        backoff_seconds(a) <= backoff_seconds(b),
{
    lemma_pow2_small();
    if b < 6 {
        lemma_pow2_monotonic(a, b);
    } else if a < 6 {
        lemma_pow2_monotonic(a, 6);
    }
}

/// The number of seconds to wait after `attempt` consecutive failures.
pub fn exponential_backoff(attempt: u32) -> (delay: u64)
    ensures
        delay == backoff_seconds(attempt as nat),
        delay == if pow2(attempt as nat) <= 64 {
            pow2(attempt as nat)
        } else {
            64
        },
        1 <= delay <= BACKOFF_CEILING_SECONDS,
{
    proof {
        lemma_pow2_small();
        lemma_backoff_is_capped_power(attempt as nat);
    }
    let exponent: u32 = if attempt < BACKOFF_CAP {
        attempt
    } else {
        BACKOFF_CAP
    };
    let mut delay: u64 = 1;
    let mut done: u32 = 0;
    while done < exponent
        invariant
            done <= exponent <= 6,
            delay == pow2(done as nat),
            delay <= 64,
        decreases exponent - done,
    {
        proof {
            lemma_pow2_small();
            lemma_pow2_monotonic((done + 1) as nat, 6);
        }
        delay = delay * 2;
        done = done + 1;
    }
    delay
}

} // verus!
