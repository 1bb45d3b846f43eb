//! The retry policy: which outcomes are tried again, how often, and after
//! what delay.
use vstd::prelude::*;
use crate::classify::{CopyResult, is_transient_error, retryable};

verus! {

/// What to do after an attempt.
#[derive(Debug, Clone, Copy, PartialEq, Eq, Structural)]
pub enum RetryDecision {
    /// Wait the retry delay, then attempt again.
    Retry,
    /// Return this attempt's outcome.
    Finish,
}

/// The decision after attempt number `attempt` (counted from 0) ended with
/// `result`: a transient skip is retried while attempts remain; everything
/// else, and the last permitted attempt, finishes.
pub fn retry_decision(attempt: u32, max_retries: u32, result: &CopyResult) -> (r: RetryDecision)
    ensures
        r == RetryDecision::Retry <==> (attempt < max_retries && retryable(*result)),
{
    match result {
        CopyResult::Skipped(reason) => {
            if is_transient_error(reason.as_str()) && attempt < max_retries {
                RetryDecision::Retry
            } else {
                RetryDecision::Finish
            }
        },
        _ => RetryDecision::Finish,
    }
}

/// The number of attempts made from attempt `attempt` on, when attempt `i`
/// ends with `outcomes[i]`.
pub open spec fn attempts_from(max_retries: nat, attempt: nat, outcomes: Seq<CopyResult>) -> nat
    decreases max_retries - attempt,
{
    if attempt >= max_retries || !retryable(outcomes[attempt as int]) {
        attempt + 1
    } else {
        attempts_from(max_retries, attempt + 1, outcomes)
    }
}

/// The number of attempts made for one file.
pub open spec fn attempts_made(max_retries: nat, outcomes: Seq<CopyResult>) -> nat {
    attempts_from(max_retries, 0, outcomes)
}

/// The outcome that is returned: that of the last attempt made.
pub open spec fn final_outcome(max_retries: nat, outcomes: Seq<CopyResult>) -> CopyResult {
    outcomes[attempts_made(max_retries, outcomes) - 1]
}

proof fn lemma_all_retryable_from(max_retries: nat, attempt: nat, outcomes: Seq<CopyResult>)
    requires
        attempt <= max_retries,
        outcomes.len() > max_retries,
        forall|i: int| 0 <= i <= max_retries ==> retryable(#[trigger] outcomes[i]),
    ensures
        attempts_from(max_retries, attempt, outcomes) == max_retries + 1,
    decreases max_retries - attempt,
{
    if attempt < max_retries {
        lemma_all_retryable_from(max_retries, attempt + 1, outcomes);
    }
}

/// Law: when every attempt ends in a transient skip, the operation is tried
/// exactly `max_retries + 1` times and the last skip is returned.
pub proof fn law_transient_retried_to_limit(max_retries: nat, outcomes: Seq<CopyResult>)
    requires
        outcomes.len() > max_retries,
        forall|i: int| 0 <= i <= max_retries ==> retryable(#[trigger] outcomes[i]),
    ensures
        attempts_made(max_retries, outcomes) == max_retries + 1,
        final_outcome(max_retries, outcomes) == outcomes[max_retries as int],
        final_outcome(max_retries, outcomes) is Skipped,
{
    lemma_all_retryable_from(max_retries, 0, outcomes);
}

/// Law: an attempt that does not end in a transient skip (a permission
/// denial, for one) is the only attempt made.
pub proof fn law_non_transient_single_attempt(max_retries: nat, outcomes: Seq<CopyResult>)
    requires
        outcomes.len() > 0,
        !retryable(outcomes[0]),
    ensures
        attempts_made(max_retries, outcomes) == 1,
        final_outcome(max_retries, outcomes) == outcomes[0],
{
}

/// `2^n`.
pub open spec fn two_pow(n: nat) -> nat
    decreases n,
{
    if n == 0 {
        1
    } else {
        2 * two_pow((n - 1) as nat)
    }
}

/// The factor by which the base delay grows before attempt `attempt + 1`:
/// `2^attempt`, held at `u32::MAX` when larger.
pub fn backoff_multiplier(attempt: u32) -> (r: u32)
    ensures
        r as nat == if two_pow(attempt as nat) <= u32::MAX { two_pow(attempt as nat) } else {
            u32::MAX as nat
        },
{
    let mut r: u32 = 1;
    let mut i: u32 = 0;
    let mut capped = false;
    while i < attempt
        invariant
            i <= attempt,
            capped ==> r == u32::MAX && two_pow(i as nat) > u32::MAX,
            !capped ==> r as nat == two_pow(i as nat),
        decreases attempt - i,
    {
        if capped || r > u32::MAX / 2 {
            r = u32::MAX;
            capped = true;
        } else {
            r = r * 2;
        }
        i += 1;
    }
    proof {
        lemma_two_pow_monotone(i as nat, attempt as nat);
    }
    r
}

proof fn lemma_two_pow_monotone(a: nat, b: nat)
    requires
        a <= b,
    ensures
        two_pow(a) <= two_pow(b),
    decreases b - a,
{
    if a < b {
        lemma_two_pow_monotone(a, (b - 1) as nat);
    }
}

} // verus!
