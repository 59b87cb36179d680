//! Token accounting for model calls.

use vstd::prelude::*;

verus! {

/// Token counts reported for one model call, or summed over a session.
/// Each counter is present only if the backend reported it.
#[derive(Debug, Clone, Copy, PartialEq, Eq)]
pub struct TokenUsage {
    /// Tokens consumed by the prompt.
    pub prompt_tokens: Option<u64>,
    /// Tokens generated in the reply.
    pub completion_tokens: Option<u64>,
    /// Prompt and reply tokens together.
    pub total_tokens: Option<u64>,
}

impl Default for TokenUsage {
    /// No counter is present.
    fn default() -> (r: Self)
        ensures
            r == spec_no_usage(),
    {
        TokenUsage { prompt_tokens: None, completion_tokens: None, total_tokens: None }
    }
}

/// The usage record without any counter.
pub open spec fn spec_no_usage() -> TokenUsage {
    TokenUsage { prompt_tokens: None, completion_tokens: None, total_tokens: None }
}

/// The sum of two optional counters: present only if both are, and only if
/// it fits a `u64`.
pub open spec fn spec_combine(a: Option<u64>, b: Option<u64>) -> Option<u64> {
    match (a, b) {
        (Some(x), Some(y)) => if x + y <= u64::MAX {
            Some((x + y) as u64)
        } else {
            None
        },
        _ => None,
    }
}

/// The running totals after one more call: each counter is combined with
/// the call's, on its own.
pub open spec fn spec_accumulate(total: TokenUsage, usage: TokenUsage) -> TokenUsage {
    TokenUsage {
        prompt_tokens: spec_combine(total.prompt_tokens, usage.prompt_tokens),
        completion_tokens: spec_combine(total.completion_tokens, usage.completion_tokens),
        total_tokens: spec_combine(total.total_tokens, usage.total_tokens),
    }
}

/// Adds two optional counters. A counter missing on either side makes the
/// sum missing, even if the other side carried a value; so does a sum that
/// a `u64` cannot hold.
pub fn combine_options(a: Option<u64>, b: Option<u64>) -> (r: Option<u64>)
    ensures
        r == spec_combine(a, b),
{
    match (a, b) {
        (Some(a_val), Some(b_val)) => if a_val <= u64::MAX - b_val {
            Some(a_val + b_val)
        } else {
            None
        },
        _ => None,
    }
}

impl TokenUsage {
    /// The running totals after one more call.
    pub fn accumulate(&self, usage: &TokenUsage) -> (r: TokenUsage)
        ensures
            r == spec_accumulate(*self, *usage),
    {
        TokenUsage {
            prompt_tokens: combine_options(self.prompt_tokens, usage.prompt_tokens),
            completion_tokens: combine_options(self.completion_tokens, usage.completion_tokens),
            total_tokens: combine_options(self.total_tokens, usage.total_tokens),
        }
    }
}

/// A sum is missing wherever one side is missing, and is the sum of the two
/// sides wherever both are present and the sum fits a `u64`.
pub proof fn lemma_combine(a: Option<u64>, b: Option<u64>)
    ensures
        a is None || b is None ==> spec_combine(a, b) is None,
        spec_combine(a, b) is Some ==> a is Some && b is Some && spec_combine(a, b)->0 == a->0
            + b->0,
        a is Some && b is Some && a->0 + b->0 <= u64::MAX ==> spec_combine(a, b) == Some(
            (a->0 + b->0) as u64,
        ),
{
}

/// A counter that is missing once stays missing in the running totals,
/// whatever later calls report.
pub proof fn lemma_missing_counter_stays_missing(total: TokenUsage, usage: TokenUsage)
    ensures
        total.prompt_tokens is None ==> spec_accumulate(total, usage).prompt_tokens is None,
        total.completion_tokens is None ==> spec_accumulate(total, usage).completion_tokens
            is None,
        total.total_tokens is None ==> spec_accumulate(total, usage).total_tokens is None,
{
}

} // verus!
