//! The retry discipline for a request that fails.
//!
//! A request is attempted once. Each time an attempt fails it is attempted
//! again after a fixed delay, until it has been retried `max_retries` times;
//! the failure of the last attempt is then final. A success ends the
//! exchange at once.

use vstd::prelude::*;

verus! {

/// How often a failed request is retried, and how long to wait before each
/// retry.
#[derive(Clone, Copy, Debug, PartialEq, Eq)]
pub struct RetryPolicy {
    /// The number of attempts after the first.
    pub max_retries: u32,
    /// The wait before each retry, in milliseconds.
    pub retry_delay_ms: u64,
}

/// What follows a failed attempt when `retries` retries have been made
/// already: the delay before the next retry, or nothing when the failure is
/// final.
pub open spec fn after_failure(policy: RetryPolicy, retries: nat) -> Option<u64> {
    if retries < policy.max_retries {
        Some(policy.retry_delay_ms)
    } else {
        None
    }
}

/// How an exchange ended.
pub enum Ending {
    /// An attempt succeeded.
    Succeeded,
    /// The last attempt allowed failed.
    Failed,
    /// More attempts are due than outcomes are known.
    Open,
}

/// The course of one exchange: the attempts made, the delays waited between
/// them, in order, and how it ended.
pub struct Exchange {
    pub attempts: nat,
    pub waits: Seq<u64>,
    pub ending: Ending,
}

/// The course of an exchange from its attempt number `made` on (counting
/// from zero), where `outcomes[i]` tells whether attempt `i` succeeds and
/// `waits` holds the delays waited so far.
pub open spec fn exchange_from(
    policy: RetryPolicy,
    outcomes: Seq<bool>,
    made: nat,
    waits: Seq<u64>,
) -> Exchange
    decreases outcomes.len() - made,
{
    if made >= outcomes.len() {
        Exchange { attempts: made, waits, ending: Ending::Open }
    } else if outcomes[made as int] {
        Exchange { attempts: made + 1, waits, ending: Ending::Succeeded }
    } else {
        match after_failure(policy, made) {
            Some(delay) => exchange_from(policy, outcomes, made + 1, waits.push(delay)),
            None => Exchange { attempts: made + 1, waits, ending: Ending::Failed },
        }
    }
}

/// The course of an exchange whose attempts turn out as `outcomes` say.
pub open spec fn exchange(policy: RetryPolicy, outcomes: Seq<bool>) -> Exchange {
    exchange_from(policy, outcomes, 0, Seq::empty())
}

/// `count` times the delay of `policy`.
pub open spec fn fixed_waits(policy: RetryPolicy, count: nat) -> Seq<u64> {
    Seq::new(count, |i: int| policy.retry_delay_ms)
}

impl RetryPolicy {
    /// The policy of every request of a run: three retries, 200 ms apart.
    pub fn standard() -> (policy: RetryPolicy)
        ensures
            policy == standard_policy(),
    {
        RetryPolicy { max_retries: 3, retry_delay_ms: 200 }
    }

    /// Decides what follows a failed attempt when `retries` retries have
    /// been made already: `Some(delay)` to wait and try once more, `None`
    /// to give up.
    pub fn after_failure(&self, retries: u32) -> (next: Option<u64>)
        ensures
            next == after_failure(*self, retries as nat),
    {
        if retries < self.max_retries {
            Some(self.retry_delay_ms)
        } else {
            None
        }
    }
}

/// Three retries, 200 ms apart.
pub open spec fn standard_policy() -> RetryPolicy {
    RetryPolicy { max_retries: 3, retry_delay_ms: 200 }
}

proof fn lemma_failures_continue(
    policy: RetryPolicy,
    outcomes: Seq<bool>,
    made: nat,
    first_success: nat,
)
    requires
        made <= first_success <= policy.max_retries,
        first_success < outcomes.len(),
        outcomes[first_success as int],
        forall|i: int| 0 <= i < first_success ==> !outcomes[i],
    ensures
        exchange_from(policy, outcomes, made, fixed_waits(policy, made)) == (Exchange {
            attempts: first_success + 1,
            waits: fixed_waits(policy, first_success),
            ending: Ending::Succeeded,
        }),
    decreases first_success - made,
{
    if made < first_success {
        assert(fixed_waits(policy, made).push(policy.retry_delay_ms) =~= fixed_waits(
            policy,
            made + 1,
        ));
        lemma_failures_continue(policy, outcomes, made + 1, first_success);
    }
}

proof fn lemma_failures_exhaust(policy: RetryPolicy, outcomes: Seq<bool>, made: nat)
    requires
        made <= policy.max_retries,
        outcomes.len() > policy.max_retries,
        forall|i: int| 0 <= i <= policy.max_retries ==> !outcomes[i],
    ensures
        exchange_from(policy, outcomes, made, fixed_waits(policy, made)) == (Exchange {
            attempts: policy.max_retries as nat + 1,
            waits: fixed_waits(policy, policy.max_retries as nat),
            ending: Ending::Failed,
        }),
    decreases policy.max_retries - made,
{
    if made < policy.max_retries {
        assert(fixed_waits(policy, made).push(policy.retry_delay_ms) =~= fixed_waits(
            policy,
            made + 1,
        ));
        lemma_failures_exhaust(policy, outcomes, made + 1);
    }
}

/// A request whose every attempt fails is retried exactly `max_retries`
/// times, each time after the fixed delay, before its failure is final.
pub proof fn lemma_retries_exactly_max_before_failure(policy: RetryPolicy, outcomes: Seq<bool>)
    requires
        outcomes.len() > policy.max_retries,
        forall|i: int| 0 <= i <= policy.max_retries ==> !outcomes[i],
    ensures
        exchange(policy, outcomes).ending == Ending::Failed,
        exchange(policy, outcomes).attempts == 1 + policy.max_retries,
        exchange(policy, outcomes).waits == fixed_waits(policy, policy.max_retries as nat),
{
    assert(fixed_waits(policy, 0) =~= Seq::<u64>::empty());
    lemma_failures_exhaust(policy, outcomes, 0);
}

/// A request whose first attempt succeeds is done after that one attempt,
/// with no delay.
pub proof fn lemma_first_success_is_immediate(policy: RetryPolicy, outcomes: Seq<bool>)
    requires
        outcomes.len() > 0,
        outcomes[0],
    ensures
        exchange(policy, outcomes).ending == Ending::Succeeded,
        exchange(policy, outcomes).attempts == 1,
        exchange(policy, outcomes).waits == Seq::<u64>::empty(),
{
}

/// A request that first succeeds at attempt `first_success` (counting from
/// zero), within the retries allowed, ends there: it has been retried
/// `first_success` times, each time after the fixed delay, and nothing is
/// waited after the success.
pub proof fn lemma_success_ends_the_exchange(
    policy: RetryPolicy,
    outcomes: Seq<bool>,
    first_success: nat,
)
    requires
        first_success <= policy.max_retries,
        first_success < outcomes.len(),
        outcomes[first_success as int],
        forall|i: int| 0 <= i < first_success ==> !outcomes[i],
    ensures
        exchange(policy, outcomes).ending == Ending::Succeeded,
        exchange(policy, outcomes).attempts == first_success + 1,
        exchange(policy, outcomes).waits == fixed_waits(policy, first_success),
{
    assert(fixed_waits(policy, 0) =~= Seq::<u64>::empty());
    lemma_failures_continue(policy, outcomes, 0, first_success);
}

} // verus!
