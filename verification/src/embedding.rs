//! The embedding client's handling of failures: which are tried again, and
//! after what delay.

use vstd::prelude::*;

verus! {

/// The kinds of failure that the pipeline tells apart.
#[derive(Debug, PartialEq, Eq, Structural, Clone, Copy)]
pub enum ErrorKind {
    /// Network trouble, a timeout, a server error: worth another try.
    Transient,
    /// The request itself was refused: another try would be refused again.
    PermanentClient,
    /// The stores disagree.
    Integrity,
    /// The configuration is wrong: the worker cannot go on.
    Fatal,
}

/// What an embedding is asked for.
#[derive(Debug, PartialEq, Eq, Structural, Clone, Copy)]
pub enum EmbeddingKind {
    /// A document to be stored.
    Doc,
    /// A query to be searched for.
    Query,
}

/// How failures of the embedding service are retried.
#[derive(Debug, PartialEq, Eq, Structural, Clone, Copy)]
pub struct RetryPolicy {
    /// The delay before the second attempt, in milliseconds.
    pub base_delay_ms: u64,
    /// No delay is longer than this, in milliseconds.
    pub max_delay_ms: u64,
    /// The number of attempts after which the client gives up.
    pub max_attempts: u32,
}

/// What follows a failed attempt.
#[derive(Debug, PartialEq, Eq, Structural, Clone, Copy)]
pub enum Retry {
    /// Try again after this many milliseconds.
    After { delay_ms: u64 },
    /// Report the failure.
    GiveUp,
}

/// Two to the power `n`.
pub open spec fn pow2(n: nat) -> nat
    decreases n,
{
    if n == 0 {
        1
    } else {
        2 * pow2((n - 1) as nat)
    }
}

/// The delay after the failed attempt number `attempt`, counted from one:
/// the base delay, doubled with every further attempt, and never more than
/// the policy's longest delay.
pub open spec fn backoff(policy: RetryPolicy, attempt: nat) -> nat {
    let grown = policy.base_delay_ms * pow2((attempt - 1) as nat);
    if grown <= policy.max_delay_ms {
        grown as nat
    } else {
        policy.max_delay_ms as nat
    }
}

/// What follows the failure of attempt number `attempt`, counted from one:
/// a transient failure is retried after the [`backoff`] delay while attempts
/// are left; any other failure, and the last attempt's, is reported.
pub open spec fn after_failure(policy: RetryPolicy, attempt: u32, kind: ErrorKind) -> Retry {
    if kind == ErrorKind::Transient && 1 <= attempt < policy.max_attempts {
        Retry::After { delay_ms: backoff(policy, attempt as nat) as u64 }
    } else {
        Retry::GiveUp
    }
}

/// The kind of failure that an HTTP status stands for: a client error is
/// permanent, everything else that is no success is transient.
pub open spec fn kind_of_status(status: u16) -> ErrorKind {
    if 400 <= status < 500 {
        ErrorKind::PermanentClient
    } else {
        ErrorKind::Transient
    }
}

proof fn lemma_pow2_grows(n: nat)
    ensures
        pow2(n) >= 1,
        pow2(n + 1) == 2 * pow2(n),
    decreases n,
{
    if n > 0 {
        lemma_pow2_grows((n - 1) as nat);
    }
}

/// The delays of a policy never shrink from one attempt to the next, and
/// none exceeds the policy's longest delay.
pub proof fn lemma_backoff_is_bounded_and_monotone(policy: RetryPolicy, attempt: nat)
    requires
        attempt >= 1,
    ensures
        backoff(policy, attempt) <= policy.max_delay_ms,
        backoff(policy, attempt) <= backoff(policy, attempt + 1),
{
    lemma_pow2_grows((attempt - 1) as nat);
    let a = policy.base_delay_ms * pow2((attempt - 1) as nat);
    let b = policy.base_delay_ms * pow2(attempt);
    assert(b == 2 * a) by (nonlinear_arith)
        requires
            b == policy.base_delay_ms * pow2(attempt),
            a == policy.base_delay_ms * pow2((attempt - 1) as nat),
            pow2(attempt) == 2 * pow2((attempt - 1) as nat),
    ;
    assert(a >= 0) by (nonlinear_arith)
        requires
            a == policy.base_delay_ms * pow2((attempt - 1) as nat),
    ;
}

impl EmbeddingKind {
    /// The name of the kind as the embedding service knows it.
    pub fn name(&self) -> (name: &'static str)
        ensures
            name@ == match self {
                EmbeddingKind::Doc => "doc"@,
                EmbeddingKind::Query => "query"@,
            },
    {
        match self {
            EmbeddingKind::Doc => "doc",
            EmbeddingKind::Query => "query",
        }
    }
}

/// Tells the kind of failure that an HTTP status stands for.
pub fn classify_status(status: u16) -> (kind: ErrorKind)
    ensures
        kind == kind_of_status(status),
{
    if 400 <= status && status < 500 {
        ErrorKind::PermanentClient
    } else {
        ErrorKind::Transient
    }
}

fn delay_after(policy: &RetryPolicy, attempt: u32) -> (delay: u64)
    requires
        attempt >= 1,
    ensures
        delay == backoff(*policy, attempt as nat),
{
    if policy.base_delay_ms == 0 {
        assert(policy.base_delay_ms * pow2((attempt - 1) as nat) == 0) by (nonlinear_arith)
            requires
                policy.base_delay_ms == 0,
        ;
        return 0;
    }
    let mut delay: u64 = policy.base_delay_ms;
    let mut done: u32 = 1;
    proof {
        assert(pow2(0) == 1);
        assert(policy.base_delay_ms * pow2(0) == policy.base_delay_ms);
    }
    while done < attempt && delay <= policy.max_delay_ms / 2
        invariant
            1 <= done <= attempt,
            delay == policy.base_delay_ms * pow2((done - 1) as nat),
        decreases attempt - done,
    {
        proof {
            lemma_pow2_grows((done - 1) as nat);
            assert(policy.base_delay_ms * pow2(done as nat) == 2 * delay) by (nonlinear_arith)
                requires
                    delay == policy.base_delay_ms * pow2((done - 1) as nat),
                    pow2(done as nat) == 2 * pow2((done - 1) as nat),
            ;
        }
        delay = 2 * delay;
        done += 1;
    }
    if done < attempt {
        proof {
            lemma_growth_stays_above(*policy, done as nat, attempt as nat);
        }
        policy.max_delay_ms
    } else if delay <= policy.max_delay_ms {
        delay
    } else {
        policy.max_delay_ms
    }
}

proof fn lemma_growth_stays_above(policy: RetryPolicy, from: nat, to: nat)
    requires
        1 <= from <= to,
        policy.base_delay_ms * pow2((from - 1) as nat) > policy.max_delay_ms / 2,
    ensures
        from < to ==> policy.base_delay_ms * pow2((to - 1) as nat) > policy.max_delay_ms,
        policy.base_delay_ms * pow2((to - 1) as nat) >= policy.base_delay_ms * pow2(
            (from - 1) as nat,
        ),
    decreases to - from,
{
    if from < to {
        lemma_growth_stays_above(policy, from, (to - 1) as nat);
        lemma_pow2_grows((to - 2) as nat);
        let before = policy.base_delay_ms * pow2((to - 2) as nat);
        let now = policy.base_delay_ms * pow2((to - 1) as nat);
        assert(now == 2 * before) by (nonlinear_arith)
            requires
                now == policy.base_delay_ms * pow2((to - 1) as nat),
                before == policy.base_delay_ms * pow2((to - 2) as nat),
                pow2((to - 1) as nat) == 2 * pow2((to - 2) as nat),
        ;
    }
}

/// Decides what follows the failure of attempt number `attempt`, counted
/// from one, as [`after_failure`] says.
pub fn next_attempt(policy: &RetryPolicy, attempt: u32, kind: ErrorKind) -> (retry: Retry)
    ensures
        retry == after_failure(*policy, attempt, kind),
{
    match kind {
        ErrorKind::Transient => {
            if 1 <= attempt && attempt < policy.max_attempts {
                Retry::After { delay_ms: delay_after(policy, attempt) }
            } else {
                Retry::GiveUp
            }
        },
        _ => Retry::GiveUp,
    }
}

} // verus!
