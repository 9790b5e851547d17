use vstd::prelude::*;

use crate::error::{classification, classify, ApiFailure, ClassifiedError};

verus! {

/// Retries allowed per request when the command line sets none.
pub const DEFAULT_MAX_RETRIES: usize = 3;

/// Longest wait in seconds before one retry when the command line sets none.
pub const DEFAULT_MAX_WAIT: u64 = 60;

/// When and how long to wait before a throttled request is sent again.
#[derive(Clone, Copy, Debug, PartialEq, Eq)]
pub struct RetryPolicy {
    /// `false`: every request is attempted exactly once.
    pub enabled: bool,
    /// Cap on the number of retries; `None`: as many as the counter holds.
    pub max_retries: Option<usize>,
    /// Cap in seconds on a single wait; `None`: the server's hint as it is.
    pub max_wait: Option<u64>,
}

/// What to do once an attempt has ended.
#[derive(Debug, PartialEq, Eq)]
pub enum Step<T> {
    /// Hand this result to the caller.
    Done(Result<T, ClassifiedError>),
    /// Suspend for `after` seconds, then send the same request again.
    Retry { after: u64 },
}

/// The retry state of one logical request: its policy and the retries made.
#[derive(Debug, PartialEq, Eq)]
pub struct Dispatcher {
    pub policy: RetryPolicy,
    pub retries: usize,
}

/// The largest number of retries the policy admits.
pub open spec fn retry_cap(p: RetryPolicy) -> nat {
    match p.max_retries {
        Some(n) => n as nat,
        None => usize::MAX as nat,
    }
}

/// Whether one more retry may follow `retries` retries already made.
pub open spec fn retry_allowed(p: RetryPolicy, retries: nat) -> bool {
    p.enabled && retries < retry_cap(p)
}

/// The wait before a retry: the server's hint, capped by `max_wait`.
pub open spec fn backoff(p: RetryPolicy, hint: u64) -> u64 {
    match p.max_wait {
        Some(m) => if hint <= m { hint } else { m },
        None => hint,
    }
}

/// Whether a failure of kind `e` after `retries` retries is retried, and after what wait.
pub open spec fn retry_wait(p: RetryPolicy, retries: nat, e: ClassifiedError) -> Option<u64> {
    match e {
        ClassifiedError::RateLimited { retry_after } => if retry_allowed(p, retries) {
            Some(backoff(p, retry_after))
        } else {
            None
        },
        _ => None,
    }
}

/// Number of attempts one request gets, from a state with `retries` retries
/// made, when every attempt is throttled with the same hint.
pub open spec fn throttled_attempts(p: RetryPolicy, retries: nat, hint: u64) -> nat
    decreases retry_cap(p) - retries,
{
    if retry_allowed(p, retries) {
        1 + throttled_attempts(p, retries + 1, hint)
    } else {
        1
    }
}

proof fn lemma_throttled_attempts_from(p: RetryPolicy, n: nat, retries: nat, hint: u64)
    requires
        p.enabled,
        retry_cap(p) == n,
        retries <= n,
    ensures
        throttled_attempts(p, retries, hint) == n - retries + 1,
    decreases n - retries,
{
    if retries < n {
        lemma_throttled_attempts_from(p, n, retries + 1, hint);
    }
}

/// With retries enabled and capped at `n`, a request that is throttled on
/// every attempt is sent exactly `n + 1` times: each of the first `n`
/// throttled outcomes is retried, and the last is returned as it is, still
/// of the throttled kind.
pub proof fn lemma_retry_bound(p: RetryPolicy, n: usize, hint: u64)
    requires
        p.enabled,
        p.max_retries == Some(n),
    ensures
        throttled_attempts(p, 0, hint) == n + 1,
        forall|k: nat|
            k < n ==> #[trigger] retry_wait(p, k, ClassifiedError::RateLimited { retry_after: hint })
                is Some,
        retry_wait(p, n as nat, ClassifiedError::RateLimited { retry_after: hint }) is None,
{
    lemma_throttled_attempts_from(p, n as nat, 0, hint);
}

/// With retries disabled, no outcome of any kind is retried: every request
/// is attempted exactly once.
pub proof fn lemma_retry_disabled(p: RetryPolicy, retries: nat, e: ClassifiedError, hint: u64)
    requires
        !p.enabled,
    ensures
        retry_wait(p, retries, e) is None,
        throttled_attempts(p, 0, hint) == 1,
{
}

/// A wait before a retry never exceeds `max_wait`: it is the smaller of the
/// server's hint and that cap.
pub proof fn lemma_wait_capped(p: RetryPolicy, retries: nat, hint: u64, m: u64)
    requires
        p.max_wait == Some(m),
    ensures
        retry_wait(p, retries, ClassifiedError::RateLimited { retry_after: hint }) matches Some(w)
            ==> w <= m && w <= hint && (w == m || w == hint),
{
}

/// Only a throttled outcome is ever retried.
pub proof fn lemma_only_throttling_retried(p: RetryPolicy, retries: nat, e: ClassifiedError)
    requires
        !(e is RateLimited),
    ensures
        retry_wait(p, retries, e) is None,
{
}

impl RetryPolicy {
    /// The policy that the global options ask for: retries on unless disabled,
    /// with the provider's defaults for the caps that are not given.
    pub fn from_options(no_retry: bool, max_retries: Option<usize>, max_wait: Option<u64>) -> (r:
        RetryPolicy)
        ensures
            r.enabled == !no_retry,
            r.max_retries == Some(
                match max_retries {
                    Some(n) => n,
                    None => DEFAULT_MAX_RETRIES,
                },
            ),
            r.max_wait == Some(
                match max_wait {
                    Some(m) => m,
                    None => DEFAULT_MAX_WAIT,
                },
            ),
    {
        let cap = match max_retries {
            Some(n) => n,
            None => DEFAULT_MAX_RETRIES,
        };
        let wait = match max_wait {
            Some(m) => m,
            None => DEFAULT_MAX_WAIT,
        };
        RetryPolicy { enabled: !no_retry, max_retries: Some(cap), max_wait: Some(wait) }
    }

    /// The wait before a retry after a throttled attempt with this hint.
    pub fn wait_for(&self, hint: u64) -> (r: u64)
        ensures
            r == backoff(*self, hint),
    {
        match self.max_wait {
            Some(m) => if hint <= m {
                hint
            } else {
                m
            },
            None => hint,
        }
    }
}

impl Dispatcher {
    /// A dispatcher for one request, before its first attempt.
    pub fn new(policy: RetryPolicy) -> (r: Dispatcher)
        ensures
            r.policy == policy,
            r.retries == 0,
    {
        Dispatcher { policy, retries: 0 }
    }

    /// Classifies the outcome of an attempt and decides whether it is final.
    /// Success is final as it is; a failure is retried only while throttled
    /// and within the policy, and otherwise returned with its own kind.
    pub fn after_attempt<T>(&mut self, outcome: Result<T, ApiFailure>) -> (r: Step<T>)
        ensures
            final(self).policy == old(self).policy,
            match outcome {
                Ok(v) => r == Step::<T>::Done(Ok(v)) && final(self).retries == old(self).retries,
                Err(f) => match retry_wait(old(self).policy, old(self).retries as nat, classification(f)) {
                    Some(w) => r == Step::<T>::Retry { after: w } && final(self).retries == old(self).retries + 1,
                    None => r == Step::<T>::Done(Err(classification(f))) && final(self).retries == old(self).retries,
                },
            },
    {
        match outcome {
            Ok(v) => Step::Done(Ok(v)),
            Err(f) => {
                let e = classify(f);
                match e {
                    ClassifiedError::RateLimited { retry_after } => {
                        let cap = match self.policy.max_retries {
                            Some(n) => n,
                            None => usize::MAX,
                        };
                        if self.policy.enabled && self.retries < cap {
                            let after = self.policy.wait_for(retry_after);
                            self.retries = self.retries + 1;
                            Step::Retry { after }
                        } else {
                            Step::Done(Err(e))
                        }
                    },
                    _ => Step::Done(Err(e)),
                }
            },
        }
    }
}

} // verus!
