//! The retry policy of a check: a bounded number of attempts and a fixed wait between
//! them.

use vstd::prelude::*;

verus! {

/// How many times one check queries the feed at most.
pub const MAX_ATTEMPTS: u32 = 3;

/// How long a check waits between two attempts, in seconds.  The wait does not grow.
pub const BACKOFF_SECS: u64 = 3;

/// How long the host lets one query of the feed take, in seconds, before it reports
/// the query as failed.  This bounds a single attempt and is independent of the wait
/// between attempts.
pub const REQUEST_TIMEOUT_SECS: u64 = 30;

/// The mathematical content of a [`RetryState`].
pub struct RetryView {
    pub attempt: nat,
    pub max_attempts: nat,
    pub backoff_secs: nat,
}

impl RetryView {
    /// The attempt counter stays within the bound, and the bound allows one attempt.
    pub open spec fn wf(self) -> bool {
        &&& self.attempt <= self.max_attempts
        &&& 1 <= self.max_attempts
    }

    /// No attempt made yet, under the fixed policy.
    pub open spec fn initial() -> RetryView {
        RetryView {
            attempt: 0,
            max_attempts: MAX_ATTEMPTS as nat,
            backoff_secs: BACKOFF_SECS as nat,
        }
    }

    /// Whether the last allowed attempt has been made.
    pub open spec fn exhausted(self) -> bool {
        self.attempt >= self.max_attempts
    }

    /// The state with one more attempt counted.
    pub open spec fn next(self) -> RetryView {
        RetryView { attempt: self.attempt + 1, ..self }
    }
}

/// The attempt counter of one check, together with the policy it runs under.
#[derive(Clone, Copy, Debug, PartialEq, Eq)]
pub struct RetryState {
    attempt: u32,
    max_attempts: u32,
    backoff_secs: u64,
}

impl View for RetryState {
    type V = RetryView;

    closed spec fn view(&self) -> RetryView {
        RetryView {
            attempt: self.attempt as nat,
            max_attempts: self.max_attempts as nat,
            backoff_secs: self.backoff_secs as nat,
        }
    }
}

impl RetryState {
    #[verifier::type_invariant]
    spec fn inv(self) -> bool {
        self@.wf()
    }

    /// The state before the first attempt.
    pub fn new() -> (state: RetryState)
        ensures
            state@ == RetryView::initial(),
    {
        RetryState { attempt: 0, max_attempts: MAX_ATTEMPTS, backoff_secs: BACKOFF_SECS }
    }

    /// Attempts made so far, never more than [`RetryState::max_attempts`].
    pub fn attempt(&self) -> (count: u32)
        ensures
            count == self@.attempt,
            count <= self@.max_attempts,
    {
        proof {
            use_type_invariant(self);
        }
        self.attempt
    }

    /// The number of attempts allowed, at least one.
    pub fn max_attempts(&self) -> (bound: u32)
        ensures
            bound == self@.max_attempts,
            1 <= bound,
    {
        proof {
            use_type_invariant(self);
        }
        self.max_attempts
    }

    /// The wait between two attempts, in seconds.
    pub fn backoff_secs(&self) -> (secs: u64)
        ensures
            secs == self@.backoff_secs,
    {
        self.backoff_secs
    }

    /// Whether the last allowed attempt has been made.
    pub fn exhausted(&self) -> (done: bool)
        ensures
            done == self@.exhausted(),
    {
        self.attempt >= self.max_attempts
    }

    /// Counts one more attempt.  Returns `None` exactly when none is left.
    pub fn next(&self) -> (next: Option<RetryState>)
        ensures
            match next {
                Some(state) => !self@.exhausted() && state@ == self@.next(),
                None => self@.exhausted(),
            },
    {
        if self.attempt < self.max_attempts {
            Some(
                RetryState {
                    attempt: self.attempt + 1,
                    max_attempts: self.max_attempts,
                    backoff_secs: self.backoff_secs,
                },
            )
        } else {
            None
        }
    }
}

} // verus!
