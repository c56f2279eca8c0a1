//! What the worker does when a batch's request fails: try it again, or drop
//! it and go on with the next batch.
use vstd::prelude::*;

verus! {

/// The decision after a failed request.
#[derive(Debug, Clone, Copy, PartialEq, Eq, Structural)]
pub enum AfterFailure {
    /// Send the same batch again.
    Retry,
    /// Give the batch up; later batches are still attempted.
    Drop,
}

/// How many requests, in all, a batch gets before it is dropped.
#[derive(Debug, Clone, Copy, PartialEq, Eq, Structural)]
pub struct RetryPolicy {
    pub max_attempts: u32,
}

impl RetryPolicy {
    /// One request per batch: a failed batch is dropped at once.
    pub fn no_retry() -> (r: RetryPolicy)
        ensures
            r.max_attempts == 1,
    {
        RetryPolicy { max_attempts: 1 }
    }

    /// Up to `max_attempts` requests per batch.
    pub fn new(max_attempts: u32) -> (r: RetryPolicy)
        ensures
            r.max_attempts == max_attempts,
    {
        RetryPolicy { max_attempts }
    }

    /// After `attempts_made` failed requests for one batch: retry while the
    /// policy allows more, drop otherwise.
    pub fn after_failure(&self, attempts_made: u32) -> (r: AfterFailure)
        ensures
            r == AfterFailure::Retry <==> attempts_made < self.max_attempts,
            r == AfterFailure::Drop <==> attempts_made >= self.max_attempts,
    {
        if attempts_made < self.max_attempts {
            AfterFailure::Retry
        } else {
            AfterFailure::Drop
        }
    }
}

} // verus!
