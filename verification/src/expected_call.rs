use vstd::prelude::*;

use crate::verify::{mismatch_of, satisfied, Mismatch};

verus! {

/// Mathematical model of one expectation: the configured answer (if any), the
/// declared repeat bound, and how many times it has been invoked so far.
pub struct CallView<Output> {
    pub answer: Option<Output>,
    pub times: usize,
    pub num: usize,
}

/// One configurable, countable behavior slot for a mocked function.
///
/// An expectation starts with no answer, a repeat bound of 1 and an
/// invocation count of 0. The count only ever grows, by one per invocation,
/// and invocation is only permitted while the count is below the bound.
pub struct ExpectedCall<Output> {
    pub(crate) answer: Option<Output>,
    pub(crate) times: usize,
    pub(crate) num: usize,
}

impl<Output> View for ExpectedCall<Output> {
    type V = CallView<Output>;

    closed spec fn view(&self) -> CallView<Output> {
        CallView { answer: self.answer, times: self.times, num: self.num }
    }
}

impl<Output> ExpectedCall<Output> {
    /// A fresh expectation: no answer configured, bound 1, never invoked.
    pub fn new() -> (call: Self)
        ensures
            call@ == (CallView { answer: None::<Output>, times: 1usize, num: 0usize }),
    {
        ExpectedCall { answer: None, times: 1, num: 0 }
    }

    /// An expectation is eligible to fire while its invocation count is
    /// still below its declared repeat bound.
    pub fn can_invoke(&self) -> (eligible: bool)
        ensures
            eligible == (self@.num < self@.times),
    {
        self.num < self.times
    }

    /// Whether an answer has been configured for this expectation.
    pub fn has_answer(&self) -> (configured: bool)
        ensures
            configured == (self@.answer is Some),
    {
        self.answer.is_some()
    }

    /// Set what the mocked function returns when this expectation fires.
    /// Replaces any previously configured answer.
    pub fn answer(&mut self, value: Output) -> (call: &mut Self)
        ensures
            (*call)@.answer == Some(value),
            (*call)@.times == old(self)@.times,
            (*call)@.num == old(self)@.num,
            *final(self) == *final(call),
    {
        self.answer = Some(value);
        self
    }

    /// Override the declared repeat bound. Defaults to 1; a bound of 0 is
    /// legal and makes the expectation permanently ineligible.
    pub fn times(&mut self, times: usize) -> (call: &mut Self)
        ensures
            (*call)@.answer == old(self)@.answer,
            (*call)@.times == times,
            (*call)@.num == old(self)@.num,
            *final(self) == *final(call),
    {
        self.times = times;
        self
    }
}

impl<Output> ExpectedCall<Output> {
    /// Check this expectation's invocation count against its declared bound:
    /// nothing when they match, otherwise the diagnostic with both counts.
    pub fn verify(&self) -> (report: Option<Mismatch>)
        ensures
            satisfied(self@) ==> report is None,
            !satisfied(self@) ==> report == Some(mismatch_of(self@)),
    {
        if self.num == self.times {
            None
        } else {
            Some(Mismatch { expected: self.times, actual: self.num })
        }
    }
}

impl<Output: Copy> ExpectedCall<Output> {
    /// Fire this expectation: bump the invocation count and hand back the
    /// configured answer. Only an eligible expectation with a configured
    /// answer may be invoked; the dispatcher's scan enforces both.
    pub fn invoke(&mut self) -> (result: Output)
        requires
            old(self)@.answer is Some,
            old(self)@.num < old(self)@.times,
        ensures
            final(self)@.answer == old(self)@.answer,
            final(self)@.times == old(self)@.times,
            final(self)@.num == old(self)@.num + 1,
            result == old(self)@.answer->0,
    {
        self.num = self.num + 1;
        self.answer.unwrap()
    }
}

} // verus!
