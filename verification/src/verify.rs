use vstd::prelude::*;

use crate::expected_call::CallView;

verus! {

/// One failed count check from verification: an expectation that was invoked
/// a different number of times than its declared repeat bound.
#[derive(Clone, Copy, Debug, PartialEq, Eq, Structural)]
pub struct Mismatch {
    /// The declared repeat bound of the offending expectation.
    pub expected: usize,
    /// How many times the expectation was actually invoked.
    pub actual: usize,
}

impl Mismatch {
    /// The expectation was invoked fewer times than declared.
    pub open spec fn spec_too_few(self) -> bool {
        self.actual < self.expected
    }

    /// The expectation was invoked more times than declared. Unreachable
    /// through dispatch, which never fires an ineligible expectation; it can
    /// only arise from an expectation invoked before registration.
    pub open spec fn spec_too_many(self) -> bool {
        self.actual > self.expected
    }

    /// Classification of this mismatch: too few invocations, as opposed to
    /// too many.
    pub fn too_few(&self) -> (low: bool)
        ensures
            low == self.spec_too_few(),
    {
        self.actual < self.expected
    }
}

/// An expectation passes verification exactly when its invocation count
/// equals its declared repeat bound.
pub open spec fn satisfied<Output>(call: CallView<Output>) -> bool {
    call.num == call.times
}

/// The diagnostic a failing expectation contributes to the verification
/// report.
pub open spec fn mismatch_of<Output>(call: CallView<Output>) -> Mismatch {
    Mismatch { expected: call.times, actual: call.num }
}

/// The verification report of a registry state: one mismatch per failing
/// expectation, in registration order.
pub open spec fn mismatches<Output>(queue: Seq<(u64, CallView<Output>)>) -> Seq<Mismatch>
    decreases queue.len(),
{
    if queue.len() == 0 {
        Seq::empty()
    } else if satisfied(queue.last().1) {
        mismatches(queue.drop_last())
    } else {
        mismatches(queue.drop_last()).push(mismatch_of(queue.last().1))
    }
}

/// Verification passes (reports nothing) exactly when every expectation was
/// invoked exactly its declared number of times; one invocation too few or
/// too many on any expectation makes the report non-empty.
pub proof fn lemma_verification_exact<Output>(queue: Seq<(u64, CallView<Output>)>)
    ensures
        mismatches(queue).len() == 0 <==> (forall|i: int|
            0 <= i < queue.len() ==> satisfied(#[trigger] queue[i].1)),
    decreases queue.len(),
{
    if queue.len() > 0 {
        lemma_verification_exact(queue.drop_last());
        assert(forall|i: int|
            0 <= i < queue.len() - 1 ==> queue.drop_last()[i] == #[trigger] queue[i]);
        assert(queue.last() == queue[queue.len() - 1]);
    }
}

/// Every reported mismatch carries the exact declared and performed counts of
/// some failing expectation, so its too-few / too-many classification is
/// correct; and a mismatch is always one or the other, never an exact match.
pub proof fn lemma_report_faithful<Output>(queue: Seq<(u64, CallView<Output>)>)
    ensures
        forall|k: int| 0 <= k < mismatches(queue).len() ==> exists|i: int|
            0 <= i < queue.len() && !satisfied(#[trigger] queue[i].1)
                && #[trigger] mismatches(queue)[k] == mismatch_of(queue[i].1),
        forall|k: int| 0 <= k < mismatches(queue).len()
            ==> (#[trigger] mismatches(queue)[k]).spec_too_few()
                || mismatches(queue)[k].spec_too_many(),
    decreases queue.len(),
{
    if queue.len() > 0 {
        lemma_report_faithful(queue.drop_last());
        let rest = mismatches(queue.drop_last());
        assert forall|k: int| 0 <= k < mismatches(queue).len() implies exists|i: int|
            0 <= i < queue.len() && !satisfied(#[trigger] queue[i].1)
                && #[trigger] mismatches(queue)[k] == mismatch_of(queue[i].1) by {
            if k < rest.len() {
                let i = choose|i: int|
                    0 <= i < queue.drop_last().len() && !satisfied(
                        #[trigger] queue.drop_last()[i].1,
                    ) && rest[k] == mismatch_of(queue.drop_last()[i].1);
                assert(queue.drop_last()[i] == queue[i]);
                assert(!satisfied(queue[i].1) && mismatches(queue)[k] == mismatch_of(
                    queue[i].1,
                ));
            } else {
                let i = queue.len() - 1;
                assert(!satisfied(queue[i].1) && mismatches(queue)[k] == mismatch_of(
                    queue[i].1,
                ));
            }
        }
    }
}

} // verus!
