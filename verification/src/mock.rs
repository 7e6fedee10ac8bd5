use vstd::prelude::*;

use crate::expected_call::{CallView, ExpectedCall};
use crate::verify::{mismatches, Mismatch};

verus! {

/// Why a live call to a mocked function is fatal instead of producing an
/// answer. Both signal test-author mistakes; callers must treat them as
/// unrecoverable and stop the test.
#[derive(Clone, Copy, Debug, PartialEq, Eq, Structural)]
pub enum CallError {
    /// The earliest eligible expectation has no configured answer.
    NoAnswer,
    /// Every expectation registered for the function is already exhausted,
    /// or none was ever registered. There is no fallback to the function's
    /// original behavior.
    Exhausted,
}

/// One registered expectation together with the identity of the function it
/// answers, in global registration order.
struct Slot<Output> {
    id: u64,
    call: ExpectedCall<Output>,
}

/// The registry: for each mocked function identity, an ordered queue of
/// expectations, matched in declaration order.
///
/// The model of a registry is the sequence of (function identity, expectation)
/// pairs in registration order; the queue of one function is the subsequence
/// carrying its identity.
pub struct Mock<Output> {
    slots: Vec<Slot<Output>>,
}

impl<Output> View for Mock<Output> {
    type V = Seq<(u64, CallView<Output>)>;

    closed spec fn view(&self) -> Seq<(u64, CallView<Output>)> {
        self.slots@.map_values(|slot: Slot<Output>| (slot.id, slot.call@))
    }
}

/// The expectation at position `i` answers function `id` and is still
/// eligible to fire: its invocation count is below its repeat bound.
pub open spec fn eligible_at<Output>(
    queue: Seq<(u64, CallView<Output>)>,
    id: u64,
    i: int,
) -> bool {
    0 <= i < queue.len() && queue[i].0 == id && queue[i].1.num < queue[i].1.times
}

/// The position of the earliest expectation for `id` that is still eligible,
/// or -1 when none is.
pub open spec fn first_eligible<Output>(queue: Seq<(u64, CallView<Output>)>, id: u64) -> int
    decreases queue.len(),
{
    if queue.len() == 0 {
        -1
    } else if queue[0].0 == id && queue[0].1.num < queue[0].1.times {
        0
    } else {
        let rest = first_eligible(queue.drop_first(), id);
        if rest < 0 {
            -1
        } else {
            rest + 1
        }
    }
}

/// An expectation after one invocation: same answer and bound, count one
/// higher.
pub open spec fn bumped<Output>(call: CallView<Output>) -> CallView<Output> {
    CallView { answer: call.answer, times: call.times, num: (call.num + 1) as usize }
}

/// What a live call to function `id` produces: the answer of the earliest
/// still-eligible expectation, or the fatal condition when that expectation
/// has no answer or no expectation is eligible.
pub open spec fn dispatch_outcome<Output>(
    queue: Seq<(u64, CallView<Output>)>,
    id: u64,
) -> Result<Output, CallError> {
    let pick = first_eligible(queue, id);
    if pick < 0 {
        Err(CallError::Exhausted)
    } else if queue[pick].1.answer is None {
        Err(CallError::NoAnswer)
    } else {
        Ok(queue[pick].1.answer->0)
    }
}

/// The registry after a live call to function `id`: the expectation that
/// fired has its count bumped; on a fatal outcome nothing changes.
pub open spec fn dispatch_state<Output>(
    queue: Seq<(u64, CallView<Output>)>,
    id: u64,
) -> Seq<(u64, CallView<Output>)> {
    let pick = first_eligible(queue, id);
    if pick < 0 || queue[pick].1.answer is None {
        queue
    } else {
        queue.update(pick, (id, bumped(queue[pick].1)))
    }
}

impl<Output> Mock<Output> {
    /// An empty registry: nothing mocked, nothing to verify.
    pub fn new() -> (mock: Self)
        ensures
            mock@ == Seq::<(u64, CallView<Output>)>::empty(),
    {
        let mock = Mock { slots: Vec::new() };
        proof {
            assert(mock@ =~= Seq::<(u64, CallView<Output>)>::empty());
        }
        mock
    }

    /// Whether any expectation is still registered. A registry must not be
    /// discarded while this holds: it has to be verified first, which also
    /// releases every mocked function back to its original behavior.
    pub fn pending(&self) -> (active: bool)
        ensures
            active == (self@.len() > 0),
    {
        self.slots.len() > 0
    }

    /// Register one more expectation for function `id`, appended to that
    /// function's queue, and hand it back for configuration: the caller may
    /// chain `answer` and `times` on it. The final registry holds the
    /// expectation as the caller leaves it.
    pub fn expect(&mut self, id: u64) -> (call: &mut ExpectedCall<Output>)
        ensures
            (*call)@ == (CallView { answer: None::<Output>, times: 1usize, num: 0usize }),
            final(self)@ =~= old(self)@.push((id, final(call)@)),
    {
        let idx = self.slots.len();
        self.slots.push(Slot { id, call: ExpectedCall::new() });
        &mut self.slots[idx].call
    }

    /// Whether function `id` currently has at least one registered
    /// expectation, and therefore an installed redirect.
    pub fn is_mocked(&self, id: u64) -> (mocked: bool)
        ensures
            mocked == (exists|i: int| 0 <= i < self@.len() && #[trigger] self@[i].0 == id),
    {
        let mut i: usize = 0;
        while i < self.slots.len()
            invariant
                0 <= i <= self.slots.len(),
                forall|j: int| 0 <= j < i ==> #[trigger] self@[j].0 != id,
            decreases self.slots.len() - i,
        {
            if self.slots[i].id == id {
                assert(self@[i as int].0 == id);
                return true;
            }
            i = i + 1;
        }
        false
    }
}

impl<Output: Copy> Mock<Output> {
    /// Route one live call to the mocked function `id`: scan that function's
    /// expectation queue in declaration order, fire the earliest expectation
    /// still below its repeat bound, and hand back its configured answer.
    ///
    /// An `Err` is fatal: the caller must abort the test, never fall back to
    /// the function's original behavior.
    pub fn call(&mut self, id: u64) -> (outcome: Result<Output, CallError>)
        ensures
            outcome == dispatch_outcome(old(self)@, id),
            final(self)@ == dispatch_state(old(self)@, id),
    {
        let ghost queue = old(self)@;
        let mut i: usize = 0;
        while i < self.slots.len()
            invariant
                queue == old(self)@,
                self@ == queue,
                queue == self.slots@.map_values(|slot: Slot<Output>| (slot.id, slot.call@)),
                0 <= i <= self.slots.len(),
                forall|j: int| 0 <= j < i ==> !eligible_at(queue, id, j),
            decreases self.slots.len() - i,
        {
            if self.slots[i].id == id && self.slots[i].call.can_invoke() {
                proof {
                    assert(eligible_at(queue, id, i as int));
                    lemma_first_eligible_at(queue, id, i as int);
                }
                if !self.slots[i].call.has_answer() {
                    proof {
                        assert(queue[i as int] == (
                            self.slots@[i as int].id,
                            self.slots@[i as int].call@,
                        ));
                        assert(queue[i as int].1.answer is None);
                    }
                    return Err(CallError::NoAnswer);
                }
                let mut slot = self.slots.remove(i);
                let result = slot.call.invoke();
                self.slots.insert(i, slot);
                proof {
                    assert(self@ =~= dispatch_state(queue, id));
                }
                return Ok(result);
            }
            i = i + 1;
        }
        proof {
            lemma_first_eligible_is_earliest(queue, id);
        }
        Err(CallError::Exhausted)
    }
}

impl<Output> Mock<Output> {
    /// The terminal check: drain every queue, releasing all mocked functions
    /// back to their original behavior, and report every expectation whose
    /// invocation count differs from its declared bound — all of them, in
    /// registration order, not just the first. An empty report is a pass; a
    /// non-empty one is fatal for the test.
    ///
    /// Afterwards the registry holds no live mocks and may be used again as
    /// if freshly constructed.
    pub fn verify(&mut self) -> (report: Vec<Mismatch>)
        ensures
            final(self)@ == Seq::<(u64, CallView<Output>)>::empty(),
            report@ == mismatches(old(self)@),
    {
        let ghost queue = old(self)@;
        let mut report: Vec<Mismatch> = Vec::new();
        let mut k: usize = 0;
        while k < self.slots.len()
            invariant
                queue == old(self)@,
                self@ == queue,
                queue == self.slots@.map_values(|slot: Slot<Output>| (slot.id, slot.call@)),
                0 <= k <= self.slots.len(),
                report@ == mismatches(queue.take(k as int)),
            decreases self.slots.len() - k,
        {
            let check = self.slots[k].call.verify();
            match check {
                Some(flaw) => report.push(flaw),
                None => {},
            }
            proof {
                let prefix = queue.take(k + 1);
                assert(prefix.drop_last() =~= queue.take(k as int));
                assert(prefix.last() == queue[k as int]);
                assert(queue[k as int] == (
                    self.slots@[k as int].id,
                    self.slots@[k as int].call@,
                ));
            }
            k = k + 1;
        }
        proof {
            assert(queue.take(self.slots.len() as int) =~= queue);
        }
        self.slots = Vec::new();
        proof {
            assert(self@ =~= Seq::<(u64, CallView<Output>)>::empty());
        }
        report
    }
}

/// Dispatch scans in declaration order: when any expectation for `id` is
/// eligible, `first_eligible` is such a position and no eligible position
/// precedes it; when none is eligible, it is -1.
pub proof fn lemma_first_eligible_is_earliest<Output>(
    queue: Seq<(u64, CallView<Output>)>,
    id: u64,
)
    ensures
        first_eligible(queue, id) == -1 <==> (forall|j: int| !eligible_at(queue, id, j)),
        first_eligible(queue, id) != -1 ==> eligible_at(queue, id, first_eligible(queue, id)),
        first_eligible(queue, id) != -1 ==> (forall|j: int|
            eligible_at(queue, id, j) ==> first_eligible(queue, id) <= j),
    decreases queue.len(),
{
    if queue.len() == 0 {
        assert(forall|j: int| !eligible_at(queue, id, j));
    } else if queue[0].0 == id && queue[0].1.num < queue[0].1.times {
        assert(eligible_at(queue, id, 0));
    } else {
        let tail = queue.drop_first();
        lemma_first_eligible_is_earliest(tail, id);
        assert(forall|j: int| 0 <= j < tail.len() ==> tail[j] == #[trigger] queue[j + 1]);
        let rest = first_eligible(tail, id);
        if rest < 0 {
            assert forall|j: int| !eligible_at(queue, id, j) by {
                if 0 < j < queue.len() {
                    assert(!eligible_at(tail, id, j - 1));
                }
            }
        } else {
            assert(eligible_at(tail, id, rest));
            assert(eligible_at(queue, id, rest + 1));
            assert forall|j: int| eligible_at(queue, id, j) implies rest + 1 <= j by {
                if 0 < j < queue.len() {
                    assert(eligible_at(tail, id, j - 1));
                }
            }
        }
    }
}

/// An expectation declared with repeat bound 0 is permanently ineligible: a
/// live call never fires it and leaves it untouched, skipping to the next
/// eligible expectation — or exhausting when none remains.
pub proof fn lemma_zero_bound_skipped<Output>(
    queue: Seq<(u64, CallView<Output>)>,
    id: u64,
    i: int,
)
    requires
        0 <= i < queue.len(),
        queue[i].1.times == 0,
    ensures
        !eligible_at(queue, id, i),
        first_eligible(queue, id) != i,
        dispatch_state(queue, id)[i] == queue[i],
{
    lemma_first_eligible_is_earliest(queue, id);
}

/// A live call with no eligible expectation left is fatal, never a silent
/// fallback to the function's original behavior: the outcome is the
/// exhaustion error and the registry is unchanged.
pub proof fn lemma_exhausted_is_fatal<Output>(queue: Seq<(u64, CallView<Output>)>, id: u64)
    requires
        forall|j: int| !eligible_at(queue, id, j),
    ensures
        dispatch_outcome(queue, id) == Err::<Output, CallError>(CallError::Exhausted),
        dispatch_state(queue, id) == queue,
{
    lemma_first_eligible_is_earliest(queue, id);
}

/// Answers are consumed in declaration order: across any sequence of live
/// calls, the position that dispatch fires never moves backwards. A later
/// call fires the same expectation again (while its bound allows) or a
/// strictly later one, never an earlier one.
pub proof fn lemma_consumed_in_order<Output>(queue: Seq<(u64, CallView<Output>)>, id: u64)
    requires
        first_eligible(queue, id) >= 0,
    ensures
        first_eligible(dispatch_state(queue, id), id) == -1 || first_eligible(
            dispatch_state(queue, id),
            id,
        ) >= first_eligible(queue, id),
{
    let pick = first_eligible(queue, id);
    let after = dispatch_state(queue, id);
    lemma_first_eligible_is_earliest(queue, id);
    lemma_first_eligible_is_earliest(after, id);
    let next = first_eligible(after, id);
    if next != -1 && next < pick {
        assert(eligible_at(after, id, next));
        assert(after[next] == queue[next]);
        assert(eligible_at(queue, id, next));
    }
}

/// When an eligible position for `id` has no eligible position before it, it
/// is the one dispatch picks.
pub proof fn lemma_first_eligible_at<Output>(
    queue: Seq<(u64, CallView<Output>)>,
    id: u64,
    i: int,
)
    requires
        eligible_at(queue, id, i),
        forall|j: int| 0 <= j < i ==> !eligible_at(queue, id, j),
    ensures
        first_eligible(queue, id) == i,
{
    lemma_first_eligible_is_earliest(queue, id);
    let pick = first_eligible(queue, id);
    assert(pick != -1);
    assert(pick <= i);
    assert(eligible_at(queue, id, pick));
}

} // verus!
