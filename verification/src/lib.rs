//! A function-mocking core: a registry of repeat-bounded expectations per
//! mocked function, a dispatcher that routes each live call to the earliest
//! still-eligible expectation, and a terminal verification that every
//! expectation was invoked exactly its declared number of times.

mod expected_call;
mod mock;
mod verify;

pub use crate::expected_call::CallView;
pub use crate::expected_call::ExpectedCall;
pub use crate::mock::bumped;
pub use crate::mock::dispatch_outcome;
pub use crate::mock::dispatch_state;
pub use crate::mock::eligible_at;
pub use crate::mock::first_eligible;
pub use crate::mock::lemma_consumed_in_order;
pub use crate::mock::lemma_exhausted_is_fatal;
pub use crate::mock::lemma_first_eligible_at;
pub use crate::mock::lemma_first_eligible_is_earliest;
pub use crate::mock::lemma_zero_bound_skipped;
pub use crate::mock::CallError;
pub use crate::mock::Mock;
pub use crate::verify::lemma_report_faithful;
pub use crate::verify::lemma_verification_exact;
pub use crate::verify::mismatch_of;
pub use crate::verify::mismatches;
pub use crate::verify::satisfied;
pub use crate::verify::Mismatch;
