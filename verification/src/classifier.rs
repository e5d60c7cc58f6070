//! The status classifier shared by every converter: it turns an optional
//! failure descriptor into the canonical tri-state outcome.
//!
//! The classifier takes the failure descriptor and the return-data bytes
//! together and decides the variant and attaches the payload in one step, so
//! a `Success` outcome can never leave this module with a placeholder
//! payload.

use vstd::prelude::*;
use crate::canonical::ExecutionOutcome;
use crate::raw::FailureDescriptor;

verus! {

/// What classification returns: no descriptor means a plain success carrying
/// the full return-data bytes; a descriptor maps to `Revert` or `Halt` by
/// its own classification, with the reason carried over unchanged.
pub open spec fn spec_classify(
    failure: Option<FailureDescriptor>,
    return_data: Vec<u8>,
) -> ExecutionOutcome {
    match failure {
        None => ExecutionOutcome::Success { output: return_data },
        Some(FailureDescriptor::Reverted(reason)) => ExecutionOutcome::Revert { reason },
        Some(FailureDescriptor::Halted(reason)) => ExecutionOutcome::Halt { reason },
    }
}

/// Builds the canonical outcome from a raw failure descriptor and the raw
/// return-data bytes.
pub fn classify(failure: Option<FailureDescriptor>, return_data: Vec<u8>) -> (outcome:
    ExecutionOutcome)
    ensures
        outcome == spec_classify(failure, return_data),
{
    match failure {
        None => ExecutionOutcome::Success { output: return_data },
        Some(FailureDescriptor::Reverted(reason)) => ExecutionOutcome::Revert { reason },
        Some(FailureDescriptor::Halted(reason)) => ExecutionOutcome::Halt { reason },
    }
}

} // verus!
