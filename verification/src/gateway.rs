use vstd::prelude::*;

verus! {

/// What the transfer gateway reported for one requested asset move.
///
/// The gateway itself lives outside this crate: it is the service
/// that physically moves token and settlement balances between the
/// pool's custody and an actor's account. An operation that needs two
/// legs takes both outcomes and commits its reserve update only when
/// every leg completed.
#[derive(Clone, Copy, Debug, PartialEq, Eq)]
pub enum TransferOutcome {
    /// The gateway moved the requested amount.
    Completed,
    /// The gateway rejected the move; no assets changed hands.
    Rejected,
}

/// True exactly when both legs of an operation completed.
pub open spec fn both_completed(first: TransferOutcome, second: TransferOutcome) -> bool {
    first is Completed && second is Completed
}

/// Runtime check matching [`both_completed`].
pub fn check_both_completed(first: TransferOutcome, second: TransferOutcome) -> (ok: bool)
    ensures
        ok == both_completed(first, second),
{
    match (first, second) {
        (TransferOutcome::Completed, TransferOutcome::Completed) => true,
        _ => false,
    }
}

} // verus!
