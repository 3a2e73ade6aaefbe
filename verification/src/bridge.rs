use vstd::prelude::*;

use crate::errors::SolanaError;

verus! {

/// How a unit of blocking ledger work, submitted to a separate worker
/// execution context, came back: either the worker completed and produced a
/// value, or the worker task itself was lost (panicked or cancelled) before
/// producing one.
#[derive(Debug)]
pub enum BridgeOutcome<T> {
    Completed(T),
    Lost,
}

/// Law: the bridge never invents results and never hides a lost worker. A
/// completed worker's result is returned unchanged, and a lost worker is
/// reported as `UnknownError` — distinct from every domain error, so callers
/// can tell "the call logically failed" from "the execution was lost".
pub fn settle<T>(outcome: BridgeOutcome<Result<T, SolanaError>>) -> (r: Result<T, SolanaError>)
    ensures
        outcome matches BridgeOutcome::Completed(inner) ==> r == inner,
        outcome is Lost ==> r == Err::<T, SolanaError>(SolanaError::UnknownError),
{
    match outcome {
        BridgeOutcome::Completed(inner) => inner,
        BridgeOutcome::Lost => Err(SolanaError::UnknownError),
    }
}

} // verus!
