//! Errors of the Moho worker.

use vstd::prelude::*;

use crate::l1::L1BlockCommitment;

verus! {

/// Why a Moho worker operation failed.
#[derive(Debug)]
pub enum MohoWorkerError {
    /// The ASM anchor state the Moho state derives from was not found. The ASM
    /// worker commits the anchor state before it announces the block, so a miss
    /// means the ASM and Moho stores are out of sync.
    MissingAsmState(L1BlockCommitment),
    /// The Moho state for a block was not found in the store.
    MissingMohoState(L1BlockCommitment),
    /// The parent of an L1 block commitment could not be resolved.
    MissingParentBlock(L1BlockCommitment),
    /// The underlying Moho-state store failed; carries the backend's message.
    Storage(String),
    /// A required dependency was not supplied.
    MissingDependency(&'static str),
    /// A commitment skipped heights: the worker can only chain a block onto
    /// the block immediately below it.
    NonContiguousBlock { expected: u64, got: u64 },
}

/// Result type of Moho worker operations.
pub type MohoWorkerResult<T> = Result<T, MohoWorkerError>;

} // verus!
