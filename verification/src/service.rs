//! The Moho worker as a service: its status report.

use std::marker::PhantomData;

use vstd::prelude::*;

use crate::l1::L1BlockCommitment;
use crate::state::MohoWorkerServiceState;
use crate::traits::MohoWorkerContext;

verus! {

/// The Moho worker service, driven by the ASM worker's per-block commit
/// stream: each committed block is folded into the worker's state.
pub struct MohoWorkerService<W> {
    _phantom: PhantomData<W>,
}

/// Status information for the Moho worker service.
#[derive(Clone, Debug)]
pub struct MohoWorkerStatus {
    pub is_initialized: bool,
    pub cur_block: Option<L1BlockCommitment>,
    pub processed: u64,
}

impl<W: MohoWorkerContext> MohoWorkerService<W> {
    /// Reports the worker's status: it is initialized, anchored at its
    /// current block, with the number of commits folded since launch.
    pub fn get_status<F>(state: &MohoWorkerServiceState<W, F>) -> (status: MohoWorkerStatus)
        ensures
            status.is_initialized,
            status.cur_block == Some(state.spec_cur_block()),
            status.processed == state.spec_processed(),
    {
        MohoWorkerStatus {
            is_initialized: true,
            cur_block: Some(state.cur_block()),
            processed: state.processed(),
        }
    }
}

} // verus!
