//! What the Moho worker reads from and writes to.
//!
//! The worker derives each Moho state from the ASM anchor state (and logs) the
//! ASM worker already committed, then persists it. The two concerns are split
//! so that an implementor can back them with whatever subsystem it likes;
//! [`MohoWorkerContext`] is the umbrella, implemented for every type that
//! implements both.

use vstd::prelude::*;

use crate::errors::{MohoWorkerError, MohoWorkerResult};
use crate::l1::L1BlockCommitment;

verus! {

/// Reads the ASM anchor states and logs the Moho worker derives from.
///
/// The anchor state and logs of a block are committed by the ASM worker before
/// it announces the block, so what this provider holds for a block is fixed:
/// [`spec_anchor_state`](Self::spec_anchor_state) and
/// [`spec_anchor_logs`](Self::spec_anchor_logs) describe it.
pub trait AsmStateProvider {
    /// The ASM anchor state committed for a block.
    type AnchorState;
    /// One log entry the ASM emitted for a block.
    type LogEntry;

    /// The anchor state committed for `blockid`, if any.
    spec fn spec_anchor_state(&self, blockid: L1BlockCommitment) -> Option<Self::AnchorState>;

    /// The log entries emitted for `blockid`, if its ASM commit exists.
    spec fn spec_anchor_logs(&self, blockid: L1BlockCommitment) -> Option<Seq<Self::LogEntry>>;

    /// What reading the anchor state of `blockid` gives. A provider whose
    /// reads can fail for other reasons than a missing commit describes them
    /// here; otherwise a read gives back what it holds.
    open spec fn spec_anchor_read(&self, blockid: L1BlockCommitment) -> MohoWorkerResult<Self::AnchorState> {
        match self.spec_anchor_state(blockid) {
            Some(anchor) => Ok(anchor),
            None => Err(MohoWorkerError::MissingAsmState(blockid)),
        }
    }

    /// Whether reading the logs of `blockid` succeeds, and if not, with which
    /// error. A provider whose reads can fail for other reasons than a missing
    /// commit describes them here; otherwise a read succeeds when it holds the
    /// logs.
    open spec fn spec_logs_read(&self, blockid: L1BlockCommitment) -> MohoWorkerResult<()> {
        match self.spec_anchor_logs(blockid) {
            Some(_) => Ok(()),
            None => Err(MohoWorkerError::MissingAsmState(blockid)),
        }
    }

    /// Fetches the anchor state committed by the ASM worker for `blockid`;
    /// fails with [`MissingAsmState`](crate::MohoWorkerError::MissingAsmState)
    /// when there is none.
    fn get_anchor_state(&self, blockid: &L1BlockCommitment) -> (r: MohoWorkerResult<Self::AnchorState>)
        ensures
            r == self.spec_anchor_read(*blockid),
            r matches Ok(a) ==> self.spec_anchor_state(*blockid) == Some(a),
            self.spec_anchor_state(*blockid) is None ==> r == Err::<Self::AnchorState, MohoWorkerError>(
                MohoWorkerError::MissingAsmState(*blockid),
            ),
    ;

    /// Fetches the log entries the ASM worker emitted for `blockid`; an empty
    /// vector means the block had none. The logs are committed alongside the
    /// anchor state, so this fails with
    /// [`MissingAsmState`](crate::MohoWorkerError::MissingAsmState) when the
    /// block's ASM commit is absent.
    fn get_anchor_logs(&self, blockid: &L1BlockCommitment) -> (r: MohoWorkerResult<Vec<Self::LogEntry>>)
        ensures
            r is Ok <==> self.spec_logs_read(*blockid) is Ok,
            r matches Err(e) ==> self.spec_logs_read(*blockid) == Err::<(), MohoWorkerError>(e),
            r matches Ok(logs) ==> self.spec_anchor_logs(*blockid) == Some(logs@),
            self.spec_anchor_logs(*blockid) is None ==> r == Err::<Vec<Self::LogEntry>, MohoWorkerError>(
                MohoWorkerError::MissingAsmState(*blockid),
            ),
    ;
}

/// The entry a store reports as its latest after `state` is stored under
/// `blockid` when its latest entry was `latest`: the newly stored entry,
/// unless the latest one sits at a greater height.
pub open spec fn latest_after_store<M>(
    latest: Option<(L1BlockCommitment, M)>,
    blockid: L1BlockCommitment,
    state: M,
) -> Option<(L1BlockCommitment, M)> {
    match latest {
        Some((b, m)) if blockid.height < b.height => Some((b, m)),
        _ => Some((blockid, state)),
    }
}

/// Persists and loads the derived per-block Moho states.
///
/// [`spec_moho_states`](Self::spec_moho_states) is what the store holds,
/// keyed by block, and [`spec_latest`](Self::spec_latest) the entry it
/// reports as the most recently committed one: the stored entry of the
/// greatest height.
pub trait MohoStateStore {
    /// The Moho state derived for a block.
    type MohoState;

    /// The Moho states the store holds, by block.
    spec fn spec_moho_states(&self) -> Map<L1BlockCommitment, Self::MohoState>;

    /// The most recently committed entry, or `None` when the store is empty.
    spec fn spec_latest(&self) -> Option<(L1BlockCommitment, Self::MohoState)>;

    /// What reading the latest entry gives. A store whose reads can fail
    /// describes it here; otherwise a read gives the latest entry.
    open spec fn spec_latest_read(&self) -> MohoWorkerResult<Option<(L1BlockCommitment, Self::MohoState)>> {
        Ok(self.spec_latest())
    }

    /// What storing `state` under `blockid` gives. A store whose writes can
    /// fail describes it here; otherwise every store succeeds.
    open spec fn spec_store_result(&self, blockid: L1BlockCommitment, state: Self::MohoState) -> MohoWorkerResult<()> {
        Ok(())
    }

    /// Fetches the most recently committed Moho state and the block it is
    /// anchored to, or `None` when the store is empty. Used to resume the
    /// forward-only fold across restarts.
    fn get_latest_moho_state(&self) -> (r: MohoWorkerResult<Option<(L1BlockCommitment, Self::MohoState)>>)
        ensures
            r == self.spec_latest_read(),
            r matches Ok(latest) ==> latest == self.spec_latest(),
    ;

    /// Persists the Moho state derived for `blockid`. What a failed store
    /// leaves behind is up to the backend.
    fn store_moho_state(&mut self, blockid: &L1BlockCommitment, state: &Self::MohoState) -> (r: MohoWorkerResult<()>)
        ensures
            r == old(self).spec_store_result(*blockid, *state),
            r is Ok ==> final(self).spec_moho_states() == old(self).spec_moho_states().insert(*blockid, *state),
            r is Ok ==> final(self).spec_latest() == latest_after_store(old(self).spec_latest(), *blockid, *state),
    ;
}

/// The context the Moho worker interacts with the outside world through.
pub trait MohoWorkerContext: AsmStateProvider + MohoStateStore {}

impl<T> MohoWorkerContext for T where T: AsmStateProvider + MohoStateStore {}

} // verus!
