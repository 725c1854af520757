//! Verified core of the ASM runner's workers: the Moho worker's forward-only
//! fold over committed L1 blocks, the block watcher's cursor and the
//! commitments blocks are submitted under, the order of the anchor-state
//! commit writes, and the prover worker's builder and request handle.

pub mod anchor_store;
pub mod btc;
pub mod errors;
pub mod handle;
pub mod l1;
pub mod proof_store;
pub mod prover;
pub mod service;
pub mod state;
pub mod traits;
pub mod watcher;

pub use anchor_store::{anchor_commit_writes, AnchorWrite};
pub use btc::{block_commitment, block_height, commitment_at, height_or_zero};
pub use errors::{MohoWorkerError, MohoWorkerResult};
pub use handle::ProverWorkerHandle;
pub use l1::{parent_commitment, L1BlockCommitment, L1BlockId};
pub use proof_store::{proof_record, proof_table, ProofId, ProofRecord, ProofTable};
pub use prover::{ProverError, ProverWorkerBuilder, ProverWorkerParts};
pub use service::{MohoWorkerService, MohoWorkerStatus};
pub use state::MohoWorkerServiceState;
pub use traits::{AsmStateProvider, MohoStateStore, MohoWorkerContext};
pub use watcher::{on_failure, BlockWatcher, WatchFailure, WatchReaction, WatchStep};
