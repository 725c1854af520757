//! Handle for requesting proofs from a running prover worker.

use vstd::prelude::*;

use tokio::sync::mpsc::UnboundedSender;

verus! {

#[verifier::external_type_specification]
#[verifier::external_body]
#[verifier::reject_recursive_types(T)]
pub struct ExUnboundedSender<T>(UnboundedSender<T>);

/// `Clone` of `tokio::sync::mpsc::UnboundedSender`: a new sending half of the
/// same channel. Nothing is stated of the result, which Verus sees as opaque.
pub assume_specification<T>[ <UnboundedSender<T> as Clone>::clone ](sender: &UnboundedSender<T>) -> UnboundedSender<T>;

/// Calls `tokio::sync::mpsc::UnboundedSender::send` and unwraps its error.
/// The crate returns the message inside the error when the receiving half is
/// closed; whether it is closed is not stated.
#[verifier::external_body]
fn send_unbounded<T>(tx: &UnboundedSender<T>, message: T) -> (r: Result<(), T>)
    ensures
        r matches Err(m) ==> m == message,
{
    tx.send(message).map_err(|e| e.0)
}

/// Handle for submitting proof requests (`P`) to a running proof
/// orchestrator: the sending half of its request channel. Cloneable and cheap
/// to pass around; dropping every handle signals the orchestrator to drain
/// and shut down.
#[verifier::reject_recursive_types(P)]
#[derive(Debug, Clone)]
pub struct ProverWorkerHandle<P> {
    tx: UnboundedSender<P>,
}

impl<P> ProverWorkerHandle<P> {
    /// Wraps the sending half of the orchestrator's request channel.
    pub fn new(tx: UnboundedSender<P>) -> (h: Self)
        ensures
            h.spec_sender() == tx,
    {
        ProverWorkerHandle { tx }
    }

    /// The sending half this handle submits through.
    pub closed spec fn spec_sender(&self) -> UnboundedSender<P> {
        self.tx
    }

    /// Requests generation of the proof identified by `proof_id`.
    ///
    /// Hands the unsent request back as the error when the orchestrator has
    /// shut down (its receiving half was dropped).
    pub fn request_proof(&self, proof_id: P) -> (r: Result<(), P>)
        ensures
            r matches Err(p) ==> p == proof_id,
    {
        send_unbounded(&self.tx, proof_id)
    }
}

} // verus!
