//! Where the prover keeps each kind of proof.
//!
//! A proof is identified either by the range of L1 blocks an ASM step proof
//! covers, or by the L1 block commitment a Moho recursive proof is anchored
//! to. Each kind lives in a table of its own, keyed by that identifier.

use vstd::prelude::*;

verus! {

/// Identifies a proof: an ASM step proof by its block range (`R`), or a Moho
/// recursive proof by its block commitment (`C`).
pub enum ProofId<R, C> {
    Asm(R),
    Moho(C),
}

/// The table a proof is kept in.
pub enum ProofTable {
    /// ASM step proofs, keyed by block range.
    Asm,
    /// Moho recursive proofs, keyed by block commitment.
    Moho,
}

/// A completed proof receipt (`P`) as it is stored: in its table, under its key.
pub enum ProofRecord<R, C, P> {
    Asm { range: R, proof: P },
    Moho { commitment: C, proof: P },
}

/// The table the proof identified by `id` is looked up in; the key is the
/// identifier's range or commitment.
pub fn proof_table<R, C>(id: &ProofId<R, C>) -> (table: ProofTable)
    ensures
        id is Asm <==> table is Asm,
        id is Moho <==> table is Moho,
{
    match id {
        ProofId::Asm(_) => ProofTable::Asm,
        ProofId::Moho(_) => ProofTable::Moho,
    }
}

/// How the completed receipt of the proof identified by `id` is stored: in
/// the table of its kind, under its range or commitment.
pub fn proof_record<R, C, P>(id: ProofId<R, C>, receipt: P) -> (record: ProofRecord<R, C, P>)
    ensures
        record == match id {
            ProofId::Asm(range) => ProofRecord::<R, C, P>::Asm { range, proof: receipt },
            ProofId::Moho(commitment) => ProofRecord::<R, C, P>::Moho { commitment, proof: receipt },
        },
{
    match id {
        ProofId::Asm(range) => ProofRecord::Asm { range, proof: receipt },
        ProofId::Moho(commitment) => ProofRecord::Moho { commitment, proof: receipt },
    }
}

} // verus!
