//! Identifiers of L1 (Bitcoin) blocks as the workers see them.

use vstd::prelude::*;

verus! {

/// Identifier of an L1 block: the 32 bytes of its block hash, in the hash's
/// internal byte order.
#[derive(Clone, Copy, Debug, PartialEq, Eq, Hash, Default)]
pub struct L1BlockId(pub [u8; 32]);

/// A block height together with the identifier of the block at that height.
#[derive(Clone, Copy, Debug, PartialEq, Eq, Hash, Default)]
pub struct L1BlockCommitment {
    pub height: u32,
    pub blkid: L1BlockId,
}

impl L1BlockCommitment {
    /// Pairs a height with a block identifier.
    pub fn new(height: u32, blkid: L1BlockId) -> (c: L1BlockCommitment)
        ensures
            c.height == height,
            c.blkid == blkid,
    {
        L1BlockCommitment { height, blkid }
    }

    /// The height of the committed block.
    pub fn height(&self) -> (h: u32)
        ensures
            h == self.height,
    {
        self.height
    }

    /// The identifier of the committed block.
    pub fn blkid(&self) -> (id: &L1BlockId)
        ensures
            *id == self.blkid,
    {
        &self.blkid
    }
}

/// The commitment of the parent of `block`, given the parent's identifier
/// (the `prev_blockhash` of `block`'s header): one height below `block`.
pub fn parent_commitment(block: &L1BlockCommitment, parent_id: L1BlockId) -> (parent: L1BlockCommitment)
    requires
        block.height > 0,
    ensures
        parent.height == block.height - 1,
        parent.blkid == parent_id,
{
    L1BlockCommitment::new(block.height - 1, parent_id)
}

} // verus!
