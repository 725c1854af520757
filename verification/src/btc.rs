//! What the workers read from a Bitcoin block.

use vstd::prelude::*;

use crate::l1::{L1BlockCommitment, L1BlockId};

verus! {

#[verifier::external_type_specification]
#[verifier::external_body]
pub struct ExBlock(bitcoin::Block);

/// The BIP34 height `bitcoin::Block::bip34_block_height` reads from a block,
/// or `None` where it reports none; it depends on the block alone.
pub uninterp spec fn spec_bip34_height(block: bitcoin::Block) -> Option<u64>;

/// The 32 bytes, in internal byte order, of the hash `bitcoin::Block::block_hash`
/// computes for a block; it depends on the block alone.
pub uninterp spec fn spec_block_hash(block: bitcoin::Block) -> [u8; 32];

/// Calls `bitcoin::Block::bip34_block_height`, keeping the height and
/// dropping the reason when there is none. The crate's source returns a height
/// only as `h as u64` of a non-negative `i64`, so a returned height is at most
/// `i64::MAX`.
#[verifier::external_body]
fn bip34_block_height(block: &bitcoin::Block) -> (height: Option<u64>)
    ensures
        height == spec_bip34_height(*block),
        height matches Some(h) ==> h <= i64::MAX,
{
    block.bip34_block_height().ok()
}

/// Calls `bitcoin::Block::block_hash` and takes the hash's 32 bytes (in
/// internal byte order) as the block's identifier.
#[verifier::external_body]
fn block_hash_id(block: &bitcoin::Block) -> (id: L1BlockId)
    ensures
        id.0 == spec_block_hash(*block),
{
    L1BlockId(bitcoin::hashes::Hash::to_byte_array(block.block_hash()))
}

/// The height a block with BIP34 height `bip34_height` is taken at: that
/// height, or 0 when it has none.
pub open spec fn spec_height_or_zero(bip34_height: Option<u64>) -> u64 {
    match bip34_height {
        Some(h) => h,
        None => 0,
    }
}

/// The height a block is taken at: its BIP34 height, or 0 when it has none.
pub fn height_or_zero(bip34_height: Option<u64>) -> (height: u64)
    ensures
        height == spec_height_or_zero(bip34_height),
{
    match bip34_height {
        Some(h) => h,
        None => 0,
    }
}

/// The height of a received block: its BIP34 height, or 0 when it carries none.
pub fn block_height(block: &bitcoin::Block) -> (height: u64)
    ensures
        height == spec_height_or_zero(spec_bip34_height(*block)),
        height <= i64::MAX,
{
    height_or_zero(bip34_block_height(block))
}

/// The commitment a block at `height` with identifier `blkid` is submitted
/// under: the height is truncated to its low 32 bits.
pub fn commitment_at(height: u64, blkid: L1BlockId) -> (c: L1BlockCommitment)
    ensures
        c.height == height % 0x1_0000_0000,
        c.blkid == blkid,
{
    let h: u32 = height as u32;
    assert(h == height % 0x1_0000_0000) by (bit_vector)
        requires
            h == height as u32,
    ;
    L1BlockCommitment::new(h, blkid)
}

/// The commitment a received block is submitted to the ASM worker under: its
/// height (see [`block_height`]) truncated to 32 bits, and its block hash.
pub fn block_commitment(block: &bitcoin::Block) -> (c: L1BlockCommitment)
    ensures
        c.height == spec_height_or_zero(spec_bip34_height(*block)) % 0x1_0000_0000,
        c.blkid == L1BlockId(spec_block_hash(*block)),
{
    commitment_at(block_height(block), block_hash_id(block))
}

} // verus!
