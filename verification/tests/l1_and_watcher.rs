use asm_runner::{on_failure, WatchFailure, WatchReaction};
use asm_runner::{
    block_commitment, block_height, commitment_at, height_or_zero, parent_commitment, BlockWatcher,
    L1BlockCommitment, L1BlockId, WatchStep,
};
use bitcoin::blockdata::script::Builder;

fn genesis() -> bitcoin::Block {
    bitcoin::blockdata::constants::genesis_block(bitcoin::Network::Bitcoin)
}

/// Mainnet genesis block hash, internal byte order.
const GENESIS_HASH: [u8; 32] = [
    0x6f, 0xe2, 0x8c, 0x0a, 0xb6, 0xf1, 0xb3, 0x72, 0xc1, 0xa6, 0xa2, 0x46, 0xae, 0x63, 0xf7, 0x4f, 0x93, 0x1e,
    0x83, 0x65, 0xe1, 0x5a, 0x08, 0x9c, 0x68, 0xd6, 0x19, 0x00, 0x00, 0x00, 0x00, 0x00,
];

fn bip34_block(height: i64) -> bitcoin::Block {
    let mut block = genesis();
    block.header.version = bitcoin::block::Version::TWO;
    block.txdata[0].input[0].script_sig = Builder::new().push_int(height).into_script();
    block
}

#[test]
fn parent_is_one_block_below() {
    let blk = L1BlockCommitment::new(101, L1BlockId([1; 32]));
    let parent = parent_commitment(&blk, L1BlockId([2; 32]));
    assert_eq!(parent, L1BlockCommitment::new(100, L1BlockId([2; 32])));
}

#[test]
fn commitment_truncates_height_to_32_bits() {
    let c = commitment_at(0x1_0000_0005, L1BlockId([9; 32]));
    assert_eq!(c.height(), 5);
    assert_eq!(*c.blkid(), L1BlockId([9; 32]));
    assert_eq!(commitment_at(840_000, L1BlockId([9; 32])).height(), 840_000);
}

#[test]
fn missing_bip34_height_reads_as_zero() {
    assert_eq!(height_or_zero(None), 0);
    assert_eq!(height_or_zero(Some(77)), 77);
}

#[test]
fn version_one_block_has_height_zero() {
    assert_eq!(block_height(&genesis()), 0);
}

#[test]
fn bip34_height_is_read_from_coinbase() {
    assert_eq!(block_height(&bip34_block(500_000)), 500_000);
}

#[test]
fn block_commitment_uses_height_and_block_hash() {
    let c = block_commitment(&genesis());
    assert_eq!(c, L1BlockCommitment::new(0, L1BlockId(GENESIS_HASH)));
    let c = block_commitment(&bip34_block(840_123));
    assert_eq!(c.height(), 840_123);
}

#[test]
fn watcher_submits_block_at_cursor() {
    let mut w = BlockWatcher::new(10);
    assert!(matches!(w.on_block(10), WatchStep::Submit { backfill_from: 10, backfill_to: 10 }));
    assert_eq!(w.cursor(), 11);
}

#[test]
fn watcher_skips_older_blocks() {
    let mut w = BlockWatcher::new(10);
    assert!(matches!(w.on_block(9), WatchStep::Skip));
    assert!(matches!(w.on_block(0), WatchStep::Skip));
    assert_eq!(w.cursor(), 10);
}

#[test]
fn watcher_backfills_skipped_heights() {
    let mut w = BlockWatcher::new(10);
    assert!(matches!(w.on_block(14), WatchStep::Submit { backfill_from: 10, backfill_to: 14 }));
    assert_eq!(w.cursor(), 15);
}

#[test]
fn watcher_submits_every_height_once_in_order() {
    let mut w = BlockWatcher::new(100);
    let mut submitted = Vec::new();
    for received in [100u64, 103, 101, 103, 104, 110, 2, 111] {
        if let WatchStep::Submit { backfill_from, backfill_to } = w.on_block(received) {
            submitted.extend(backfill_from..backfill_to);
            submitted.push(received);
        }
    }
    assert_eq!(submitted, (100..112).collect::<Vec<u64>>());
    assert_eq!(w.cursor(), 112);
}

#[test]
fn bip34_height_beyond_four_bytes_reads_as_zero() {
    let block = bip34_block(0x1_0000_0003);
    assert_eq!(block_height(&block), 0);
    assert_eq!(block_commitment(&block).height(), 0);
    let block = bip34_block(0x7fff_ffff);
    assert_eq!(block_height(&block), 0x7fff_ffff);
    assert_eq!(block_commitment(&block).height(), 0x7fff_ffff);
}

#[test]
fn failed_backfill_stops_and_failed_received_submission_passes_over() {
    assert!(matches!(on_failure(&WatchFailure::Backfill { height: 7 }), WatchReaction::Stop));
    assert!(matches!(on_failure(&WatchFailure::Received), WatchReaction::PassOver));
}
