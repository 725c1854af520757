use std::cell::RefCell;
use std::collections::HashMap;

use vstd::prelude::{Map, Seq};

use asm_runner::{
    AsmStateProvider, L1BlockCommitment, L1BlockId, MohoStateStore, MohoWorkerError, MohoWorkerResult,
    MohoWorkerService, MohoWorkerServiceState,
};

/// Stands in for a Moho state: the commitment of the anchor state it was
/// derived from, the predicate it carries, and how many logs were folded.
#[derive(Clone, Debug, PartialEq, Eq)]
struct MockMoho {
    inner_state: u64,
    predicate: u8,
    logs_seen: usize,
}

/// In-memory context backing both concern traits.
#[derive(Debug, Default)]
struct MockContext {
    anchors: RefCell<HashMap<L1BlockCommitment, u64>>,
    logs: RefCell<HashMap<L1BlockCommitment, Vec<u32>>>,
    moho: RefCell<HashMap<L1BlockCommitment, MockMoho>>,
    latest: RefCell<Option<(L1BlockCommitment, MockMoho)>>,
    fail_store: RefCell<bool>,
}

impl MockContext {
    fn insert_anchor(&self, blk: L1BlockCommitment, state: u64) {
        self.anchors.borrow_mut().insert(blk, state);
    }
}

impl AsmStateProvider for MockContext {
    type AnchorState = u64;
    type LogEntry = u32;

    // Specification-only: never called at run time.
    fn spec_anchor_state(&self, _blockid: L1BlockCommitment) -> Option<u64> {
        unreachable!()
    }

    // Specification-only: never called at run time.
    fn spec_anchor_logs(&self, _blockid: L1BlockCommitment) -> Option<Seq<u32>> {
        unreachable!()
    }

    fn get_anchor_state(&self, blockid: &L1BlockCommitment) -> MohoWorkerResult<u64> {
        self.anchors
            .borrow()
            .get(blockid)
            .cloned()
            .ok_or(MohoWorkerError::MissingAsmState(*blockid))
    }

    fn get_anchor_logs(&self, blockid: &L1BlockCommitment) -> MohoWorkerResult<Vec<u32>> {
        Ok(self.logs.borrow().get(blockid).cloned().unwrap_or_default())
    }
}

impl MohoStateStore for MockContext {
    type MohoState = MockMoho;

    // Specification-only: never called at run time.
    fn spec_moho_states(&self) -> Map<L1BlockCommitment, MockMoho> {
        unreachable!()
    }

    // Specification-only: never called at run time.
    fn spec_latest(&self) -> Option<(L1BlockCommitment, MockMoho)> {
        unreachable!()
    }

    fn get_latest_moho_state(&self) -> MohoWorkerResult<Option<(L1BlockCommitment, MockMoho)>> {
        Ok(self.latest.borrow().clone())
    }

    fn store_moho_state(&mut self, blockid: &L1BlockCommitment, state: &MockMoho) -> MohoWorkerResult<()> {
        if *self.fail_store.borrow() {
            return Err(MohoWorkerError::Storage("disk full".to_string()));
        }
        self.moho.borrow_mut().insert(*blockid, state.clone());
        let mut latest = self.latest.borrow_mut();
        if latest.as_ref().is_none_or(|(b, _)| blockid.height() >= b.height()) {
            *latest = Some((*blockid, state.clone()));
        }
        Ok(())
    }
}

const ALWAYS_ACCEPT: u8 = 1;

fn seed(predicate: u8, anchor: &u64) -> MockMoho {
    MockMoho { inner_state: *anchor, predicate, logs_seen: 0 }
}

fn fold(prev: &MockMoho, anchor: &u64, logs: &Vec<u32>) -> MockMoho {
    MockMoho { inner_state: *anchor, predicate: prev.predicate, logs_seen: prev.logs_seen + logs.len() }
}

type Fold = fn(&MockMoho, &u64, &Vec<u32>) -> MockMoho;

fn launch(ctx: MockContext, genesis: L1BlockCommitment) -> MohoWorkerResult<MohoWorkerServiceState<MockContext, Fold>> {
    MohoWorkerServiceState::new(ctx, genesis, ALWAYS_ACCEPT, seed, fold as Fold)
}

/// A genesis anchor state and its commitment.
fn genesis_anchor() -> (L1BlockCommitment, u64) {
    (L1BlockCommitment::new(840_000, L1BlockId([7; 32])), 0xA5A5)
}

fn child(anchor: &u64) -> u64 {
    *anchor
}

fn commitment_after(prev: L1BlockCommitment) -> L1BlockCommitment {
    L1BlockCommitment::new(prev.height() + 1, L1BlockId::default())
}

#[test]
fn seeds_genesis_when_store_empty() {
    let (genesis_blk, anchor) = genesis_anchor();
    let ctx = MockContext::default();
    ctx.insert_anchor(genesis_blk, anchor);

    let state = launch(ctx, genesis_blk).unwrap();

    assert_eq!(state.cur_block(), genesis_blk);
    assert_eq!(state.processed(), 0);
    let stored = state.context().moho.borrow().get(&genesis_blk).cloned().unwrap();
    assert_eq!(stored.inner_state, anchor);
}

#[test]
fn resumes_from_latest_without_reseeding_genesis() {
    let (genesis_blk, anchor) = genesis_anchor();
    let mut ctx = MockContext::default();
    ctx.insert_anchor(genesis_blk, anchor);

    let later_blk = commitment_after(genesis_blk);
    let later_moho = seed(ALWAYS_ACCEPT, &anchor);
    ctx.store_moho_state(&later_blk, &later_moho).unwrap();

    let state = launch(ctx, genesis_blk).unwrap();

    assert_eq!(state.cur_block(), later_blk);
    assert!(!state.context().moho.borrow().contains_key(&genesis_blk));
}

#[test]
fn folds_contiguous_commits_forward() {
    let (genesis_blk, anchor) = genesis_anchor();
    let ctx = MockContext::default();
    ctx.insert_anchor(genesis_blk, anchor);

    let blk1 = commitment_after(genesis_blk);
    let blk2 = commitment_after(blk1);
    ctx.insert_anchor(blk1, child(&anchor));
    ctx.insert_anchor(blk2, child(&anchor));

    let mut state = launch(ctx, genesis_blk).unwrap();

    state.process(blk1).unwrap();
    state.process(blk2).unwrap();

    assert_eq!(state.cur_block(), blk2);
    assert_eq!(state.processed(), 2);
    assert!(state.context().moho.borrow().contains_key(&blk1));
    assert!(state.context().moho.borrow().contains_key(&blk2));
}

#[test]
fn rejects_gap_in_commit_stream() {
    let (genesis_blk, anchor) = genesis_anchor();
    let ctx = MockContext::default();
    ctx.insert_anchor(genesis_blk, anchor);

    let gap_blk = L1BlockCommitment::new(genesis_blk.height() + 2, L1BlockId::default());
    ctx.insert_anchor(gap_blk, child(&anchor));

    let mut state = launch(ctx, genesis_blk).unwrap();

    let err = state.process(gap_blk).unwrap_err();
    assert!(matches!(err, MohoWorkerError::NonContiguousBlock { .. }));
}

#[test]
fn ignores_stale_commit() {
    let (genesis_blk, anchor) = genesis_anchor();
    let ctx = MockContext::default();
    ctx.insert_anchor(genesis_blk, anchor);

    let mut state = launch(ctx, genesis_blk).unwrap();

    // Re-emitting genesis (height == current) is a no-op, not an error.
    state.process(genesis_blk).unwrap();
    assert_eq!(state.processed(), 0);
}

#[test]
fn gap_error_names_expected_and_received_heights() {
    let (genesis_blk, anchor) = genesis_anchor();
    let ctx = MockContext::default();
    ctx.insert_anchor(genesis_blk, anchor);
    let mut state = launch(ctx, genesis_blk).unwrap();

    let gap_blk = L1BlockCommitment::new(840_005, L1BlockId::default());
    match state.process(gap_blk) {
        Err(MohoWorkerError::NonContiguousBlock { expected, got }) => {
            assert_eq!(expected, 840_001);
            assert_eq!(got, 840_005);
        }
        other => panic!("unexpected outcome: {other:?}"),
    }
    assert_eq!(state.cur_block(), genesis_blk);
    assert_eq!(state.processed(), 0);
}

#[test]
fn missing_genesis_anchor_fails_launch() {
    let (genesis_blk, _) = genesis_anchor();
    let ctx = MockContext::default();
    match launch(ctx, genesis_blk) {
        Err(MohoWorkerError::MissingAsmState(b)) => assert_eq!(b, genesis_blk),
        other => panic!("unexpected outcome: {:?}", other.map(|s| s.cur_block())),
    }
}

#[test]
fn missing_anchor_leaves_state_unchanged() {
    let (genesis_blk, anchor) = genesis_anchor();
    let ctx = MockContext::default();
    ctx.insert_anchor(genesis_blk, anchor);
    let mut state = launch(ctx, genesis_blk).unwrap();

    let blk1 = commitment_after(genesis_blk);
    let err = state.process(blk1).unwrap_err();
    assert!(matches!(err, MohoWorkerError::MissingAsmState(b) if b == blk1));
    assert_eq!(state.cur_block(), genesis_blk);
    assert_eq!(state.processed(), 0);

    // Once the anchor state is committed, the same block folds.
    state.context().insert_anchor(blk1, 9);
    state.process(blk1).unwrap();
    assert_eq!(state.cur_block(), blk1);
    assert_eq!(state.processed(), 1);
}

#[test]
fn failed_store_leaves_state_unchanged() {
    let (genesis_blk, anchor) = genesis_anchor();
    let ctx = MockContext::default();
    ctx.insert_anchor(genesis_blk, anchor);
    let blk1 = commitment_after(genesis_blk);
    ctx.insert_anchor(blk1, 11);
    let mut state = launch(ctx, genesis_blk).unwrap();

    *state.context().fail_store.borrow_mut() = true;
    let err = state.process(blk1).unwrap_err();
    assert!(matches!(err, MohoWorkerError::Storage(_)));
    assert_eq!(state.cur_block(), genesis_blk);
    assert_eq!(state.processed(), 0);
}

#[test]
fn folded_state_chains_from_previous_and_logs() {
    let (genesis_blk, anchor) = genesis_anchor();
    let ctx = MockContext::default();
    ctx.insert_anchor(genesis_blk, anchor);
    let blk1 = commitment_after(genesis_blk);
    let blk2 = commitment_after(blk1);
    ctx.insert_anchor(blk1, 21);
    ctx.insert_anchor(blk2, 22);
    ctx.logs.borrow_mut().insert(blk1, vec![1, 2, 3]);
    ctx.logs.borrow_mut().insert(blk2, vec![4]);
    let mut state = launch(ctx, genesis_blk).unwrap();

    state.process(blk1).unwrap();
    state.process(blk2).unwrap();

    let stored = state.context().moho.borrow().get(&blk2).cloned().unwrap();
    assert_eq!(stored, MockMoho { inner_state: 22, predicate: ALWAYS_ACCEPT, logs_seen: 4 });
}

#[test]
fn replayed_commits_are_ignored_after_folding() {
    let (genesis_blk, anchor) = genesis_anchor();
    let ctx = MockContext::default();
    ctx.insert_anchor(genesis_blk, anchor);
    let blk1 = commitment_after(genesis_blk);
    ctx.insert_anchor(blk1, 5);
    let mut state = launch(ctx, genesis_blk).unwrap();

    state.process(blk1).unwrap();
    state.process(blk1).unwrap();
    state.process(genesis_blk).unwrap();
    assert_eq!(state.cur_block(), blk1);
    assert_eq!(state.processed(), 1);
}

#[test]
fn processed_counts_from_the_resume_point() {
    let (genesis_blk, anchor) = genesis_anchor();
    let mut ctx = MockContext::default();
    let resume_blk = L1BlockCommitment::new(900_000, L1BlockId([3; 32]));
    ctx.store_moho_state(&resume_blk, &seed(ALWAYS_ACCEPT, &anchor)).unwrap();
    let mut blk = resume_blk;
    for _ in 0..5 {
        blk = commitment_after(blk);
        ctx.insert_anchor(blk, 1);
    }
    let mut state = launch(ctx, genesis_blk).unwrap();
    let mut blk = resume_blk;
    for _ in 0..5 {
        blk = commitment_after(blk);
        state.process(blk).unwrap();
    }
    assert_eq!(state.cur_block().height(), 900_005);
    assert_eq!(state.processed(), 5);
}

#[test]
fn status_reports_current_block_and_count() {
    let (genesis_blk, anchor) = genesis_anchor();
    let ctx = MockContext::default();
    ctx.insert_anchor(genesis_blk, anchor);
    let blk1 = commitment_after(genesis_blk);
    ctx.insert_anchor(blk1, 5);
    let mut state = launch(ctx, genesis_blk).unwrap();
    state.process(blk1).unwrap();

    let status = MohoWorkerService::get_status(&state);
    assert!(status.is_initialized);
    assert_eq!(status.cur_block, Some(blk1));
    assert_eq!(status.processed, 1);
}

#[test]
fn relaunch_resumes_at_last_fold() {
    let (genesis_blk, anchor) = genesis_anchor();
    let ctx = MockContext::default();
    ctx.insert_anchor(genesis_blk, anchor);
    let blk1 = commitment_after(genesis_blk);
    let blk2 = commitment_after(blk1);
    ctx.insert_anchor(blk1, 31);
    ctx.insert_anchor(blk2, 32);
    let mut state = launch(ctx, genesis_blk).unwrap();
    state.process(blk1).unwrap();
    state.process(blk2).unwrap();

    // A fresh context over the same store, launched with another genesis.
    let ctx2 = MockContext::default();
    *ctx2.latest.borrow_mut() = state.context().latest.borrow().clone();
    let other_genesis = L1BlockCommitment::new(1, L1BlockId([5; 32]));
    let relaunched = launch(ctx2, other_genesis).unwrap();
    assert_eq!(relaunched.cur_block(), blk2);
    assert_eq!(relaunched.processed(), 0);
    assert!(relaunched.context().moho.borrow().is_empty());
    let latest = relaunched.context().latest.borrow().clone().unwrap();
    assert_eq!(latest.1, MockMoho { inner_state: 32, predicate: ALWAYS_ACCEPT, logs_seen: 0 });
}

#[test]
fn genesis_state_is_stored_under_genesis_block() {
    let (genesis_blk, anchor) = genesis_anchor();
    let ctx = MockContext::default();
    ctx.insert_anchor(genesis_blk, anchor);
    let state = launch(ctx, genesis_blk).unwrap();
    let stored = state.context().moho.borrow();
    assert_eq!(stored.len(), 1);
    assert_eq!(stored.get(&genesis_blk), Some(&MockMoho { inner_state: anchor, predicate: ALWAYS_ACCEPT, logs_seen: 0 }));
    assert_eq!(state.context().latest.borrow().clone().map(|(b, _)| b), Some(genesis_blk));
}

#[test]
fn failed_latest_read_is_handed_back() {
    let (genesis_blk, _) = genesis_anchor();
    let r = MohoWorkerServiceState::from_latest(
        MockContext::default(),
        Err(MohoWorkerError::Storage("io".to_string())),
        genesis_blk,
        ALWAYS_ACCEPT,
        seed,
        fold as Fold,
    );
    assert!(matches!(r, Err(MohoWorkerError::Storage(m)) if m == "io"));
}

#[test]
fn failed_genesis_store_is_handed_back() {
    let (genesis_blk, anchor) = genesis_anchor();
    let ctx = MockContext::default();
    ctx.insert_anchor(genesis_blk, anchor);
    *ctx.fail_store.borrow_mut() = true;
    match launch(ctx, genesis_blk) {
        Err(MohoWorkerError::Storage(m)) => assert_eq!(m, "disk full"),
        other => panic!("unexpected outcome: {:?}", other.map(|s| s.cur_block())),
    }
}

#[test]
fn seeding_steps_hand_back_failures() {
    let (genesis_blk, anchor) = genesis_anchor();
    let r = MohoWorkerServiceState::<MockContext, Fold>::seed_from_anchor(
        MockContext::default(),
        genesis_blk,
        Err(MohoWorkerError::MissingAsmState(genesis_blk)),
        ALWAYS_ACCEPT,
        seed,
        fold as Fold,
    );
    assert!(matches!(r, Err(MohoWorkerError::MissingAsmState(b)) if b == genesis_blk));

    let s = MohoWorkerServiceState::<MockContext, Fold>::finish_seed(
        MockContext::default(),
        genesis_blk,
        seed(ALWAYS_ACCEPT, &anchor),
        Ok(()),
        fold as Fold,
    )
    .unwrap();
    assert_eq!(s.cur_block(), genesis_blk);
    assert_eq!(s.processed(), 0);
}

#[test]
fn fold_steps_hand_back_failures_and_commit_on_success() {
    let (genesis_blk, anchor) = genesis_anchor();
    let ctx = MockContext::default();
    ctx.insert_anchor(genesis_blk, anchor);
    let mut state = launch(ctx, genesis_blk).unwrap();
    let blk1 = commitment_after(genesis_blk);

    let err = state.fold_with_anchor(blk1, Err(MohoWorkerError::Storage("read".to_string()))).unwrap_err();
    assert!(matches!(err, MohoWorkerError::Storage(m) if m == "read"));
    let err = state.fold_with_logs(blk1, 4, Err(MohoWorkerError::Storage("logs".to_string()))).unwrap_err();
    assert!(matches!(err, MohoWorkerError::Storage(m) if m == "logs"));
    let err = state.commit_fold(blk1, seed(2, &4), Err(MohoWorkerError::Storage("store".to_string()))).unwrap_err();
    assert!(matches!(err, MohoWorkerError::Storage(m) if m == "store"));
    assert_eq!(state.cur_block(), genesis_blk);
    assert_eq!(state.processed(), 0);
    assert!(state.context().moho.borrow().get(&blk1).is_none());

    state.fold_with_logs(blk1, 4, Ok(vec![1, 2])).unwrap();
    assert_eq!(state.cur_block(), blk1);
    assert_eq!(state.processed(), 1);
    assert_eq!(
        state.context().moho.borrow().get(&blk1),
        Some(&MockMoho { inner_state: 4, predicate: ALWAYS_ACCEPT, logs_seen: 2 })
    );
}
