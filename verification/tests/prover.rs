use asm_runner::{proof_record, proof_table, ProofId, ProofRecord, ProofTable};
use asm_runner::{ProverError, ProverWorkerBuilder, ProverWorkerHandle, ProverWorkerParts};

type Builder = ProverWorkerBuilder<&'static str, u8, u16, u32, u64>;

fn missing(b: Builder) -> &'static str {
    match b.build() {
        Err(ProverError::MissingDependency(name)) => name,
        Ok(_) => panic!("built without every dependency"),
    }
}

#[test]
fn empty_builder_misses_context() {
    assert_eq!(missing(Builder::new()), "context");
    assert_eq!(missing(Builder::default()), "context");
}

#[test]
fn missing_dependencies_are_reported_in_order() {
    assert_eq!(missing(Builder::new().with_context("ctx")), "asm_host");
    assert_eq!(missing(Builder::new().with_context("ctx").with_hosts(1, 2)), "config");
    assert_eq!(missing(Builder::new().with_context("ctx").with_hosts(1, 2).with_config(3)), "input_builder");
    assert_eq!(
        missing(Builder::new().with_context("ctx").with_hosts(1, 2).with_config(3).with_input_builder(4)),
        "subscription"
    );
    assert_eq!(missing(Builder::new().with_block_subscription(5).with_config(3)), "context");
}

#[test]
fn fully_configured_builder_hands_over_every_part() {
    let parts: ProverWorkerParts<_, _, _, _, _> = Builder::new()
        .with_block_subscription(5)
        .with_input_builder(4)
        .with_config(3)
        .with_hosts(1, 2)
        .with_context("ctx")
        .build()
        .unwrap();
    assert_eq!(parts.ctx, "ctx");
    assert_eq!(parts.asm_host, 1);
    assert_eq!(parts.moho_host, 2);
    assert_eq!(parts.config, 3);
    assert_eq!(parts.input_builder, 4);
    assert_eq!(parts.subscription, 5);
}

#[test]
fn later_setting_replaces_earlier() {
    let parts = Builder::new()
        .with_context("first")
        .with_hosts(1, 2)
        .with_config(3)
        .with_input_builder(4)
        .with_block_subscription(5)
        .with_context("second")
        .build()
        .unwrap();
    assert_eq!(parts.ctx, "second");
}

#[test]
fn request_reaches_orchestrator() {
    let (tx, mut rx) = tokio::sync::mpsc::unbounded_channel::<u32>();
    let handle = ProverWorkerHandle::new(tx);
    assert_eq!(handle.request_proof(7), Ok(()));
    assert_eq!(rx.try_recv(), Ok(7));
}

#[test]
fn request_after_shutdown_is_handed_back() {
    let (tx, rx) = tokio::sync::mpsc::unbounded_channel::<u32>();
    drop(rx);
    let handle = ProverWorkerHandle::new(tx);
    assert_eq!(handle.request_proof(42), Err(42));
}

#[test]
fn cloned_handle_reaches_same_orchestrator() {
    let (tx, mut rx) = tokio::sync::mpsc::unbounded_channel::<u32>();
    let handle = ProverWorkerHandle::new(tx);
    let other = handle.clone();
    assert_eq!(other.request_proof(3), Ok(()));
    assert_eq!(handle.request_proof(4), Ok(()));
    assert_eq!(rx.try_recv(), Ok(3));
    assert_eq!(rx.try_recv(), Ok(4));
}

#[test]
fn proofs_go_to_the_table_of_their_kind() {
    assert!(matches!(proof_table(&ProofId::<u8, u16>::Asm(1)), ProofTable::Asm));
    assert!(matches!(proof_table(&ProofId::<u8, u16>::Moho(2)), ProofTable::Moho));
    assert!(matches!(
        proof_record(ProofId::<u8, u16>::Asm(1), "receipt"),
        ProofRecord::Asm { range: 1, proof: "receipt" }
    ));
    assert!(matches!(
        proof_record(ProofId::<u8, u16>::Moho(2), "receipt"),
        ProofRecord::Moho { commitment: 2, proof: "receipt" }
    ));
}
