//! The order in which the ASM worker's context persists a block's anchor state.
//!
//! The anchor-state write is the commit point for a block: the worker tracks
//! its progress by the latest stored anchor state. The export entries the
//! block's logs announce are therefore appended first, in log order, and the
//! anchor state is written last. A crash before the anchor write leaves
//! progress where it was, and reprocessing the block appends the same entries
//! again.

use vstd::prelude::*;

verus! {

/// One write of the anchor-state commit, in the order it must happen.
pub enum AnchorWrite<K, D> {
    /// Append the export entry `entry` of container `container_id` at `height`.
    AppendExport { container_id: K, height: u64, entry: D },
    /// Store the anchor state itself.
    PutAnchor,
}

/// The export-entry appends for the logs of a block at `height`, in log order:
/// one per log that is an export entry (`Some((container_id, entry))`).
pub open spec fn export_appends<K, D>(height: u64, exports: Seq<Option<(K, D)>>) -> Seq<AnchorWrite<K, D>>
    decreases exports.len(),
{
    if exports.len() == 0 {
        Seq::empty()
    } else {
        let rest = export_appends(height, exports.drop_last());
        match exports.last() {
            Some((container_id, entry)) => rest.push(AnchorWrite::AppendExport { container_id, height, entry }),
            None => rest,
        }
    }
}

/// How many of the logs in `exports` announce an export entry.
pub open spec fn count_exports<K, D>(exports: Seq<Option<(K, D)>>) -> nat
    decreases exports.len(),
{
    if exports.len() == 0 {
        0
    } else {
        count_exports(exports.drop_last()) + if exports.last() is Some {
            1nat
        } else {
            0nat
        }
    }
}

/// The appends for the logs of a block hold, one per log that announces an
/// export entry and in log order, that entry at the block's height: the
/// entry of the log at index `i` is at the position counting the export
/// logs before it. Nothing else is appended.
pub proof fn lemma_export_appends_follow_the_logs<K, D>(height: u64, exports: Seq<Option<(K, D)>>)
    ensures
        export_appends(height, exports).len() == count_exports(exports),
        forall|i: int| 0 <= i < exports.len() ==> (#[trigger] exports[i] matches Some((k, d)) ==> export_appends(height, exports)[count_exports(exports.take(i)) as int] == (AnchorWrite::AppendExport {
            container_id: k,
            height,
            entry: d,
        })),
        forall|j: int| 0 <= j < export_appends(height, exports).len()
            ==> #[trigger] export_appends(height, exports)[j] is AppendExport,
    decreases exports.len(),
{
    lemma_export_appends_are_appends(height, exports);
    if exports.len() > 0 {
        let prefix = exports.drop_last();
        lemma_export_appends_follow_the_logs(height, prefix);
        assert(exports.take(exports.len() - 1) =~= prefix);
        assert forall|i: int| 0 <= i < exports.len() implies (#[trigger] exports[i] matches Some((k, d))
            ==> export_appends(height, exports)[count_exports(exports.take(i)) as int] == (AnchorWrite::AppendExport {
            container_id: k,
            height,
            entry: d,
        })) by {
            if i < exports.len() - 1 {
                assert(exports.take(i) =~= prefix.take(i));
                assert(prefix[i] == exports[i]);
                lemma_count_exports_take_bound(prefix, i);
            }
        }
    }
}

/// Counting the export logs of a prefix gives no more than of the whole.
proof fn lemma_count_exports_take_bound<K, D>(exports: Seq<Option<(K, D)>>, i: int)
    requires
        0 <= i < exports.len(),
    ensures
        count_exports(exports.take(i)) + if exports[i] is Some { 1nat } else { 0nat } <= count_exports(exports),
    decreases exports.len(),
{
    if i < exports.len() - 1 {
        let prefix = exports.drop_last();
        assert(exports.take(i) =~= prefix.take(i));
        assert(prefix[i] == exports[i]);
        lemma_count_exports_take_bound(prefix, i);
    } else {
        assert(exports.take(i) =~= exports.drop_last());
    }
}

/// The writes carried out when `writes` run in order and stop at the first
/// failure: all of them when none fails (`failed_at` is `None`), else those
/// up to and including the one at index `failed_at`.
pub open spec fn performed<K, D>(writes: Seq<AnchorWrite<K, D>>, failed_at: Option<int>) -> Seq<AnchorWrite<K, D>> {
    match failed_at {
        Some(i) => writes.take(i + 1),
        None => writes,
    }
}

/// Every write [`export_appends`] plans is an export append.
proof fn lemma_export_appends_are_appends<K, D>(height: u64, exports: Seq<Option<(K, D)>>)
    ensures
        forall|j: int| 0 <= j < export_appends(height, exports).len()
            ==> #[trigger] export_appends(height, exports)[j] is AppendExport,
    decreases exports.len(),
{
    if exports.len() > 0 {
        lemma_export_appends_are_appends(height, exports.drop_last());
    }
}

/// The anchor state is the commit point: when the anchor-state commit runs
/// in order and stops at a failed export append, the anchor state is not
/// written; it is written only when every append before it succeeded.
pub proof fn lemma_failed_append_leaves_anchor_unwritten<K, D>(
    height: u64,
    exports: Seq<Option<(K, D)>>,
    failed_at: int,
)
    requires
        0 <= failed_at < export_appends(height, exports).len(),
    ensures
        forall|j: int| 0 <= j < performed(export_appends(height, exports).push(AnchorWrite::PutAnchor), Some(failed_at)).len()
            ==> #[trigger] performed(export_appends(height, exports).push(AnchorWrite::PutAnchor), Some(failed_at))[j] is AppendExport,
{
    lemma_export_appends_are_appends(height, exports);
    let plan = export_appends(height, exports).push(AnchorWrite::PutAnchor);
    assert forall|j: int| 0 <= j < performed(plan, Some(failed_at)).len()
        implies #[trigger] performed(plan, Some(failed_at))[j] is AppendExport by {
        assert(performed(plan, Some(failed_at))[j] == export_appends(height, exports)[j]);
    }
}

/// The writes that commit the anchor state of a block at `height`, in order.
///
/// `exports` holds, for each log of the block, the export entry it announces
/// (`None` for logs of other kinds). When export entries are indexed
/// (`index_exports`), their appends come first, in log order; the anchor
/// state is always written last.
pub fn anchor_commit_writes<K: Copy, D: Copy>(
    height: u64,
    exports: &Vec<Option<(K, D)>>,
    index_exports: bool,
) -> (writes: Vec<AnchorWrite<K, D>>)
    ensures
        index_exports ==> writes@ == export_appends(height, exports@).push(AnchorWrite::PutAnchor),
        !index_exports ==> writes@ == seq![AnchorWrite::<K, D>::PutAnchor],
        index_exports ==> writes@.len() == count_exports(exports@) + 1,
        writes@[writes@.len() - 1] is PutAnchor,
        forall|j: int| 0 <= j < writes@.len() - 1 ==> #[trigger] writes@[j] is AppendExport,
        index_exports ==> forall|i: int| 0 <= i < exports@.len() ==> (#[trigger] exports@[i] matches Some((k, d))
            ==> writes@[count_exports(exports@.take(i)) as int] == (AnchorWrite::AppendExport {
            container_id: k,
            height,
            entry: d,
        })),
{
    let mut writes: Vec<AnchorWrite<K, D>> = Vec::new();
    if index_exports {
        let mut i: usize = 0;
        while i < exports.len()
            invariant
                i <= exports.len(),
                writes@ == export_appends(height, exports@.take(i as int)),
            decreases exports.len() - i,
        {
            assert(exports@.take(i + 1).drop_last() =~= exports@.take(i as int));
            match exports[i] {
                Some((container_id, entry)) => {
                    writes.push(AnchorWrite::AppendExport { container_id, height, entry });
                },
                None => {},
            }
            i = i + 1;
        }
        assert(exports@.take(exports.len() as int) =~= exports@);
    }
    writes.push(AnchorWrite::PutAnchor);
    proof {
        lemma_export_appends_follow_the_logs(height, exports@);
        if index_exports {
            assert forall|i: int| 0 <= i < exports@.len() implies (#[trigger] exports@[i] matches Some((k, d))
                ==> writes@[count_exports(exports@.take(i)) as int] == (AnchorWrite::AppendExport {
                container_id: k,
                height,
                entry: d,
            })) by {
                if exports@[i] is Some {
                    lemma_count_exports_take_bound(exports@, i);
                }
            }
        }
    }
    writes
}

} // verus!
