//! Merging self-reported metrics into the classifications of a snapshot.

use crate::keys::{find_last, last_index_of, lemma_last_index_of, Epoch, Keyed, Pubkey};
use crate::snapshot::{ClassificationView, EpochSnapshot, MetricBlob, SnapshotView};
use vstd::prelude::*;

verus! {

/// The metrics that one validator reported about itself.
#[derive(Debug, PartialEq, Eq)]
pub struct ReportedMetric {
    pub identity: Pubkey,
    pub metrics: MetricBlob,
}

impl Keyed for ReportedMetric {
    open spec fn key_spec(&self) -> Pubkey {
        self.identity
    }

    fn key(&self) -> (k: Pubkey) {
        self.identity
    }
}

/// The metrics reported for `identity`, if any: those of the last report
/// that names it.
pub open spec fn reported_for(reported: Seq<ReportedMetric>, identity: Pubkey) -> Option<Seq<u8>> {
    match last_index_of(reported, identity) {
        Some(i) => Some(reported[i].metrics@),
        None => None,
    }
}

/// A classification after the merge: it holds the metrics reported for its
/// identity, and is unchanged where none are reported.
pub open spec fn merged_classification(
    classification: ClassificationView,
    reported: Seq<ReportedMetric>,
) -> ClassificationView {
    match reported_for(reported, classification.identity) {
        Some(metrics) => ClassificationView { self_reported_metrics: Some(metrics), ..classification },
        None => classification,
    }
}

/// A snapshot after the merge: every classification merged, all else as it
/// was.
pub open spec fn merged_snapshot(snapshot: SnapshotView, reported: Seq<ReportedMetric>) -> SnapshotView {
    SnapshotView {
        validator_classifications: Seq::new(
            snapshot.validator_classifications.len(),
            |i: int| merged_classification(snapshot.validator_classifications[i], reported),
        ),
        ..snapshot
    }
}

/// The classified validators for which nothing is reported, each with its
/// participant, in the order of the classifications.
pub open spec fn unreported(
    classifications: Seq<ClassificationView>,
    reported: Seq<ReportedMetric>,
) -> Seq<(Pubkey, Option<Pubkey>)>
    decreases classifications.len(),
{
    if classifications.len() == 0 {
        Seq::empty()
    } else {
        let front = unreported(classifications.drop_last(), reported);
        let last = classifications.last();
        if reported_for(reported, last.identity) is None {
            front.push((last.identity, last.participant))
        } else {
            front
        }
    }
}

/// The merge classifies the validators that were classified before, each
/// once where each was classified once, and every validator for which
/// metrics are reported holds exactly those metrics.
pub proof fn lemma_merge_sets_reported(snapshot: SnapshotView, reported: Seq<ReportedMetric>)
    ensures
        merged_snapshot(snapshot, reported).identities() == snapshot.identities(),
        snapshot.wf() ==> merged_snapshot(snapshot, reported).wf(),
        forall|i: int|
            #![trigger merged_snapshot(snapshot, reported).validator_classifications[i]]
            0 <= i < snapshot.validator_classifications.len() ==> {
                let before = snapshot.validator_classifications[i];
                let after = merged_snapshot(snapshot, reported).validator_classifications[i];
                &&& after.identity == before.identity
                &&& reported_for(reported, before.identity) is Some ==> after.self_reported_metrics
                    == reported_for(reported, before.identity)
                &&& reported_for(reported, before.identity) is None ==> after == before
            },
{
    let after = merged_snapshot(snapshot, reported);
    assert forall|key: Pubkey| after.identities().contains(key) == snapshot.identities().contains(
        key,
    ) by {
        if after.identities().contains(key) {
            let i = choose|i: int|
                0 <= i < after.validator_classifications.len()
                    && #[trigger] after.validator_classifications[i].identity == key;
            assert(snapshot.validator_classifications[i].identity == key);
        }
        if snapshot.identities().contains(key) {
            let i = choose|i: int|
                0 <= i < snapshot.validator_classifications.len()
                    && #[trigger] snapshot.validator_classifications[i].identity == key;
            assert(after.validator_classifications[i].identity == key);
        }
    }
}

/// Merging is idempotent: merging the same reports a second time changes
/// nothing.
pub proof fn lemma_merge_idempotent(snapshot: SnapshotView, reported: Seq<ReportedMetric>)
    ensures
        merged_snapshot(merged_snapshot(snapshot, reported), reported) == merged_snapshot(
            snapshot,
            reported,
        ),
{
    let once = merged_snapshot(snapshot, reported);
    let twice = merged_snapshot(once, reported);
    assert(twice.validator_classifications =~= once.validator_classifications);
}

/// Merges the reported metrics into the snapshot, in place. A classified
/// validator for which metrics are reported holds a copy of them afterwards;
/// one for which none are reported is left as it is, and is returned with
/// its participant.
pub fn merge_reported_metrics(snapshot: &mut EpochSnapshot, reported: &Vec<ReportedMetric>) -> (missing:
    Vec<(Pubkey, Option<Pubkey>)>)
    ensures
        final(snapshot)@ == merged_snapshot(old(snapshot)@, reported@),
        missing@ == unreported(old(snapshot)@.validator_classifications, reported@),
{
    let ghost before = snapshot@;
    let ghost all = before.validator_classifications;
    let mut missing: Vec<(Pubkey, Option<Pubkey>)> = Vec::new();
    let n = snapshot.validator_classifications.len();
    let mut i: usize = 0;
    while i < n
        invariant
            i <= n,
            n == all.len(),
            before == old(snapshot)@,
            all == before.validator_classifications,
            snapshot@.epoch == before.epoch,
            snapshot@.cluster == before.cluster,
            snapshot@.data_center_info == before.data_center_info,
            snapshot@.notes == before.notes,
            snapshot@.validator_classifications.len() == n,
            forall|k: int|
                0 <= k < i ==> #[trigger] snapshot@.validator_classifications[k]
                    == merged_classification(all[k], reported@),
            forall|k: int| i <= k < n ==> #[trigger] snapshot@.validator_classifications[k] == all[k],
            missing@ == unreported(all.take(i as int), reported@),
        decreases n - i,
    {
        let identity = snapshot.validator_classifications[i].identity;
        let ghost views = snapshot@.validator_classifications;
        proof {
            assert(views[i as int] == all[i as int]);
            assert(all.take(i + 1).drop_last() =~= all.take(i as int));
            lemma_last_index_of(reported@, identity);
        }
        match find_last(reported, &identity) {
            Some(j) => {
                let copy = reported[j].metrics.clone();
                snapshot.validator_classifications[i].self_reported_metrics = Some(copy);
                proof {
                    assert(forall|k: int|
                        0 <= k < n && k != i ==> #[trigger] snapshot@.validator_classifications[k]
                            == views[k]);
                }
            },
            None => {
                let participant = snapshot.validator_classifications[i].participant;
                missing.push((identity, participant));
            },
        }
        i += 1;
    }
    proof {
        assert(all.take(i as int) =~= all);
        assert(snapshot@.validator_classifications =~= merged_snapshot(
            before,
            reported@,
        ).validator_classifications);
    }
    missing
}

/// Enriches the snapshot that was loaded for `subsequent_epoch` with the
/// metrics reported as of the epoch before it, and returns that earlier
/// epoch: the one to try next.
pub fn backfill_epoch(
    snapshot: &mut EpochSnapshot,
    subsequent_epoch: Epoch,
    reported: &Vec<ReportedMetric>,
) -> (next: Epoch)
    requires
        subsequent_epoch >= 1,
    ensures
        final(snapshot)@ == merged_snapshot(old(snapshot)@, reported@),
        next == subsequent_epoch - 1,
{
    let _ = merge_reported_metrics(snapshot, reported);
    subsequent_epoch - 1
}

} // verus!
