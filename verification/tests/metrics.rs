use epoch_pipeline::keys::{find_last, Cluster, Pubkey};
use epoch_pipeline::metrics::{backfill_epoch, merge_reported_metrics, ReportedMetric};
use epoch_pipeline::snapshot::{
    EpochSnapshot, MetricBlob, StakeState, ValidatorClassification,
};

fn key(n: u8) -> Pubkey {
    Pubkey::new([n; 32])
}

fn classification(n: u8) -> ValidatorClassification {
    ValidatorClassification {
        identity: key(n),
        current_data_center: None,
        stake_state: StakeState::Baseline,
        stake_state_reason: format!("reason {}", n),
        stake_action: None,
        notes: vec![],
        blocks: None,
        slots: None,
        self_reported_metrics: None,
        participant: Some(key(n + 100)),
    }
}

fn report(n: u8, bytes: &[u8]) -> ReportedMetric {
    ReportedMetric { identity: key(n), metrics: MetricBlob { bytes: bytes.to_vec() } }
}

fn snapshot_of(identities: &[u8]) -> EpochSnapshot {
    let mut snapshot = EpochSnapshot::new(200, Cluster::MainnetBeta);
    for n in identities {
        snapshot.insert_classification(classification(*n));
    }
    snapshot
}

fn identities(snapshot: &EpochSnapshot) -> Vec<Pubkey> {
    snapshot.validator_classifications.iter().map(|c| c.identity).collect()
}

fn metrics(snapshot: &EpochSnapshot) -> Vec<Option<Vec<u8>>> {
    snapshot
        .validator_classifications
        .iter()
        .map(|c| c.self_reported_metrics.as_ref().map(|blob| blob.bytes.clone()))
        .collect()
}

#[test]
fn keys_compare_by_their_bytes() {
    assert_eq!(key(1), key(1));
    assert_ne!(key(1), key(2));
    let mut bytes = [1u8; 32];
    bytes[31] = 2;
    assert_ne!(Pubkey::new(bytes), key(1));
}

#[test]
fn find_last_prefers_the_later_entry() {
    let reports = vec![report(1, b"a"), report(2, b"b"), report(1, b"c")];
    assert_eq!(find_last(&reports, &key(1)), Some(2));
    assert_eq!(find_last(&reports, &key(2)), Some(1));
    assert_eq!(find_last(&reports, &key(3)), None);
    assert_eq!(find_last(&Vec::<ReportedMetric>::new(), &key(1)), None);
}

#[test]
fn inserting_a_classified_identity_replaces_it() {
    let mut snapshot = snapshot_of(&[1, 2]);
    let mut replacement = classification(1);
    replacement.stake_state = StakeState::Bonus;
    snapshot.insert_classification(replacement);
    assert_eq!(identities(&snapshot), vec![key(1), key(2)]);
    assert_eq!(snapshot.validator_classifications[0].stake_state, StakeState::Bonus);
    assert_eq!(snapshot.epoch, 200);
    assert_eq!(snapshot.cluster, Cluster::MainnetBeta);
}

#[test]
fn reported_metrics_are_set_exactly() {
    let mut snapshot = snapshot_of(&[1, 2, 3]);
    let reports = vec![report(3, b"three"), report(1, b"one"), report(9, b"nine")];
    let missing = merge_reported_metrics(&mut snapshot, &reports);
    assert_eq!(identities(&snapshot), vec![key(1), key(2), key(3)]);
    assert_eq!(
        metrics(&snapshot),
        vec![Some(b"one".to_vec()), None, Some(b"three".to_vec())]
    );
    assert_eq!(missing, vec![(key(2), Some(key(102)))]);
    assert_eq!(snapshot.validator_classifications[0].stake_state_reason, "reason 1");
    assert_eq!(snapshot.validator_classifications[0].participant, Some(key(101)));
}

#[test]
fn merging_twice_is_merging_once() {
    let mut once = snapshot_of(&[1, 2, 3]);
    let mut twice = snapshot_of(&[1, 2, 3]);
    let reports = vec![report(1, b"one"), report(2, b"two")];
    merge_reported_metrics(&mut once, &reports);
    merge_reported_metrics(&mut twice, &reports);
    let missing = merge_reported_metrics(&mut twice, &reports);
    assert_eq!(metrics(&once), metrics(&twice));
    assert_eq!(identities(&once), identities(&twice));
    assert_eq!(missing, vec![(key(3), Some(key(103)))]);
}

#[test]
fn an_unreported_validator_keeps_what_it_had() {
    let mut snapshot = snapshot_of(&[1, 2]);
    snapshot.validator_classifications[1].self_reported_metrics =
        Some(MetricBlob { bytes: b"earlier".to_vec() });
    let missing = merge_reported_metrics(&mut snapshot, &vec![report(1, b"new")]);
    assert_eq!(metrics(&snapshot), vec![Some(b"new".to_vec()), Some(b"earlier".to_vec())]);
    assert_eq!(missing, vec![(key(2), Some(key(102)))]);
}

#[test]
fn a_new_report_replaces_earlier_metrics() {
    let mut snapshot = snapshot_of(&[1]);
    merge_reported_metrics(&mut snapshot, &vec![report(1, b"first")]);
    merge_reported_metrics(&mut snapshot, &vec![report(1, b"second")]);
    assert_eq!(metrics(&snapshot), vec![Some(b"second".to_vec())]);
}

#[test]
fn of_two_reports_for_a_validator_the_later_counts() {
    let mut snapshot = snapshot_of(&[1]);
    merge_reported_metrics(&mut snapshot, &vec![report(1, b"first"), report(1, b"second")]);
    assert_eq!(metrics(&snapshot), vec![Some(b"second".to_vec())]);
}

#[test]
fn merging_nothing_changes_nothing() {
    let mut snapshot = snapshot_of(&[1, 2]);
    let missing = merge_reported_metrics(&mut snapshot, &vec![]);
    assert_eq!(metrics(&snapshot), vec![None, None]);
    assert_eq!(missing.len(), 2);
    let mut empty = snapshot_of(&[]);
    assert!(merge_reported_metrics(&mut empty, &vec![report(1, b"one")]).is_empty());
    assert!(empty.validator_classifications.is_empty());
}

#[test]
fn backfill_epoch_enriches_and_names_the_epoch_before() {
    let mut snapshot = snapshot_of(&[1, 2]);
    let next = backfill_epoch(&mut snapshot, 200, &vec![report(2, b"two")]);
    assert_eq!(next, 199);
    assert_eq!(metrics(&snapshot), vec![None, Some(b"two".to_vec())]);
    assert_eq!(backfill_epoch(&mut snapshot, 1, &vec![]), 0);
}
