use epoch_pipeline::backfill::{
    backfill_self_reporting, BackfillWalker, WalkAction, WalkError, WalkEvent, WalkState,
};
use epoch_pipeline::keys::{Cluster, Epoch, Pubkey};
use epoch_pipeline::metrics::ReportedMetric;
use epoch_pipeline::snapshot::{EpochSnapshot, MetricBlob, StakeState, ValidatorClassification};

fn key(n: u8) -> Pubkey {
    Pubkey::new([n; 32])
}

fn snapshot(epoch: Epoch, identities: &[u8]) -> EpochSnapshot {
    let mut snapshot = EpochSnapshot::new(epoch, Cluster::Testnet);
    for n in identities {
        snapshot.insert_classification(ValidatorClassification {
            identity: key(*n),
            current_data_center: None,
            stake_state: StakeState::Bonus,
            stake_state_reason: String::new(),
            stake_action: None,
            notes: vec![],
            blocks: None,
            slots: None,
            self_reported_metrics: None,
            participant: None,
        });
    }
    snapshot
}

fn report(n: u8, bytes: &[u8]) -> ReportedMetric {
    ReportedMetric { identity: key(n), metrics: MetricBlob { bytes: bytes.to_vec() } }
}

/// A store that holds snapshots of the given epochs and answers a load by
/// the latest epoch before the one asked for.
fn load_previous(stored: &[Epoch], chained_from: Epoch) -> Option<Epoch> {
    stored.iter().copied().filter(|epoch| *epoch < chained_from).max()
}

#[test]
fn a_walk_starts_by_loading_the_successor_of_the_head() {
    let walker = backfill_self_reporting(5);
    assert_eq!(walker.state(), WalkState::Trying(5));
    assert_eq!(walker.next_action(), WalkAction::Load { chained_from: 6 });
    assert!(walker.snapshot().is_none());
    assert!(walker.unreported().is_empty());
    let walker = BackfillWalker::new(0);
    assert_eq!(walker.next_action(), WalkAction::Load { chained_from: 1 });
}

#[test]
fn a_chain_is_walked_downwards_until_it_ends() {
    let stored = [3, 4, 5];
    let mut walker = backfill_self_reporting(5);
    let mut loads = vec![];
    let mut fetched = vec![];
    let mut saved = vec![];
    let mut action = walker.next_action();
    let mut steps = 0;
    while action != WalkAction::Halt {
        steps += 1;
        assert!(steps < 100);
        action = match action {
            WalkAction::Load { chained_from } => {
                loads.push(chained_from);
                match load_previous(&stored, chained_from) {
                    Some(epoch) => walker.advance(WalkEvent::Loaded {
                        subsequent_epoch: epoch,
                        snapshot: snapshot(epoch, &[1]),
                    }),
                    None => walker.advance(WalkEvent::NotLoaded),
                }
            }
            WalkAction::FetchMetrics { as_of_epoch } => {
                fetched.push(as_of_epoch);
                walker.advance(WalkEvent::Metrics { reported: vec![report(1, b"m")] })
            }
            WalkAction::Save { epoch } => {
                let (held, enriched) = walker.snapshot().unwrap();
                assert_eq!(held, epoch);
                assert_eq!(enriched.epoch, epoch);
                assert_eq!(
                    enriched.validator_classifications[0].self_reported_metrics,
                    Some(MetricBlob { bytes: b"m".to_vec() })
                );
                saved.push(epoch);
                walker.advance(WalkEvent::Saved)
            }
            WalkAction::Halt => WalkAction::Halt,
        };
    }
    assert_eq!(loads, vec![6, 5, 4, 3]);
    assert_eq!(fetched, vec![4, 3, 2]);
    assert_eq!(saved, vec![5, 4, 3]);
    assert_eq!(walker.state(), WalkState::Failed(WalkError::LoadFailed));
    assert!(walker.snapshot().is_none());
}

#[test]
fn a_gap_in_the_chain_is_stepped_over() {
    let mut walker = backfill_self_reporting(9);
    assert_eq!(
        walker.advance(WalkEvent::Loaded { subsequent_epoch: 6, snapshot: snapshot(6, &[]) }),
        WalkAction::FetchMetrics { as_of_epoch: 5 }
    );
    assert_eq!(walker.state(), WalkState::Trying(9));
    assert_eq!(walker.advance(WalkEvent::Metrics { reported: vec![] }), WalkAction::Save { epoch: 6 });
    assert_eq!(walker.state(), WalkState::Enriched(6));
    assert_eq!(walker.advance(WalkEvent::Saved), WalkAction::Load { chained_from: 6 });
    assert_eq!(walker.state(), WalkState::Trying(5));
}

#[test]
fn the_walker_reports_who_reported_nothing() {
    let mut walker = backfill_self_reporting(5);
    walker.advance(WalkEvent::Loaded { subsequent_epoch: 5, snapshot: snapshot(5, &[1, 2, 3]) });
    walker.advance(WalkEvent::Metrics { reported: vec![report(2, b"two")] });
    assert_eq!(walker.unreported(), &vec![(key(1), None), (key(3), None)]);
    let (_, enriched) = walker.snapshot().unwrap();
    assert!(enriched.validator_classifications[0].self_reported_metrics.is_none());
    assert!(enriched.validator_classifications[1].self_reported_metrics.is_some());
}

#[test]
fn a_failed_fetch_fails_the_walk() {
    let mut walker = backfill_self_reporting(5);
    walker.advance(WalkEvent::Loaded { subsequent_epoch: 5, snapshot: snapshot(5, &[1]) });
    assert_eq!(walker.advance(WalkEvent::MetricsFailed), WalkAction::Halt);
    assert_eq!(walker.state(), WalkState::Failed(WalkError::MetricsFailed));
    assert!(walker.snapshot().is_none());
}

#[test]
fn a_failed_save_fails_the_walk() {
    let mut walker = backfill_self_reporting(5);
    walker.advance(WalkEvent::Loaded { subsequent_epoch: 5, snapshot: snapshot(5, &[1]) });
    walker.advance(WalkEvent::Metrics { reported: vec![] });
    assert_eq!(walker.advance(WalkEvent::SaveFailed), WalkAction::Halt);
    assert_eq!(walker.state(), WalkState::Failed(WalkError::SaveFailed));
}

#[test]
fn an_event_out_of_turn_fails_the_walk() {
    let mut walker = backfill_self_reporting(5);
    assert_eq!(walker.advance(WalkEvent::Saved), WalkAction::Halt);
    assert_eq!(walker.state(), WalkState::Failed(WalkError::OutOfTurn));

    let mut walker = backfill_self_reporting(5);
    walker.advance(WalkEvent::Loaded { subsequent_epoch: 5, snapshot: snapshot(5, &[]) });
    assert_eq!(walker.advance(WalkEvent::NotLoaded), WalkAction::Halt);
    assert_eq!(walker.state(), WalkState::Failed(WalkError::OutOfTurn));

    let mut walker = backfill_self_reporting(5);
    walker.advance(WalkEvent::Loaded { subsequent_epoch: 5, snapshot: snapshot(5, &[]) });
    walker.advance(WalkEvent::Metrics { reported: vec![] });
    assert_eq!(walker.advance(WalkEvent::Metrics { reported: vec![] }), WalkAction::Halt);
    assert_eq!(walker.state(), WalkState::Failed(WalkError::OutOfTurn));
}

#[test]
fn a_failed_walk_stays_failed() {
    let mut walker = backfill_self_reporting(5);
    walker.advance(WalkEvent::NotLoaded);
    for event in [
        WalkEvent::Loaded { subsequent_epoch: 4, snapshot: snapshot(4, &[]) },
        WalkEvent::Metrics { reported: vec![] },
        WalkEvent::Saved,
        WalkEvent::NotLoaded,
        WalkEvent::SaveFailed,
        WalkEvent::MetricsFailed,
    ] {
        assert_eq!(walker.advance(event), WalkAction::Halt);
        assert_eq!(walker.state(), WalkState::Failed(WalkError::LoadFailed));
        assert!(walker.snapshot().is_none());
    }
}
