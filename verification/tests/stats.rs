use epoch_pipeline::keys::{Cluster, Pubkey};
use epoch_pipeline::snapshot::{
    DataCenterId, DataCenterInfo, EpochSnapshot, StakeState, ValidatorClassification,
};
use epoch_pipeline::stats::{
    find_data_center, project_validator, project_validator_stats, SelfStake, SkipReason,
    ValidatorStatRecord, VoteAccountInfo,
};

fn key(n: u8) -> Pubkey {
    Pubkey::new([n; 32])
}

fn data_center(asn: u64, location: &str) -> DataCenterId {
    DataCenterId { asn, location: location.to_string() }
}

fn info(asn: u64, location: &str, stake: u64, percent: f64) -> DataCenterInfo {
    DataCenterInfo { id: data_center(asn, location), stake, stake_percent_bits: percent.to_bits() }
}

fn classification(n: u8, center: Option<DataCenterId>) -> ValidatorClassification {
    ValidatorClassification {
        identity: key(n),
        current_data_center: center,
        stake_state: StakeState::Bonus,
        stake_state_reason: "good".to_string(),
        stake_action: Some("add".to_string()),
        notes: vec!["first".to_string(), "second".to_string()],
        blocks: Some(90),
        slots: Some(100),
        self_reported_metrics: None,
        participant: None,
    }
}

fn vote(n: u8, credits: u64, commission: u8) -> VoteAccountInfo {
    VoteAccountInfo { identity: key(n), vote_address: key(n + 50), epoch_credits: credits, commission }
}

fn snapshot(classifications: Vec<ValidatorClassification>) -> EpochSnapshot {
    let mut snapshot = EpochSnapshot::new(201, Cluster::MainnetBeta);
    for classification in classifications {
        snapshot.insert_classification(classification);
    }
    snapshot.data_center_info = vec![info(1, "Berlin", 1_000, 12.5), info(2, "Tokyo", 2_000, 25.0)];
    snapshot
}

#[test]
fn a_record_joins_all_sources() {
    let snapshot = snapshot(vec![classification(1, Some(data_center(2, "Tokyo")))]);
    let projection = project_validator_stats(
        &snapshot,
        &vec![vote(1, 777, 10)],
        &vec![SelfStake { vote_address: key(51), lamports: 5_000 }],
    );
    assert!(projection.skipped.is_empty());
    assert_eq!(
        projection.records,
        vec![ValidatorStatRecord {
            validator: key(1),
            state: StakeState::Bonus,
            state_reason: "good".to_string(),
            state_action: Some("add".to_string()),
            notes: vec!["first".to_string(), "second".to_string()],
            blocks: Some(90),
            slots: Some(100),
            vote_credits: 777,
            commission: 10,
            epoch_data_center: data_center(2, "Tokyo"),
            data_center_stake: 2_000,
            data_center_stake_percent_bits: 25.0f64.to_bits(),
            self_stake: 5_000,
        }]
    );
}

#[test]
fn a_validator_without_vote_account_gets_no_record() {
    let snapshot = snapshot(vec![
        classification(1, Some(data_center(1, "Berlin"))),
        classification(2, Some(data_center(1, "Berlin"))),
        classification(3, Some(data_center(2, "Tokyo"))),
    ]);
    let projection = project_validator_stats(&snapshot, &vec![vote(3, 1, 0), vote(1, 2, 0)], &vec![]);
    let validators: Vec<Pubkey> = projection.records.iter().map(|r| r.validator).collect();
    assert_eq!(validators, vec![key(1), key(3)]);
    assert_eq!(projection.skipped, vec![(key(2), SkipReason::NoVoteAccount)]);
}

#[test]
fn a_validator_without_data_center_is_skipped() {
    let snapshot = snapshot(vec![
        classification(1, None),
        classification(2, Some(data_center(3, "Nowhere"))),
        classification(3, Some(data_center(1, "berlin"))),
        classification(4, Some(data_center(1, "Berlin"))),
    ]);
    let votes = vec![vote(1, 1, 0), vote(2, 1, 0), vote(3, 1, 0), vote(4, 1, 0)];
    let projection = project_validator_stats(&snapshot, &votes, &vec![]);
    assert_eq!(projection.records.len(), 1);
    assert_eq!(projection.records[0].validator, key(4));
    assert_eq!(
        projection.skipped,
        vec![
            (key(1), SkipReason::NoDataCenter),
            (key(2), SkipReason::UnknownDataCenter),
            (key(3), SkipReason::UnknownDataCenter),
        ]
    );
}

#[test]
fn a_missing_data_center_is_told_before_a_missing_vote_account() {
    let outcome = project_validator(&classification(1, None), &vec![], &vec![], &vec![]);
    assert_eq!(outcome, Err(SkipReason::NoDataCenter));
    let outcome = project_validator(
        &classification(1, Some(data_center(1, "Berlin"))),
        &vec![],
        &vec![],
        &vec![],
    );
    assert_eq!(outcome, Err(SkipReason::UnknownDataCenter));
    let outcome = project_validator(
        &classification(1, Some(data_center(1, "Berlin"))),
        &vec![info(1, "Berlin", 1, 1.0)],
        &vec![],
        &vec![],
    );
    assert_eq!(outcome, Err(SkipReason::NoVoteAccount));
}

#[test]
fn self_stake_defaults_to_zero() {
    let snapshot = snapshot(vec![classification(1, Some(data_center(1, "Berlin")))]);
    let stakes = vec![SelfStake { vote_address: key(1), lamports: 9 }];
    let projection = project_validator_stats(&snapshot, &vec![vote(1, 1, 0)], &stakes);
    assert_eq!(projection.records[0].self_stake, 0);
    assert_eq!(projection.records[0].data_center_stake, 1_000);
    assert_eq!(projection.records[0].data_center_stake_percent_bits, 12.5f64.to_bits());
}

#[test]
fn blocks_and_slots_come_together_or_not_at_all() {
    let mut only_blocks = classification(1, Some(data_center(1, "Berlin")));
    only_blocks.slots = None;
    let mut only_slots = classification(2, Some(data_center(1, "Berlin")));
    only_slots.blocks = None;
    let mut neither = classification(3, Some(data_center(1, "Berlin")));
    neither.blocks = None;
    neither.slots = None;
    let both = classification(4, Some(data_center(1, "Berlin")));
    let snapshot = snapshot(vec![only_blocks, only_slots, neither, both]);
    let votes = vec![vote(1, 1, 0), vote(2, 1, 0), vote(3, 1, 0), vote(4, 1, 0)];
    let projection = project_validator_stats(&snapshot, &votes, &vec![]);
    let counts: Vec<(Option<u64>, Option<u64>)> =
        projection.records.iter().map(|r| (r.blocks, r.slots)).collect();
    assert_eq!(counts, vec![(None, None), (None, None), (None, None), (Some(90), Some(100))]);
}

#[test]
fn the_later_of_two_entries_counts() {
    let mut snapshot = snapshot(vec![classification(1, Some(data_center(1, "Berlin")))]);
    snapshot.data_center_info.push(info(1, "Berlin", 3_000, 50.0));
    let votes = vec![vote(1, 10, 1), vote(1, 20, 2)];
    let stakes = vec![
        SelfStake { vote_address: key(51), lamports: 1 },
        SelfStake { vote_address: key(51), lamports: 2 },
    ];
    let projection = project_validator_stats(&snapshot, &votes, &stakes);
    let record = &projection.records[0];
    assert_eq!(record.data_center_stake, 3_000);
    assert_eq!(record.vote_credits, 20);
    assert_eq!(record.commission, 2);
    assert_eq!(record.self_stake, 2);
    assert_eq!(find_data_center(&snapshot.data_center_info, &data_center(1, "Berlin")), Some(2));
    assert_eq!(find_data_center(&snapshot.data_center_info, &data_center(2, "Tokyo")), Some(1));
    assert_eq!(find_data_center(&snapshot.data_center_info, &data_center(2, "Berlin")), None);
}

#[test]
fn an_empty_snapshot_projects_nothing() {
    let snapshot = snapshot(vec![]);
    let projection = project_validator_stats(&snapshot, &vec![vote(1, 1, 0)], &vec![]);
    assert!(projection.records.is_empty());
    assert!(projection.skipped.is_empty());
}

#[test]
fn a_record_copy_equals_the_record() {
    let snapshot = snapshot(vec![classification(1, Some(data_center(1, "Berlin")))]);
    let projection = project_validator_stats(&snapshot, &vec![vote(1, 1, 0)], &vec![]);
    assert_eq!(projection.records[0].clone(), projection.records[0]);
    assert!(data_center(1, "Berlin").same_as(&data_center(1, "Berlin")));
    assert!(!data_center(1, "Berlin").same_as(&data_center(1, "Bern")));
    assert!(!data_center(1, "Berlin").same_as(&data_center(2, "Berlin")));
}

#[test]
fn a_repeated_identity_in_the_list_gives_a_record_each_time() {
    let mut snapshot = snapshot(vec![classification(1, Some(data_center(1, "Berlin")))]);
    snapshot.validator_classifications.push(classification(1, Some(data_center(2, "Tokyo"))));
    let projection = project_validator_stats(&snapshot, &vec![vote(1, 1, 0)], &vec![]);
    assert_eq!(projection.records.len(), 2);
    assert_eq!(projection.records[0].validator, key(1));
    assert_eq!(projection.records[1].validator, key(1));
}
