//! Projection of a finalized snapshot and live chain data into one flat
//! statistics record per validator.

use crate::keys::{find_last, last_index_of, lemma_last_index_of, Keyed, Pubkey};
use crate::snapshot::{
    clone_optional_string, clone_strings, ClassificationView, DataCenterId, DataCenterIdView,
    DataCenterInfo, DataCenterInfoView, EpochSnapshot, StakeState, ValidatorClassification,
};
use vstd::prelude::*;

verus! {

/// What the chain reports of one validator's vote account in an epoch.
#[derive(Clone, Copy, Debug)]
pub struct VoteAccountInfo {
    pub identity: Pubkey,
    pub vote_address: Pubkey,
    pub epoch_credits: u64,
    pub commission: u8,
}

impl Keyed for VoteAccountInfo {
    open spec fn key_spec(&self) -> Pubkey {
        self.identity
    }

    fn key(&self) -> (k: Pubkey) {
        self.identity
    }
}

/// The stake that a validator holds on its own vote account.
#[derive(Clone, Copy, Debug)]
pub struct SelfStake {
    pub vote_address: Pubkey,
    pub lamports: u64,
}

impl Keyed for SelfStake {
    open spec fn key_spec(&self) -> Pubkey {
        self.vote_address
    }

    fn key(&self) -> (k: Pubkey) {
        self.vote_address
    }
}

/// The flattened statistics of one validator in one epoch.
#[derive(Debug, PartialEq, Eq)]
pub struct ValidatorStatRecord {
    pub validator: Pubkey,
    pub state: StakeState,
    pub state_reason: String,
    pub state_action: Option<String>,
    pub notes: Vec<String>,
    pub blocks: Option<u64>,
    pub slots: Option<u64>,
    pub vote_credits: u64,
    pub commission: u8,
    pub epoch_data_center: DataCenterId,
    pub data_center_stake: u64,
    pub data_center_stake_percent_bits: u64,
    pub self_stake: u64,
}

pub struct StatRecordView {
    pub validator: Pubkey,
    pub state: StakeState,
    pub state_reason: Seq<char>,
    pub state_action: Option<Seq<char>>,
    pub notes: Seq<Seq<char>>,
    pub blocks: Option<u64>,
    pub slots: Option<u64>,
    pub vote_credits: u64,
    pub commission: u8,
    pub epoch_data_center: DataCenterIdView,
    pub data_center_stake: u64,
    pub data_center_stake_percent_bits: u64,
    pub self_stake: u64,
}

impl View for ValidatorStatRecord {
    type V = StatRecordView;

    open spec fn view(&self) -> StatRecordView {
        StatRecordView {
            validator: self.validator,
            state: self.state,
            state_reason: self.state_reason@,
            state_action: self.state_action.deep_view(),
            notes: self.notes.deep_view(),
            blocks: self.blocks,
            slots: self.slots,
            vote_credits: self.vote_credits,
            commission: self.commission,
            epoch_data_center: self.epoch_data_center@,
            data_center_stake: self.data_center_stake,
            data_center_stake_percent_bits: self.data_center_stake_percent_bits,
            self_stake: self.self_stake,
        }
    }
}

impl DeepView for ValidatorStatRecord {
    type V = StatRecordView;

    open spec fn deep_view(&self) -> StatRecordView {
        self@
    }
}

impl Clone for ValidatorStatRecord {
    fn clone(&self) -> (copy: ValidatorStatRecord)
        ensures
            copy@ == self@,
    {
        ValidatorStatRecord {
            validator: self.validator,
            state: self.state,
            state_reason: self.state_reason.clone(),
            state_action: clone_optional_string(&self.state_action),
            notes: clone_strings(&self.notes),
            blocks: self.blocks,
            slots: self.slots,
            vote_credits: self.vote_credits,
            commission: self.commission,
            epoch_data_center: self.epoch_data_center.clone(),
            data_center_stake: self.data_center_stake,
            data_center_stake_percent_bits: self.data_center_stake_percent_bits,
            self_stake: self.self_stake,
        }
    }
}

/// Why a classified validator gets no statistics record.
#[derive(Clone, Copy, Debug, PartialEq, Eq, Structural)]
pub enum SkipReason {
    /// The classification names no current data center.
    NoDataCenter,
    /// The snapshot holds no stake figures for the named data center.
    UnknownDataCenter,
    /// The live vote accounts hold no entry for the validator.
    NoVoteAccount,
}

/// The index of the last entry of `infos` about data center `id`, if any.
pub open spec fn data_center_index(infos: Seq<DataCenterInfoView>, id: DataCenterIdView) -> Option<
    int,
>
    decreases infos.len(),
{
    if infos.len() == 0 {
        None
    } else if infos.last().id == id {
        Some(infos.len() - 1)
    } else {
        data_center_index(infos.drop_last(), id)
    }
}

/// The self stake recorded for `vote_address`, zero where none is recorded.
pub open spec fn self_stake_of(stakes: Seq<SelfStake>, vote_address: Pubkey) -> u64 {
    match last_index_of(stakes, vote_address) {
        Some(i) => stakes[i].lamports,
        None => 0,
    }
}

/// The record of one classified validator, or the reason why it has none.
/// Block and slot counts are reported only where the classification holds
/// both.
pub open spec fn projected_record(
    classification: ClassificationView,
    infos: Seq<DataCenterInfoView>,
    vote_accounts: Seq<VoteAccountInfo>,
    stakes: Seq<SelfStake>,
) -> Result<StatRecordView, SkipReason> {
    match classification.current_data_center {
        None => Err(SkipReason::NoDataCenter),
        Some(data_center) => match data_center_index(infos, data_center) {
            None => Err(SkipReason::UnknownDataCenter),
            Some(d) => match last_index_of(vote_accounts, classification.identity) {
                None => Err(SkipReason::NoVoteAccount),
                Some(v) => {
                    let counted = classification.blocks is Some && classification.slots is Some;
                    Ok(
                        StatRecordView {
                            validator: classification.identity,
                            state: classification.stake_state,
                            state_reason: classification.stake_state_reason,
                            state_action: classification.stake_action,
                            notes: classification.notes,
                            blocks: if counted {
                                classification.blocks
                            } else {
                                None
                            },
                            slots: if counted {
                                classification.slots
                            } else {
                                None
                            },
                            vote_credits: vote_accounts[v].epoch_credits,
                            commission: vote_accounts[v].commission,
                            epoch_data_center: data_center,
                            data_center_stake: infos[d].stake,
                            data_center_stake_percent_bits: infos[d].stake_percent_bits,
                            self_stake: self_stake_of(stakes, vote_accounts[v].vote_address),
                        },
                    )
                },
            },
        },
    }
}

/// The records of all classified validators that have one, in the order of
/// their classifications.
pub open spec fn projected_records(
    classifications: Seq<ClassificationView>,
    infos: Seq<DataCenterInfoView>,
    vote_accounts: Seq<VoteAccountInfo>,
    stakes: Seq<SelfStake>,
) -> Seq<StatRecordView>
    decreases classifications.len(),
{
    if classifications.len() == 0 {
        Seq::empty()
    } else {
        let front = projected_records(classifications.drop_last(), infos, vote_accounts, stakes);
        match projected_record(classifications.last(), infos, vote_accounts, stakes) {
            Ok(record) => front.push(record),
            Err(_) => front,
        }
    }
}

/// The validators that get no record, each with the reason, in the order of
/// their classifications.
pub open spec fn skipped_validators(
    classifications: Seq<ClassificationView>,
    infos: Seq<DataCenterInfoView>,
    vote_accounts: Seq<VoteAccountInfo>,
    stakes: Seq<SelfStake>,
) -> Seq<(Pubkey, SkipReason)>
    decreases classifications.len(),
{
    if classifications.len() == 0 {
        Seq::empty()
    } else {
        let front = skipped_validators(classifications.drop_last(), infos, vote_accounts, stakes);
        match projected_record(classifications.last(), infos, vote_accounts, stakes) {
            Ok(_) => front,
            Err(reason) => front.push((classifications.last().identity, reason)),
        }
    }
}

/// Finds the last entry of `infos` about data center `id`.
pub fn find_data_center(infos: &Vec<DataCenterInfo>, id: &DataCenterId) -> (found: Option<usize>)
    ensures
        match found {
            Some(i) => i < infos.len() && data_center_index(infos.deep_view(), id@) == Some(
                i as int,
            ),
            None => data_center_index(infos.deep_view(), id@) is None,
        },
{
    let ghost views = infos.deep_view();
    let mut i: usize = infos.len();
    proof {
        assert(views.take(i as int) =~= views);
    }
    while i > 0
        invariant
            i <= infos.len(),
            views == infos.deep_view(),
            data_center_index(views, id@) == data_center_index(views.take(i as int), id@),
        decreases i,
    {
        if infos[i - 1].id.same_as(id) {
            return Some(i - 1);
        }
        proof {
            assert(views.take(i as int).drop_last() =~= views.take(i - 1));
        }
        i -= 1;
    }
    None
}

/// Builds the record of one classified validator, or says why it has none.
pub fn project_validator(
    classification: &ValidatorClassification,
    infos: &Vec<DataCenterInfo>,
    vote_accounts: &Vec<VoteAccountInfo>,
    stakes: &Vec<SelfStake>,
) -> (outcome: Result<ValidatorStatRecord, SkipReason>)
    ensures
        match outcome {
            Ok(record) => projected_record(
                classification@,
                infos.deep_view(),
                vote_accounts@,
                stakes@,
            ) == Ok::<StatRecordView, SkipReason>(record@),
            Err(reason) => projected_record(
                classification@,
                infos.deep_view(),
                vote_accounts@,
                stakes@,
            ) == Err::<StatRecordView, SkipReason>(reason),
        },
{
    let data_center = match &classification.current_data_center {
        Some(data_center) => data_center,
        None => {
            return Err(SkipReason::NoDataCenter);
        },
    };
    let d = match find_data_center(infos, data_center) {
        Some(d) => d,
        None => {
            return Err(SkipReason::UnknownDataCenter);
        },
    };
    let v = match find_last(vote_accounts, &classification.identity) {
        Some(v) => v,
        None => {
            return Err(SkipReason::NoVoteAccount);
        },
    };
    proof {
        lemma_last_index_of(vote_accounts@, classification.identity);
        lemma_last_index_of(stakes@, vote_accounts[v as int].vote_address);
    }
    let account = vote_accounts[v];
    let self_stake = match find_last(stakes, &account.vote_address) {
        Some(s) => stakes[s].lamports,
        None => 0,
    };
    let counted = classification.blocks.is_some() && classification.slots.is_some();
    Ok(
        ValidatorStatRecord {
            validator: classification.identity,
            state: classification.stake_state,
            state_reason: classification.stake_state_reason.clone(),
            state_action: clone_optional_string(&classification.stake_action),
            notes: clone_strings(&classification.notes),
            blocks: if counted {
                classification.blocks
            } else {
                None
            },
            slots: if counted {
                classification.slots
            } else {
                None
            },
            vote_credits: account.epoch_credits,
            commission: account.commission,
            epoch_data_center: data_center.clone(),
            data_center_stake: infos[d].stake,
            data_center_stake_percent_bits: infos[d].stake_percent_bits,
            self_stake,
        },
    )
}

/// The outcome of projecting a snapshot.
#[derive(Debug, PartialEq, Eq)]
pub struct StatsProjection {
    /// One record per validator that has all of its join data.
    pub records: Vec<ValidatorStatRecord>,
    /// The validators left out, each with the reason.
    pub skipped: Vec<(Pubkey, SkipReason)>,
}

/// Every projected record belongs to a validator that has a live vote
/// account, takes its block and slot counts together or not at all, and
/// stems from one of the classifications.
pub proof fn lemma_projected_records(
    classifications: Seq<ClassificationView>,
    infos: Seq<DataCenterInfoView>,
    vote_accounts: Seq<VoteAccountInfo>,
    stakes: Seq<SelfStake>,
)
    ensures
        projected_records(classifications, infos, vote_accounts, stakes).len()
            + skipped_validators(classifications, infos, vote_accounts, stakes).len()
            == classifications.len(),
        forall|k: int|
            #![trigger projected_records(classifications, infos, vote_accounts, stakes)[k]]
            0 <= k < projected_records(classifications, infos, vote_accounts, stakes).len() ==> {
                let record = projected_records(classifications, infos, vote_accounts, stakes)[k];
                &&& last_index_of(vote_accounts, record.validator) is Some
                &&& record.blocks is Some <==> record.slots is Some
                &&& exists|i: int|
                    0 <= i < classifications.len() && projected_record(
                        #[trigger] classifications[i],
                        infos,
                        vote_accounts,
                        stakes,
                    ) == Ok::<StatRecordView, SkipReason>(record)
            },
    decreases classifications.len(),
{
    if classifications.len() > 0 {
        let front = classifications.drop_last();
        lemma_projected_records(front, infos, vote_accounts, stakes);
        let records = projected_records(classifications, infos, vote_accounts, stakes);
        let before = projected_records(front, infos, vote_accounts, stakes);
        assert forall|k: int| 0 <= k < records.len() implies {
            let record = #[trigger] records[k];
            &&& last_index_of(vote_accounts, record.validator) is Some
            &&& record.blocks is Some <==> record.slots is Some
            &&& exists|i: int|
                0 <= i < classifications.len() && projected_record(
                    #[trigger] classifications[i],
                    infos,
                    vote_accounts,
                    stakes,
                ) == Ok::<StatRecordView, SkipReason>(record)
        } by {
            if k < before.len() {
                let i = choose|i: int|
                    0 <= i < front.len() && projected_record(
                        #[trigger] front[i],
                        infos,
                        vote_accounts,
                        stakes,
                    ) == Ok::<StatRecordView, SkipReason>(before[k]);
                assert(front[i] == classifications[i]);
            } else {
                assert(classifications[classifications.len() - 1] == classifications.last());
            }
        }
    }
}

/// No two records belong to one validator.
pub open spec fn validators_distinct(records: Seq<StatRecordView>) -> bool {
    forall|a: int, b: int|
        0 <= a < b < records.len() ==> records[a].validator != records[b].validator
}

/// Where no identity is classified twice, no validator gets two records.
pub proof fn lemma_projected_records_distinct(
    classifications: Seq<ClassificationView>,
    infos: Seq<DataCenterInfoView>,
    vote_accounts: Seq<VoteAccountInfo>,
    stakes: Seq<SelfStake>,
)
    requires
        forall|i: int, j: int|
            0 <= i < j < classifications.len() ==> classifications[i].identity
                != classifications[j].identity,
    ensures
        validators_distinct(projected_records(classifications, infos, vote_accounts, stakes)),
    decreases classifications.len(),
{
    if classifications.len() > 0 {
        let front = classifications.drop_last();
        let last = classifications.len() - 1;
        assert(forall|i: int| 0 <= i < front.len() ==> front[i] == classifications[i]);
        lemma_projected_records_distinct(front, infos, vote_accounts, stakes);
        lemma_projected_records(front, infos, vote_accounts, stakes);
        let before = projected_records(front, infos, vote_accounts, stakes);
        let records = projected_records(classifications, infos, vote_accounts, stakes);
        assert forall|a: int, b: int| 0 <= a < b < records.len() implies records[a].validator
            != records[b].validator by {
            if b == before.len() {
                let i = choose|i: int|
                    0 <= i < front.len() && projected_record(
                        #[trigger] front[i],
                        infos,
                        vote_accounts,
                        stakes,
                    ) == Ok::<StatRecordView, SkipReason>(before[a]);
                assert(before[a].validator == classifications[i].identity);
                assert(records[b].validator == classifications[last].identity);
            } else {
                assert(records[a] == before[a] && records[b] == before[b]);
            }
        }
    }
}

/// A classified validator that has no live vote account produces no record:
/// it is passed over, and no record of the projection bears its identity.
pub proof fn lemma_no_vote_account_no_record(
    classifications: Seq<ClassificationView>,
    infos: Seq<DataCenterInfoView>,
    vote_accounts: Seq<VoteAccountInfo>,
    stakes: Seq<SelfStake>,
    i: int,
)
    requires
        0 <= i < classifications.len(),
        last_index_of(vote_accounts, classifications[i].identity) is None,
    ensures
        projected_record(classifications[i], infos, vote_accounts, stakes) is Err,
        forall|k: int|
            0 <= k < projected_records(classifications, infos, vote_accounts, stakes).len()
                ==> (#[trigger] projected_records(
                classifications,
                infos,
                vote_accounts,
                stakes,
            )[k]).validator != classifications[i].identity,
{
    lemma_projected_records(classifications, infos, vote_accounts, stakes);
}

/// Projects a finalized snapshot and the live chain data into statistics
/// records. A validator whose data center is unset or unknown, or that has
/// no live vote account, is skipped; nothing is an error. A snapshot that
/// classifies no identity twice yields at most one record per validator.
pub fn project_validator_stats(
    snapshot: &EpochSnapshot,
    vote_accounts: &Vec<VoteAccountInfo>,
    stakes: &Vec<SelfStake>,
) -> (projection: StatsProjection)
    ensures
        projection.records.deep_view() == projected_records(
            snapshot@.validator_classifications,
            snapshot@.data_center_info,
            vote_accounts@,
            stakes@,
        ),
        projection.skipped@ == skipped_validators(
            snapshot@.validator_classifications,
            snapshot@.data_center_info,
            vote_accounts@,
            stakes@,
        ),
        forall|k: int|
            0 <= k < projection.records.len() ==> last_index_of(
                vote_accounts@,
                #[trigger] projection.records[k].validator,
            ) is Some,
        snapshot@.wf() ==> validators_distinct(projection.records.deep_view()),
{
    let ghost all = snapshot@.validator_classifications;
    let ghost infos = snapshot@.data_center_info;
    let mut records: Vec<ValidatorStatRecord> = Vec::new();
    let mut skipped: Vec<(Pubkey, SkipReason)> = Vec::new();
    let mut i: usize = 0;
    while i < snapshot.validator_classifications.len()
        invariant
            i <= snapshot.validator_classifications.len(),
            all == snapshot@.validator_classifications,
            infos == snapshot@.data_center_info,
            records.deep_view() == projected_records(
                all.take(i as int),
                infos,
                vote_accounts@,
                stakes@,
            ),
            skipped@ == skipped_validators(all.take(i as int), infos, vote_accounts@, stakes@),
        decreases snapshot.validator_classifications.len() - i,
    {
        let classification = &snapshot.validator_classifications[i];
        proof {
            assert(all.take(i + 1).drop_last() =~= all.take(i as int));
        }
        match project_validator(classification, &snapshot.data_center_info, vote_accounts, stakes) {
            Ok(record) => {
                records.push(record);
            },
            Err(reason) => {
                skipped.push((classification.identity, reason));
            },
        }
        i += 1;
    }
    proof {
        assert(all.take(i as int) =~= all);
        lemma_projected_records(all, infos, vote_accounts@, stakes@);
        if snapshot@.wf() {
            lemma_projected_records_distinct(all, infos, vote_accounts@, stakes@);
        }
        assert forall|k: int| 0 <= k < records.len() implies last_index_of(
            vote_accounts@,
            #[trigger] records[k].validator,
        ) is Some by {
            assert(records.deep_view()[k] == records[k]@);
        }
    }
    StatsProjection { records, skipped }
}

} // verus!
