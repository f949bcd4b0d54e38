//! The classification record of one epoch of one cluster.

use crate::keys::{find_last, last_index_of, lemma_last_index_of, Cluster, Epoch, Keyed, Pubkey};
use vstd::prelude::*;

verus! {

/// How much delegation a validator should receive.
#[derive(Clone, Copy, Debug, PartialEq, Eq, Hash, Structural)]
pub enum StakeState {
    NoStake,
    Baseline,
    Bonus,
}

/// Copies a list of strings.
pub fn clone_strings(items: &Vec<String>) -> (copy: Vec<String>)
    ensures
        copy.deep_view() == items.deep_view(),
{
    let mut copy: Vec<String> = Vec::new();
    let mut i: usize = 0;
    while i < items.len()
        invariant
            i <= items.len(),
            copy.len() == i,
            forall|j: int| 0 <= j < i ==> copy[j]@ == items[j]@,
        decreases items.len() - i,
    {
        copy.push(items[i].clone());
        i += 1;
    }
    copy
}

/// Copies an optional string.
pub fn clone_optional_string(item: &Option<String>) -> (copy: Option<String>)
    ensures
        copy.deep_view() == item.deep_view(),
{
    match item {
        Some(text) => Some(text.clone()),
        None => None,
    }
}

/// Identifies a data center: the network's number and a location label.
#[derive(Debug, PartialEq, Eq)]
pub struct DataCenterId {
    pub asn: u64,
    pub location: String,
}

pub struct DataCenterIdView {
    pub asn: u64,
    pub location: Seq<char>,
}

impl View for DataCenterId {
    type V = DataCenterIdView;

    open spec fn view(&self) -> DataCenterIdView {
        DataCenterIdView { asn: self.asn, location: self.location@ }
    }
}

impl DeepView for DataCenterId {
    type V = DataCenterIdView;

    open spec fn deep_view(&self) -> DataCenterIdView {
        self@
    }
}

impl Clone for DataCenterId {
    fn clone(&self) -> (copy: DataCenterId)
        ensures
            copy@ == self@,
    {
        DataCenterId { asn: self.asn, location: self.location.clone() }
    }
}

impl DataCenterId {
    /// Whether both identifiers name the same data center.
    pub fn same_as(&self, other: &DataCenterId) -> (same: bool)
        ensures
            same == (self@ == other@),
    {
        self.asn == other.asn && self.location == other.location
    }
}

/// The stake gathered behind one data center. The percentage is carried as
/// the bit pattern of a binary64 number; the pipeline never computes with it.
#[derive(Debug, PartialEq, Eq)]
pub struct DataCenterInfo {
    pub id: DataCenterId,
    pub stake: u64,
    pub stake_percent_bits: u64,
}

pub struct DataCenterInfoView {
    pub id: DataCenterIdView,
    pub stake: u64,
    pub stake_percent_bits: u64,
}

impl View for DataCenterInfo {
    type V = DataCenterInfoView;

    open spec fn view(&self) -> DataCenterInfoView {
        DataCenterInfoView {
            id: self.id@,
            stake: self.stake,
            stake_percent_bits: self.stake_percent_bits,
        }
    }
}

impl DeepView for DataCenterInfo {
    type V = DataCenterInfoView;

    open spec fn deep_view(&self) -> DataCenterInfoView {
        self@
    }
}

/// Metrics a validator operator reported about itself, as an opaque blob.
#[derive(Debug, PartialEq, Eq)]
pub struct MetricBlob {
    pub bytes: Vec<u8>,
}

impl View for MetricBlob {
    type V = Seq<u8>;

    open spec fn view(&self) -> Seq<u8> {
        self.bytes@
    }
}

impl DeepView for MetricBlob {
    type V = Seq<u8>;

    open spec fn deep_view(&self) -> Seq<u8> {
        self@
    }
}

impl Clone for MetricBlob {
    fn clone(&self) -> (copy: MetricBlob)
        ensures
            copy@ == self@,
    {
        MetricBlob { bytes: self.bytes.clone() }
    }
}

/// One validator's outcome within a snapshot.
#[derive(Debug, PartialEq, Eq)]
pub struct ValidatorClassification {
    pub identity: Pubkey,
    pub current_data_center: Option<DataCenterId>,
    pub stake_state: StakeState,
    pub stake_state_reason: String,
    pub stake_action: Option<String>,
    pub notes: Vec<String>,
    pub blocks: Option<u64>,
    pub slots: Option<u64>,
    pub self_reported_metrics: Option<MetricBlob>,
    pub participant: Option<Pubkey>,
}

pub struct ClassificationView {
    pub identity: Pubkey,
    pub current_data_center: Option<DataCenterIdView>,
    pub stake_state: StakeState,
    pub stake_state_reason: Seq<char>,
    pub stake_action: Option<Seq<char>>,
    pub notes: Seq<Seq<char>>,
    pub blocks: Option<u64>,
    pub slots: Option<u64>,
    pub self_reported_metrics: Option<Seq<u8>>,
    pub participant: Option<Pubkey>,
}

impl View for ValidatorClassification {
    type V = ClassificationView;

    open spec fn view(&self) -> ClassificationView {
        ClassificationView {
            identity: self.identity,
            current_data_center: self.current_data_center.deep_view(),
            stake_state: self.stake_state,
            stake_state_reason: self.stake_state_reason@,
            stake_action: self.stake_action.deep_view(),
            notes: self.notes.deep_view(),
            blocks: self.blocks,
            slots: self.slots,
            self_reported_metrics: self.self_reported_metrics.deep_view(),
            participant: self.participant,
        }
    }
}

impl DeepView for ValidatorClassification {
    type V = ClassificationView;

    open spec fn deep_view(&self) -> ClassificationView {
        self@
    }
}

impl Keyed for ValidatorClassification {
    open spec fn key_spec(&self) -> Pubkey {
        self.identity
    }

    fn key(&self) -> (k: Pubkey) {
        self.identity
    }
}

/// The classification record for one epoch of one cluster.
#[derive(Debug, PartialEq, Eq)]
pub struct EpochSnapshot {
    pub epoch: Epoch,
    pub cluster: Cluster,
    pub validator_classifications: Vec<ValidatorClassification>,
    pub data_center_info: Vec<DataCenterInfo>,
    pub notes: Vec<String>,
}

pub struct SnapshotView {
    pub epoch: Epoch,
    pub cluster: Cluster,
    pub validator_classifications: Seq<ClassificationView>,
    pub data_center_info: Seq<DataCenterInfoView>,
    pub notes: Seq<Seq<char>>,
}

impl View for EpochSnapshot {
    type V = SnapshotView;

    open spec fn view(&self) -> SnapshotView {
        SnapshotView {
            epoch: self.epoch,
            cluster: self.cluster,
            validator_classifications: self.validator_classifications.deep_view(),
            data_center_info: self.data_center_info.deep_view(),
            notes: self.notes.deep_view(),
        }
    }
}

impl SnapshotView {
    /// The identities that the snapshot classifies.
    pub open spec fn identities(self) -> Set<Pubkey> {
        Set::new(
            |key: Pubkey|
                exists|i: int|
                    0 <= i < self.validator_classifications.len()
                        && #[trigger] self.validator_classifications[i].identity == key,
        )
    }

    /// No identity is classified twice.
    pub open spec fn wf(self) -> bool {
        forall|i: int, j: int|
            0 <= i < j < self.validator_classifications.len()
                ==> self.validator_classifications[i].identity
                != self.validator_classifications[j].identity
    }
}

impl EpochSnapshot {
    /// A snapshot of `epoch` that classifies no validator yet.
    pub fn new(epoch: Epoch, cluster: Cluster) -> (snapshot: EpochSnapshot)
        ensures
            snapshot@.epoch == epoch,
            snapshot@.cluster == cluster,
            snapshot@.validator_classifications.len() == 0,
            snapshot@.data_center_info.len() == 0,
            snapshot@.notes.len() == 0,
            snapshot@.wf(),
    {
        EpochSnapshot {
            epoch,
            cluster,
            validator_classifications: Vec::new(),
            data_center_info: Vec::new(),
            notes: Vec::new(),
        }
    }

    /// Files `classification` under its identity: it replaces the entry of
    /// that identity where there is one, and is added at the end otherwise.
    pub fn insert_classification(&mut self, classification: ValidatorClassification)
        ensures
            final(self)@.epoch == old(self)@.epoch,
            final(self)@.cluster == old(self)@.cluster,
            final(self)@.data_center_info == old(self)@.data_center_info,
            final(self)@.notes == old(self)@.notes,
            final(self)@.validator_classifications == (match last_index_of(
                old(self).validator_classifications@,
                classification.identity,
            ) {
                Some(i) => old(self)@.validator_classifications.update(i, classification@),
                None => old(self)@.validator_classifications.push(classification@),
            }),
            old(self)@.wf() ==> final(self)@.wf(),
    {
        let key = classification.identity;
        let ghost before = self.validator_classifications@;
        let ghost added = classification@;
        proof {
            lemma_last_index_of(before, key);
        }
        match find_last(&self.validator_classifications, &key) {
            Some(i) => {
                self.validator_classifications[i] = classification;
                proof {
                    assert(self.validator_classifications.deep_view() =~= before.map_values(
                        |c: ValidatorClassification| c@,
                    ).update(i as int, added));
                    assert(old(self)@.validator_classifications =~= before.map_values(
                        |c: ValidatorClassification| c@,
                    ));
                    assert(forall|j: int|
                        0 <= j < before.len() ==> #[trigger] self@.validator_classifications[j].identity
                            == old(self)@.validator_classifications[j].identity);
                }
            },
            None => {
                self.validator_classifications.push(classification);
                proof {
                    assert(self.validator_classifications.deep_view() =~= before.map_values(
                        |c: ValidatorClassification| c@,
                    ).push(added));
                    assert(old(self)@.validator_classifications =~= before.map_values(
                        |c: ValidatorClassification| c@,
                    ));
                    assert(forall|j: int|
                        0 <= j < before.len() ==> #[trigger] self@.validator_classifications[j].identity
                            == before[j].key_spec());
                }
            },
        }
    }
}

} // verus!
