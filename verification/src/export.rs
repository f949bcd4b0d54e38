//! The export of one epoch into the relational store.
//!
//! An export is a fixed sequence of lookups by unique key, each answered by
//! at most one write: for every statistics record the validator's row of the
//! epoch and then the validator's running summary, after them the epoch's
//! notes, and last the key pairs of the participants. The session decides
//! what to look up and what to write; its driver runs the statements inside
//! one transaction, commits when the session is finished, and rolls back
//! when it is aborted.

use crate::keys::{Cluster, Epoch, Pubkey};
use crate::names::{display_names, names_of, ValidatorInfo};
use crate::notes::{NoteValueView, StructuredNotes};
use crate::persist::{
    plan_keypair, plan_summary, plan_upsert, planned_keypair, planned_summary, planned_upsert,
    EpochSummaries, KeyPairPlan, KeyPairRow, KeyPairRowView, Participant, ParticipantView,
    SummaryPlan, SummaryPlanView, Upsert, ValidatorStatsRow, ValidatorStatsRowView,
};
use crate::rules::{extracted, unmatched_lines};
use crate::snapshot::{EpochSnapshot, StakeState};
use crate::stats::{
    project_validator_stats, projected_records, skipped_validators, validators_distinct,
    SelfStake, SkipReason, StatRecordView, ValidatorStatRecord, VoteAccountInfo,
};
use crate::table::{epoch_note_rules, read_epoch_notes};
use vstd::prelude::*;

verus! {

/// A lookup by the unique key of a table.
#[derive(Debug, PartialEq, Eq)]
pub enum Lookup {
    /// The row of one validator in one epoch.
    ValidatorEpochStats { epoch: i32, validator: Pubkey },
    /// The running summary of one validator in one cluster.
    ValidatorStats { cluster: Cluster, validator: Pubkey },
    /// The row of one epoch of one cluster.
    EpochStats { epoch: i32, cluster: Cluster },
    /// The key pair row of one participant.
    ValidatorKeyPair { pubkey: String },
}

pub enum LookupView {
    ValidatorEpochStats { epoch: i32, validator: Pubkey },
    ValidatorStats { cluster: Cluster, validator: Pubkey },
    EpochStats { epoch: i32, cluster: Cluster },
    ValidatorKeyPair { pubkey: Seq<char> },
}

impl View for Lookup {
    type V = LookupView;

    open spec fn view(&self) -> LookupView {
        match self {
            Lookup::ValidatorEpochStats { epoch, validator } => LookupView::ValidatorEpochStats {
                epoch: *epoch,
                validator: *validator,
            },
            Lookup::ValidatorStats { cluster, validator } => LookupView::ValidatorStats {
                cluster: *cluster,
                validator: *validator,
            },
            Lookup::EpochStats { epoch, cluster } => LookupView::EpochStats {
                epoch: *epoch,
                cluster: *cluster,
            },
            Lookup::ValidatorKeyPair { pubkey } => LookupView::ValidatorKeyPair { pubkey: pubkey@ },
        }
    }
}

impl DeepView for Lookup {
    type V = LookupView;

    open spec fn deep_view(&self) -> LookupView {
        self@
    }
}

/// The rows that a lookup found.
#[derive(Debug, PartialEq, Eq)]
pub enum Rows {
    /// The ids of the rows found in the table of validator epoch rows or of
    /// epoch rows.
    Ids(Vec<i32>),
    /// The rows found in the table of validator summaries.
    Summaries(Vec<ValidatorStatsRow>),
    /// The rows found in the table of key pairs.
    KeyPairs(Vec<KeyPairRow>),
}

pub enum RowsView {
    Ids(Seq<i32>),
    Summaries(Seq<ValidatorStatsRowView>),
    KeyPairs(Seq<KeyPairRowView>),
}

impl View for Rows {
    type V = RowsView;

    open spec fn view(&self) -> RowsView {
        match self {
            Rows::Ids(ids) => RowsView::Ids(ids@),
            Rows::Summaries(rows) => RowsView::Summaries(rows.deep_view()),
            Rows::KeyPairs(rows) => RowsView::KeyPairs(rows.deep_view()),
        }
    }
}

impl RowsView {
    /// How many rows were found.
    pub open spec fn count(self) -> nat {
        match self {
            RowsView::Ids(ids) => ids.len(),
            RowsView::Summaries(rows) => rows.len(),
            RowsView::KeyPairs(rows) => rows.len(),
        }
    }
}

/// One write to the store.
#[derive(Debug, PartialEq, Eq)]
pub enum Write {
    InsertValidatorEpochStats {
        validator: Pubkey,
        epoch: i32,
        cluster: Cluster,
        stats: ValidatorStatRecord,
    },
    UpdateValidatorEpochStats { id: i32, epoch: i32, cluster: Cluster, stats: ValidatorStatRecord },
    InsertValidatorStats {
        validator: Pubkey,
        cluster: Cluster,
        epochs: EpochSummaries,
        name: String,
        keybase_username: String,
    },
    UpdateValidatorStats { id: i32, epochs: EpochSummaries, name: String, keybase_username: String },
    InsertEpochStats { epoch: i32, cluster: Cluster, notes: StructuredNotes },
    UpdateEpochStats { id: i32, epoch: i32, cluster: Cluster, notes: StructuredNotes },
    InsertKeyPair { pubkey: String, mainnet_beta_pk: String, testnet_pk: String, state: String },
    UpdateKeyPair { id: i32, state: String, mainnet_beta_pk: String, testnet_pk: String },
}

pub enum WriteView {
    InsertValidatorEpochStats {
        validator: Pubkey,
        epoch: i32,
        cluster: Cluster,
        stats: StatRecordView,
    },
    UpdateValidatorEpochStats { id: i32, epoch: i32, cluster: Cluster, stats: StatRecordView },
    InsertValidatorStats {
        validator: Pubkey,
        cluster: Cluster,
        epochs: Map<i32, StakeState>,
        name: Seq<char>,
        keybase_username: Seq<char>,
    },
    UpdateValidatorStats {
        id: i32,
        epochs: Map<i32, StakeState>,
        name: Seq<char>,
        keybase_username: Seq<char>,
    },
    InsertEpochStats { epoch: i32, cluster: Cluster, notes: Map<Seq<char>, NoteValueView> },
    UpdateEpochStats { id: i32, epoch: i32, cluster: Cluster, notes: Map<Seq<char>, NoteValueView> },
    InsertKeyPair {
        pubkey: Seq<char>,
        mainnet_beta_pk: Seq<char>,
        testnet_pk: Seq<char>,
        state: Seq<char>,
    },
    UpdateKeyPair { id: i32, state: Seq<char>, mainnet_beta_pk: Seq<char>, testnet_pk: Seq<char> },
}

impl View for Write {
    type V = WriteView;

    open spec fn view(&self) -> WriteView {
        match self {
            Write::InsertValidatorEpochStats {
                validator,
                epoch,
                cluster,
                stats,
            } => WriteView::InsertValidatorEpochStats {
                validator: *validator,
                epoch: *epoch,
                cluster: *cluster,
                stats: stats@,
            },
            Write::UpdateValidatorEpochStats {
                id,
                epoch,
                cluster,
                stats,
            } => WriteView::UpdateValidatorEpochStats {
                id: *id,
                epoch: *epoch,
                cluster: *cluster,
                stats: stats@,
            },
            Write::InsertValidatorStats {
                validator,
                cluster,
                epochs,
                name,
                keybase_username,
            } => WriteView::InsertValidatorStats {
                validator: *validator,
                cluster: *cluster,
                epochs: epochs@,
                name: name@,
                keybase_username: keybase_username@,
            },
            Write::UpdateValidatorStats {
                id,
                epochs,
                name,
                keybase_username,
            } => WriteView::UpdateValidatorStats {
                id: *id,
                epochs: epochs@,
                name: name@,
                keybase_username: keybase_username@,
            },
            Write::InsertEpochStats { epoch, cluster, notes } => WriteView::InsertEpochStats {
                epoch: *epoch,
                cluster: *cluster,
                notes: notes@,
            },
            Write::UpdateEpochStats { id, epoch, cluster, notes } => WriteView::UpdateEpochStats {
                id: *id,
                epoch: *epoch,
                cluster: *cluster,
                notes: notes@,
            },
            Write::InsertKeyPair {
                pubkey,
                mainnet_beta_pk,
                testnet_pk,
                state,
            } => WriteView::InsertKeyPair {
                pubkey: pubkey@,
                mainnet_beta_pk: mainnet_beta_pk@,
                testnet_pk: testnet_pk@,
                state: state@,
            },
            Write::UpdateKeyPair {
                id,
                state,
                mainnet_beta_pk,
                testnet_pk,
            } => WriteView::UpdateKeyPair {
                id: *id,
                state: state@,
                mainnet_beta_pk: mainnet_beta_pk@,
                testnet_pk: testnet_pk@,
            },
        }
    }
}

impl DeepView for Write {
    type V = WriteView;

    open spec fn deep_view(&self) -> WriteView {
        self@
    }
}

/// Why an export was given up.
#[derive(Clone, Copy, Debug, PartialEq, Eq)]
pub enum ExportError {
    /// The epoch does not fit the store's 32-bit epoch column.
    EpochOutOfRange { epoch: Epoch },
    /// More than one row holds this validator's statistics of the epoch.
    DuplicateValidatorEpochStats { validator: Pubkey },
    /// More than one row holds this validator's summary.
    DuplicateValidatorStats { validator: Pubkey },
    /// More than one row holds the epoch's notes.
    DuplicateEpochStats,
    /// More than one row holds the key pair of the participant at this
    /// index.
    DuplicateKeyPair { participant: usize },
    /// The info about this validator holds a name or a username that is no
    /// string.
    MalformedValidatorInfo { validator: Pubkey },
    /// The rows handed in are not of the table that was looked up.
    UnexpectedRows,
    /// Rows were handed in though no lookup was pending.
    NothingPending,
}

/// Where an export stands: what is looked up next.
#[derive(Clone, Copy, Debug, PartialEq, Eq, Structural)]
pub enum ExportStep {
    /// The epoch row of the record at this index.
    EpochStatsOf(usize),
    /// The summary of the validator of the record at this index.
    SummaryOf(usize),
    /// The epoch's notes.
    Notes,
    /// The key pair of the participant at this index.
    KeyPairOf(usize),
    /// Every write was planned: the transaction can be committed.
    Finished,
    /// The export was given up: the transaction must be rolled back.
    Aborted,
}

/// The export of one epoch.
#[derive(Debug)]
pub struct ExportSession {
    epoch: i32,
    cluster: Cluster,
    records: Vec<ValidatorStatRecord>,
    skipped: Vec<(Pubkey, SkipReason)>,
    notes: StructuredNotes,
    unmatched_notes: Vec<usize>,
    names: Vec<ValidatorInfo>,
    participants: Vec<Participant>,
    step: ExportStep,
}

pub struct SessionView {
    pub epoch: i32,
    pub cluster: Cluster,
    pub records: Seq<StatRecordView>,
    pub skipped: Seq<(Pubkey, SkipReason)>,
    pub notes: Map<Seq<char>, NoteValueView>,
    pub unmatched_notes: Seq<usize>,
    pub names: Seq<ValidatorInfo>,
    pub participants: Seq<ParticipantView>,
    pub step: ExportStep,
}

impl View for ExportSession {
    type V = SessionView;

    closed spec fn view(&self) -> SessionView {
        SessionView {
            epoch: self.epoch,
            cluster: self.cluster,
            records: self.records.deep_view(),
            skipped: self.skipped@,
            notes: self.notes@,
            unmatched_notes: self.unmatched_notes@,
            names: self.names@,
            participants: self.participants.deep_view(),
            step: self.step,
        }
    }
}

/// The first step of an export of `records` records and `participants`
/// participants.
pub open spec fn first_step(records: nat, participants: nat) -> ExportStep {
    if records > 0 {
        ExportStep::EpochStatsOf(0)
    } else {
        ExportStep::Notes
    }
}

impl SessionView {
    /// The step names a record or a participant that the session holds,
    /// and both lists can be indexed by a machine word.
    pub open spec fn wf(self) -> bool {
        &&& self.records.len() <= usize::MAX
        &&& self.participants.len() <= usize::MAX
        &&& match self.step {
            ExportStep::EpochStatsOf(i) => i < self.records.len(),
            ExportStep::SummaryOf(i) => i < self.records.len(),
            ExportStep::KeyPairOf(j) => j < self.participants.len(),
            _ => true,
        }
    }

    /// The place of the step in the fixed order of an export: the two
    /// lookups of each record in the order of the records, then the notes,
    /// then the participants in their order, then the end.
    pub open spec fn rank(self) -> nat {
        let n = self.records.len();
        let m = self.participants.len();
        match self.step {
            ExportStep::EpochStatsOf(i) => (2 * i) as nat,
            ExportStep::SummaryOf(i) => (2 * i + 1) as nat,
            ExportStep::Notes => 2 * n,
            ExportStep::KeyPairOf(j) => (2 * n + 1 + j) as nat,
            ExportStep::Finished => 2 * n + 1 + m,
            ExportStep::Aborted => 2 * n + 2 + m,
        }
    }

    /// The step that follows a step that went well.
    pub open spec fn step_after(self) -> ExportStep {
        match self.step {
            ExportStep::EpochStatsOf(i) => ExportStep::SummaryOf(i),
            ExportStep::SummaryOf(i) => if i + 1 < self.records.len() {
                ExportStep::EpochStatsOf((i + 1) as usize)
            } else {
                ExportStep::Notes
            },
            ExportStep::Notes => if self.participants.len() > 0 {
                ExportStep::KeyPairOf(0)
            } else {
                ExportStep::Finished
            },
            ExportStep::KeyPairOf(j) => if j + 1 < self.participants.len() {
                ExportStep::KeyPairOf((j + 1) as usize)
            } else {
                ExportStep::Finished
            },
            ExportStep::Finished => ExportStep::Finished,
            ExportStep::Aborted => ExportStep::Aborted,
        }
    }

    /// The lookup that the step asks for.
    pub open spec fn pending(self) -> Option<LookupView> {
        match self.step {
            ExportStep::EpochStatsOf(i) => Some(
                LookupView::ValidatorEpochStats {
                    epoch: self.epoch,
                    validator: self.records[i as int].validator,
                },
            ),
            ExportStep::SummaryOf(i) => Some(
                LookupView::ValidatorStats {
                    cluster: self.cluster,
                    validator: self.records[i as int].validator,
                },
            ),
            ExportStep::Notes => Some(
                LookupView::EpochStats { epoch: self.epoch, cluster: self.cluster },
            ),
            ExportStep::KeyPairOf(j) => Some(
                LookupView::ValidatorKeyPair { pubkey: self.participants[j as int].pubkey },
            ),
            ExportStep::Finished => None,
            ExportStep::Aborted => None,
        }
    }

    /// What the rows found for the pending lookup come to: a write, no
    /// write, or the error that ends the export.
    pub open spec fn outcome(self, rows: RowsView) -> Result<Option<WriteView>, ExportError> {
        match (self.step, rows) {
            (ExportStep::EpochStatsOf(i), RowsView::Ids(ids)) => {
                let record = self.records[i as int];
                match planned_upsert(ids) {
                    Ok(Upsert::Insert) => Ok(
                        Some(
                            WriteView::InsertValidatorEpochStats {
                                validator: record.validator,
                                epoch: self.epoch,
                                cluster: self.cluster,
                                stats: record,
                            },
                        ),
                    ),
                    Ok(Upsert::Update { id }) => Ok(
                        Some(
                            WriteView::UpdateValidatorEpochStats {
                                id,
                                epoch: self.epoch,
                                cluster: self.cluster,
                                stats: record,
                            },
                        ),
                    ),
                    Err(_) => Err(
                        ExportError::DuplicateValidatorEpochStats { validator: record.validator },
                    ),
                }
            },
            (ExportStep::SummaryOf(i), RowsView::Summaries(found)) => {
                let record = self.records[i as int];
                match names_of(self.names, record.validator) {
                    None => Err(ExportError::MalformedValidatorInfo { validator: record.validator }),
                    Some((name, keybase_username)) => match planned_summary(
                        found,
                        self.epoch,
                        record.state,
                    ) {
                        Ok(SummaryPlanView::Insert { epochs }) => Ok(
                            Some(
                                WriteView::InsertValidatorStats {
                                    validator: record.validator,
                                    cluster: self.cluster,
                                    epochs,
                                    name,
                                    keybase_username,
                                },
                            ),
                        ),
                        Ok(SummaryPlanView::Update { id, epochs }) => Ok(
                            Some(
                                WriteView::UpdateValidatorStats { id, epochs, name, keybase_username },
                            ),
                        ),
                        Err(_) => Err(
                            ExportError::DuplicateValidatorStats { validator: record.validator },
                        ),
                    },
                }
            },
            (ExportStep::Notes, RowsView::Ids(ids)) => match planned_upsert(ids) {
                Ok(Upsert::Insert) => Ok(
                    Some(
                        WriteView::InsertEpochStats {
                            epoch: self.epoch,
                            cluster: self.cluster,
                            notes: self.notes,
                        },
                    ),
                ),
                Ok(Upsert::Update { id }) => Ok(
                    Some(
                        WriteView::UpdateEpochStats {
                            id,
                            epoch: self.epoch,
                            cluster: self.cluster,
                            notes: self.notes,
                        },
                    ),
                ),
                Err(_) => Err(ExportError::DuplicateEpochStats),
            },
            (ExportStep::KeyPairOf(j), RowsView::KeyPairs(found)) => {
                let participant = self.participants[j as int];
                match planned_keypair(found, participant) {
                    Ok(KeyPairPlan::Insert) => Ok(
                        Some(
                            WriteView::InsertKeyPair {
                                pubkey: participant.pubkey,
                                mainnet_beta_pk: participant.mainnet_identity,
                                testnet_pk: participant.testnet_identity,
                                state: participant.state,
                            },
                        ),
                    ),
                    Ok(KeyPairPlan::Update { id }) => Ok(
                        Some(
                            WriteView::UpdateKeyPair {
                                id,
                                state: participant.state,
                                mainnet_beta_pk: participant.mainnet_identity,
                                testnet_pk: participant.testnet_identity,
                            },
                        ),
                    ),
                    Ok(KeyPairPlan::Keep) => Ok(None),
                    Err(_) => Err(ExportError::DuplicateKeyPair { participant: j }),
                }
            },
            (ExportStep::Finished, _) => Err(ExportError::NothingPending),
            (ExportStep::Aborted, _) => Err(ExportError::NothingPending),
            _ => Err(ExportError::UnexpectedRows),
        }
    }

    /// The session after the rows were taken in: at the next step where
    /// they came to no error, aborted where they did.
    pub open spec fn after(self, rows: RowsView) -> SessionView {
        SessionView {
            step: if self.outcome(rows) is Ok {
                self.step_after()
            } else {
                ExportStep::Aborted
            },
            ..self
        }
    }
}

/// The steps of an export follow one fixed order: each step that goes well
/// leads to the step one place further on, so the rows of the validators
/// come before the notes of the epoch, and those before the key pairs.
pub proof fn lemma_steps_in_order(session: SessionView)
    requires
        session.wf(),
        session.pending() is Some,
    ensures
        (SessionView { step: session.step_after(), ..session }).rank() == session.rank() + 1,
        (SessionView { step: session.step_after(), ..session }).wf(),
{
}

/// The notes of an epoch are filed under the epoch and the cluster: exports
/// of one epoch for two clusters, and of two epochs for one cluster, look
/// their notes up under different keys.
pub proof fn lemma_notes_keyed_by_epoch_and_cluster(first: SessionView, second: SessionView)
    requires
        first.step == ExportStep::Notes,
        second.step == ExportStep::Notes,
    ensures
        first.pending() == Some(
            LookupView::EpochStats { epoch: first.epoch, cluster: first.cluster },
        ),
        first.pending() == second.pending() <==> first.epoch == second.epoch && first.cluster
            == second.cluster,
{
}

/// A lookup by a unique key that finds two or more rows ends the export:
/// whatever the step and whatever the rows hold, the outcome is an error,
/// the session is aborted, and an aborted session asks for no lookup, plans
/// no write and can never be committed.
pub proof fn lemma_duplicate_rows_abort(session: SessionView, rows: RowsView, later: RowsView)
    requires
        session.wf(),
        rows.count() >= 2,
    ensures
        session.outcome(rows) is Err,
        session.after(rows).step == ExportStep::Aborted,
        session.after(rows).pending() is None,
        session.after(rows).outcome(later) is Err,
        session.after(rows).after(later).step == ExportStep::Aborted,
{
}

impl ExportSession {
    #[verifier::type_invariant]
    spec fn well_formed(self) -> bool {
        self@.wf()
    }

    /// The statistics records that the export writes.
    pub fn records(&self) -> (records: &Vec<ValidatorStatRecord>)
        ensures
            records.deep_view() == self@.records,
    {
        &self.records
    }

    /// The validators that were left out of the records, each with the
    /// reason.
    pub fn skipped(&self) -> (skipped: &Vec<(Pubkey, SkipReason)>)
        ensures
            skipped@ == self@.skipped,
    {
        &self.skipped
    }

    /// The structured notes of the epoch.
    pub fn notes(&self) -> (notes: &StructuredNotes)
        ensures
            notes@ == self@.notes,
    {
        &self.notes
    }

    /// The indices of the note lines that no rule matched.
    pub fn unmatched_notes(&self) -> (unmatched: &Vec<usize>)
        ensures
            unmatched@ == self@.unmatched_notes,
    {
        &self.unmatched_notes
    }

    /// Where the export stands.
    pub fn step(&self) -> (step: ExportStep)
        ensures
            step == self@.step,
            self@.wf(),
    {
        proof {
            use_type_invariant(self);
        }
        self.step
    }

    /// Whether every write was planned, so that the transaction can be
    /// committed.
    pub fn is_finished(&self) -> (finished: bool)
        ensures
            finished == (self@.step == ExportStep::Finished),
    {
        match self.step {
            ExportStep::Finished => true,
            _ => false,
        }
    }

    /// The lookup that the driver is to run next; `None` once the export is
    /// finished or aborted.
    pub fn pending_lookup(&self) -> (lookup: Option<Lookup>)
        ensures
            lookup.deep_view() == self@.pending(),
    {
        proof {
            use_type_invariant(self);
        }
        match self.step {
            ExportStep::EpochStatsOf(i) => {
                Some(
                    Lookup::ValidatorEpochStats {
                        epoch: self.epoch,
                        validator: self.records[i].validator,
                    },
                )
            },
            ExportStep::SummaryOf(i) => {
                Some(
                    Lookup::ValidatorStats {
                        cluster: self.cluster,
                        validator: self.records[i].validator,
                    },
                )
            },
            ExportStep::Notes => Some(
                Lookup::EpochStats { epoch: self.epoch, cluster: self.cluster },
            ),
            ExportStep::KeyPairOf(j) => {
                Some(Lookup::ValidatorKeyPair { pubkey: self.participants[j].pubkey.clone() })
            },
            ExportStep::Finished => None,
            ExportStep::Aborted => None,
        }
    }

    /// What the rows found for the pending lookup come to.
    fn plan(&self, rows: &Rows) -> (outcome: Result<Option<Write>, ExportError>)
        ensures
            match outcome {
                Ok(write) => self@.outcome(rows@) == Ok::<Option<WriteView>, ExportError>(
                    write.deep_view(),
                ),
                Err(error) => self@.outcome(rows@) == Err::<Option<WriteView>, ExportError>(error),
            },
    {
        proof {
            use_type_invariant(self);
        }
        match (self.step, rows) {
            (ExportStep::EpochStatsOf(i), Rows::Ids(ids)) => {
                let record = &self.records[i];
                match plan_upsert(ids) {
                    Ok(Upsert::Insert) => Ok(
                        Some(
                            Write::InsertValidatorEpochStats {
                                validator: record.validator,
                                epoch: self.epoch,
                                cluster: self.cluster,
                                stats: record.clone(),
                            },
                        ),
                    ),
                    Ok(Upsert::Update { id }) => Ok(
                        Some(
                            Write::UpdateValidatorEpochStats {
                                id,
                                epoch: self.epoch,
                                cluster: self.cluster,
                                stats: record.clone(),
                            },
                        ),
                    ),
                    Err(_) => Err(
                        ExportError::DuplicateValidatorEpochStats { validator: record.validator },
                    ),
                }
            },
            (ExportStep::SummaryOf(i), Rows::Summaries(found)) => {
                let record = &self.records[i];
                match display_names(&self.names, &record.validator) {
                    None => Err(ExportError::MalformedValidatorInfo { validator: record.validator }),
                    Some((name, keybase_username)) => match plan_summary(
                        found,
                        self.epoch,
                        record.state,
                    ) {
                        Ok(SummaryPlan::Insert { epochs }) => Ok(
                            Some(
                                Write::InsertValidatorStats {
                                    validator: record.validator,
                                    cluster: self.cluster,
                                    epochs,
                                    name,
                                    keybase_username,
                                },
                            ),
                        ),
                        Ok(SummaryPlan::Update { id, epochs }) => Ok(
                            Some(Write::UpdateValidatorStats { id, epochs, name, keybase_username }),
                        ),
                        Err(_) => Err(
                            ExportError::DuplicateValidatorStats { validator: record.validator },
                        ),
                    },
                }
            },
            (ExportStep::Notes, Rows::Ids(ids)) => match plan_upsert(ids) {
                Ok(Upsert::Insert) => Ok(
                    Some(
                        Write::InsertEpochStats {
                            epoch: self.epoch,
                            cluster: self.cluster,
                            notes: self.notes.clone(),
                        },
                    ),
                ),
                Ok(Upsert::Update { id }) => Ok(
                    Some(
                        Write::UpdateEpochStats {
                            id,
                            epoch: self.epoch,
                            cluster: self.cluster,
                            notes: self.notes.clone(),
                        },
                    ),
                ),
                Err(_) => Err(ExportError::DuplicateEpochStats),
            },
            (ExportStep::KeyPairOf(j), Rows::KeyPairs(found)) => {
                let participant = &self.participants[j];
                match plan_keypair(found, participant) {
                    Ok(KeyPairPlan::Insert) => Ok(
                        Some(
                            Write::InsertKeyPair {
                                pubkey: participant.pubkey.clone(),
                                mainnet_beta_pk: participant.mainnet_identity.clone(),
                                testnet_pk: participant.testnet_identity.clone(),
                                state: participant.state.clone(),
                            },
                        ),
                    ),
                    Ok(KeyPairPlan::Update { id }) => Ok(
                        Some(
                            Write::UpdateKeyPair {
                                id,
                                state: participant.state.clone(),
                                mainnet_beta_pk: participant.mainnet_identity.clone(),
                                testnet_pk: participant.testnet_identity.clone(),
                            },
                        ),
                    ),
                    Ok(KeyPairPlan::Keep) => Ok(None),
                    Err(_) => Err(ExportError::DuplicateKeyPair { participant: j }),
                }
            },
            (ExportStep::Finished, _) => Err(ExportError::NothingPending),
            (ExportStep::Aborted, _) => Err(ExportError::NothingPending),
            _ => Err(ExportError::UnexpectedRows),
        }
    }

    /// The step that follows the present one where it went well.
    fn following_step(&self) -> (step: ExportStep)
        ensures
            step == self@.step_after(),
            (SessionView { step, ..self@ }).wf(),
    {
        proof {
            use_type_invariant(self);
        }
        match self.step {
            ExportStep::EpochStatsOf(i) => ExportStep::SummaryOf(i),
            ExportStep::SummaryOf(i) => if i + 1 < self.records.len() {
                ExportStep::EpochStatsOf(i + 1)
            } else {
                ExportStep::Notes
            },
            ExportStep::Notes => if self.participants.len() > 0 {
                ExportStep::KeyPairOf(0)
            } else {
                ExportStep::Finished
            },
            ExportStep::KeyPairOf(j) => if j + 1 < self.participants.len() {
                ExportStep::KeyPairOf(j + 1)
            } else {
                ExportStep::Finished
            },
            ExportStep::Finished => ExportStep::Finished,
            ExportStep::Aborted => ExportStep::Aborted,
        }
    }

    /// Takes in the rows that the pending lookup found. Returns the write
    /// that the driver is to run before the next lookup, if any, and moves
    /// to the next step. On an error the session is aborted: nothing more
    /// is looked up or written, and the driver rolls the transaction back.
    pub fn advance(&mut self, rows: Rows) -> (outcome: Result<Option<Write>, ExportError>)
        ensures
            match outcome {
                Ok(write) => old(self)@.outcome(rows@) == Ok::<Option<WriteView>, ExportError>(
                    write.deep_view(),
                ),
                Err(error) => old(self)@.outcome(rows@) == Err::<Option<WriteView>, ExportError>(
                    error,
                ),
            },
            final(self)@ == old(self)@.after(rows@),
            final(self)@.wf(),
            outcome is Ok ==> final(self)@.step == old(self)@.step_after(),
            outcome is Err ==> final(self)@.step == ExportStep::Aborted,
            rows@.count() >= 2 ==> outcome is Err,
    {
        proof {
            use_type_invariant(&*self);
        }
        let outcome = self.plan(&rows);
        let step = match &outcome {
            Ok(_) => self.following_step(),
            Err(_) => ExportStep::Aborted,
        };
        self.step = step;
        outcome
    }
}

/// The epoch as the store holds it, where it fits.
pub fn store_epoch(epoch: Epoch) -> (stored: Result<i32, ExportError>)
    ensures
        match stored {
            Ok(value) => value == epoch && epoch <= i32::MAX,
            Err(error) => error == (ExportError::EpochOutOfRange { epoch }) && epoch > i32::MAX,
        },
{
    if epoch <= 2147483647 {
        Ok(epoch as i32)
    } else {
        Err(ExportError::EpochOutOfRange { epoch })
    }
}

/// Prepares the export of `epoch` from its finalized snapshot and the live
/// chain data: reads the snapshot's notes into structured fields, projects
/// the statistics records, and lays out the lookups and writes of the
/// export. Nothing is written here; the session that is returned is for the
/// driver to carry out, or to inspect in a dry run.
pub fn export_to_db(
    epoch: Epoch,
    snapshot: &EpochSnapshot,
    vote_accounts: &Vec<VoteAccountInfo>,
    stakes: &Vec<SelfStake>,
    names: Vec<ValidatorInfo>,
    participants: Vec<Participant>,
) -> (session: Result<ExportSession, ExportError>)
    ensures
        session is Err <==> epoch > i32::MAX,
        session matches Err(error) ==> error == (ExportError::EpochOutOfRange { epoch }),
        session matches Ok(export) ==> {
            &&& export@.epoch == epoch
            &&& export@.cluster == snapshot@.cluster
            &&& export@.records == projected_records(
                snapshot@.validator_classifications,
                snapshot@.data_center_info,
                vote_accounts@,
                stakes@,
            )
            &&& export@.skipped == skipped_validators(
                snapshot@.validator_classifications,
                snapshot@.data_center_info,
                vote_accounts@,
                stakes@,
            )
            &&& snapshot@.wf() ==> validators_distinct(export@.records)
            &&& export@.notes == extracted(epoch_note_rules(), snapshot@.notes)
            &&& export@.unmatched_notes == unmatched_lines(epoch_note_rules(), snapshot@.notes)
            &&& export@.names == names@
            &&& export@.participants == participants.deep_view()
            &&& export@.step == first_step(export@.records.len(), export@.participants.len())
            &&& export@.wf()
        },
{
    let stored = match store_epoch(epoch) {
        Ok(stored) => stored,
        Err(error) => {
            return Err(error);
        },
    };
    let extraction = read_epoch_notes(&snapshot.notes);
    let projection = project_validator_stats(snapshot, vote_accounts, stakes);
    let step = if projection.records.len() > 0 {
        ExportStep::EpochStatsOf(0)
    } else {
        ExportStep::Notes
    };
    proof {
        assert(participants.deep_view().len() == participants.len());
    }
    Ok(
        ExportSession {
            epoch: stored,
            cluster: snapshot.cluster,
            records: projection.records,
            skipped: projection.skipped,
            notes: extraction.notes,
            unmatched_notes: extraction.unmatched,
            names,
            participants,
            step,
        },
    )
}

} // verus!
