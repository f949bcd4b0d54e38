//! Upsert by unique key: what to write after the rows that match a key were
//! looked up.
//!
//! Every table of the store is keyed by a tuple that identifies at most one
//! row. A write is planned from the rows that a lookup by that tuple found:
//! none, insert; one, update it; more, the key is no longer unique and
//! nothing may be written.

use crate::assoc::{last_with_key, lemma_map_of_update, lemma_overlay_lookup, map_of};
use crate::snapshot::StakeState;
use vstd::prelude::*;

verus! {

/// The write that keeps a key unique.
#[derive(Clone, Copy, Debug, PartialEq, Eq, Structural)]
pub enum Upsert {
    /// No row has the key: add one.
    Insert,
    /// The row with this id has the key: change it.
    Update { id: i32 },
}

/// A lookup by a unique key found more than one row.
#[derive(Clone, Copy, Debug, PartialEq, Eq, Structural)]
pub struct TooManyRows {
    pub found: usize,
}

/// The write planned from the ids of the rows that match a key.
pub open spec fn planned_upsert(ids: Seq<i32>) -> Result<Upsert, TooManyRows> {
    if ids.len() == 0 {
        Ok(Upsert::Insert)
    } else if ids.len() == 1 {
        Ok(Upsert::Update { id: ids[0] })
    } else {
        Err(TooManyRows { found: ids.len() as usize })
    }
}

/// Plans the write for a key from the ids of the rows that match it. More
/// than one row is an error, whatever the rows hold.
pub fn plan_upsert(ids: &Vec<i32>) -> (plan: Result<Upsert, TooManyRows>)
    ensures
        plan == planned_upsert(ids@),
        plan is Err <==> ids.len() >= 2,
{
    if ids.len() == 0 {
        Ok(Upsert::Insert)
    } else if ids.len() == 1 {
        Ok(Upsert::Update { id: ids[0] })
    } else {
        Err(TooManyRows { found: ids.len() })
    }
}

/// One validator's outcome in one epoch, as the running summary keeps it.
#[derive(Clone, Copy, Debug, PartialEq, Eq, Structural)]
pub struct EpochSummary {
    pub epoch: i32,
    pub state: StakeState,
}

/// A validator's running map from epoch to stake state. The entries are
/// read as successive inserts: of two entries for one epoch the later
/// counts.
#[derive(Debug, PartialEq, Eq)]
pub struct EpochSummaries {
    pub entries: Vec<EpochSummary>,
}

impl EpochSummaries {
    /// The entries as pairs of epoch and state.
    pub open spec fn pairs(&self) -> Seq<(i32, StakeState)> {
        Seq::new(self.entries.len() as nat, |i: int| (self.entries[i].epoch, self.entries[i].state))
    }
}

impl View for EpochSummaries {
    type V = Map<i32, StakeState>;

    open spec fn view(&self) -> Map<i32, StakeState> {
        map_of(self.pairs())
    }
}

impl DeepView for EpochSummaries {
    type V = Map<i32, StakeState>;

    open spec fn deep_view(&self) -> Map<i32, StakeState> {
        self@
    }
}

impl Clone for EpochSummaries {
    fn clone(&self) -> (copy: EpochSummaries)
        ensures
            copy@ == self@,
            copy.entries@ == self.entries@,
    {
        let copy = EpochSummaries { entries: self.entries.clone() };
        copy
    }
}

impl EpochSummaries {
    /// The summary of a validator seen in no epoch yet.
    pub fn new() -> (summaries: EpochSummaries)
        ensures
            summaries@ == Map::<i32, StakeState>::empty(),
    {
        let summaries = EpochSummaries { entries: Vec::new() };
        summaries
    }

    /// The position of the entry that counts for `epoch`, if any.
    pub fn position(&self, epoch: i32) -> (found: Option<usize>)
        ensures
            match found {
                Some(i) => i < self.entries.len() && last_with_key(self.pairs(), epoch) == Some(
                    i as int,
                ),
                None => last_with_key(self.pairs(), epoch) is None,
            },
    {
        let ghost pairs = self.pairs();
        let mut i: usize = self.entries.len();
        proof {
            assert(pairs.take(i as int) =~= pairs);
        }
        while i > 0
            invariant
                i <= self.entries.len(),
                pairs == self.pairs(),
                last_with_key(pairs, epoch) == last_with_key(pairs.take(i as int), epoch),
            decreases i,
        {
            if self.entries[i - 1].epoch == epoch {
                return Some(i - 1);
            }
            proof {
                assert(pairs.take(i as int).drop_last() =~= pairs.take(i - 1));
            }
            i -= 1;
        }
        None
    }

    /// The state recorded for `epoch`, if any.
    pub fn get(&self, epoch: i32) -> (found: Option<StakeState>)
        ensures
            match found {
                Some(state) => self@.contains_key(epoch) && state == self@[epoch],
                None => !self@.contains_key(epoch),
            },
    {
        proof {
            lemma_overlay_lookup(Map::empty(), self.pairs(), epoch);
        }
        match self.position(epoch) {
            Some(i) => Some(self.entries[i].state),
            None => None,
        }
    }

    /// Records the state of `epoch`, in place of any state the epoch had.
    /// What is recorded for other epochs stays.
    pub fn record(&mut self, epoch: i32, state: StakeState)
        ensures
            final(self)@ == old(self)@.insert(epoch, state),
            old(self)@.dom().subset_of(final(self)@.dom()),
    {
        let ghost before = self.pairs();
        match self.position(epoch) {
            Some(i) => {
                proof {
                    lemma_overlay_lookup(Map::empty(), before, epoch);
                    lemma_map_of_update(before, i as int, state);
                }
                self.entries[i].state = state;
                proof {
                    assert(self.pairs() =~= before.update(i as int, (epoch, state)));
                }
            },
            None => {
                self.entries.push(EpochSummary { epoch, state });
                proof {
                    assert(self.pairs() =~= before.push((epoch, state)));
                    assert(before.push((epoch, state)).drop_last() =~= before);
                }
            },
        }
    }
}

/// A row of the table of validator summaries, as a lookup hands it back.
#[derive(Debug, PartialEq, Eq)]
pub struct ValidatorStatsRow {
    pub id: i32,
    pub epochs: EpochSummaries,
}

pub struct ValidatorStatsRowView {
    pub id: i32,
    pub epochs: Map<i32, StakeState>,
}

impl View for ValidatorStatsRow {
    type V = ValidatorStatsRowView;

    open spec fn view(&self) -> ValidatorStatsRowView {
        ValidatorStatsRowView { id: self.id, epochs: self.epochs@ }
    }
}

impl DeepView for ValidatorStatsRow {
    type V = ValidatorStatsRowView;

    open spec fn deep_view(&self) -> ValidatorStatsRowView {
        self@
    }
}

/// The write that brings a validator's summary up to date.
#[derive(Debug, PartialEq, Eq)]
pub enum SummaryPlan {
    /// The validator has no summary yet: add one that holds `epochs`.
    Insert { epochs: EpochSummaries },
    /// The row with this id is the validator's summary: make it hold
    /// `epochs`.
    Update { id: i32, epochs: EpochSummaries },
}

pub enum SummaryPlanView {
    Insert { epochs: Map<i32, StakeState> },
    Update { id: i32, epochs: Map<i32, StakeState> },
}

impl View for SummaryPlan {
    type V = SummaryPlanView;

    open spec fn view(&self) -> SummaryPlanView {
        match self {
            SummaryPlan::Insert { epochs } => SummaryPlanView::Insert { epochs: epochs@ },
            SummaryPlan::Update { id, epochs } => SummaryPlanView::Update {
                id: *id,
                epochs: epochs@,
            },
        }
    }
}

/// The summary write planned from the rows found for a validator: the new
/// epoch's state is merged into what the one row holds, and starts a summary
/// where there is no row.
pub open spec fn planned_summary(
    rows: Seq<ValidatorStatsRowView>,
    epoch: i32,
    state: StakeState,
) -> Result<SummaryPlanView, TooManyRows> {
    if rows.len() == 0 {
        Ok(SummaryPlanView::Insert { epochs: Map::empty().insert(epoch, state) })
    } else if rows.len() == 1 {
        Ok(SummaryPlanView::Update { id: rows[0].id, epochs: rows[0].epochs.insert(epoch, state) })
    } else {
        Err(TooManyRows { found: rows.len() as usize })
    }
}

/// Plans the write of a validator's summary. The state of `epoch` is merged
/// into the map that the row holds: what the map records of other epochs
/// stays.
pub fn plan_summary(rows: &Vec<ValidatorStatsRow>, epoch: i32, state: StakeState) -> (plan: Result<
    SummaryPlan,
    TooManyRows,
>)
    ensures
        match plan {
            Ok(write) => planned_summary(rows.deep_view(), epoch, state) == Ok::<
                SummaryPlanView,
                TooManyRows,
            >(write@),
            Err(error) => planned_summary(rows.deep_view(), epoch, state) == Err::<
                SummaryPlanView,
                TooManyRows,
            >(error),
        },
        plan is Err <==> rows.len() >= 2,
{
    if rows.len() == 0 {
        let mut epochs = EpochSummaries::new();
        epochs.record(epoch, state);
        Ok(SummaryPlan::Insert { epochs })
    } else if rows.len() == 1 {
        let mut epochs = rows[0].epochs.clone();
        epochs.record(epoch, state);
        Ok(SummaryPlan::Update { id: rows[0].id, epochs })
    } else {
        Err(TooManyRows { found: rows.len() })
    }
}

/// A participant of the delegation program with its two linked identities,
/// all keys in their text form, and its lifecycle state.
#[derive(Debug, PartialEq, Eq)]
pub struct Participant {
    pub pubkey: String,
    pub mainnet_identity: String,
    pub testnet_identity: String,
    pub state: String,
}

pub struct ParticipantView {
    pub pubkey: Seq<char>,
    pub mainnet_identity: Seq<char>,
    pub testnet_identity: Seq<char>,
    pub state: Seq<char>,
}

impl View for Participant {
    type V = ParticipantView;

    open spec fn view(&self) -> ParticipantView {
        ParticipantView {
            pubkey: self.pubkey@,
            mainnet_identity: self.mainnet_identity@,
            testnet_identity: self.testnet_identity@,
            state: self.state@,
        }
    }
}

impl DeepView for Participant {
    type V = ParticipantView;

    open spec fn deep_view(&self) -> ParticipantView {
        self@
    }
}

/// A row of the table of key pairs, as a lookup hands it back.
#[derive(Debug, PartialEq, Eq)]
pub struct KeyPairRow {
    pub id: i32,
    pub mainnet_beta_pk: String,
    pub testnet_pk: String,
    pub state: String,
}

pub struct KeyPairRowView {
    pub id: i32,
    pub mainnet_beta_pk: Seq<char>,
    pub testnet_pk: Seq<char>,
    pub state: Seq<char>,
}

impl View for KeyPairRow {
    type V = KeyPairRowView;

    open spec fn view(&self) -> KeyPairRowView {
        KeyPairRowView {
            id: self.id,
            mainnet_beta_pk: self.mainnet_beta_pk@,
            testnet_pk: self.testnet_pk@,
            state: self.state@,
        }
    }
}

impl DeepView for KeyPairRow {
    type V = KeyPairRowView;

    open spec fn deep_view(&self) -> KeyPairRowView {
        self@
    }
}

/// The write that brings a participant's key pair row up to date.
#[derive(Clone, Copy, Debug, PartialEq, Eq, Structural)]
pub enum KeyPairPlan {
    /// The participant has no row: add one.
    Insert,
    /// The row with this id differs from the participant: change it.
    Update { id: i32 },
    /// The one row agrees with the participant: write nothing.
    Keep,
}

/// Whether a stored row says of a participant what the participant says.
pub open spec fn row_agrees(row: KeyPairRowView, participant: ParticipantView) -> bool {
    &&& row.state == participant.state
    &&& row.mainnet_beta_pk == participant.mainnet_identity
    &&& row.testnet_pk == participant.testnet_identity
}

/// The key pair write planned from the rows found for a participant.
pub open spec fn planned_keypair(rows: Seq<KeyPairRowView>, participant: ParticipantView) -> Result<
    KeyPairPlan,
    TooManyRows,
> {
    if rows.len() == 0 {
        Ok(KeyPairPlan::Insert)
    } else if rows.len() == 1 {
        if row_agrees(rows[0], participant) {
            Ok(KeyPairPlan::Keep)
        } else {
            Ok(KeyPairPlan::Update { id: rows[0].id })
        }
    } else {
        Err(TooManyRows { found: rows.len() as usize })
    }
}

/// Plans the write of a participant's key pair row. The one row is
/// rewritten only where its state or one of its identities differs.
pub fn plan_keypair(rows: &Vec<KeyPairRow>, participant: &Participant) -> (plan: Result<
    KeyPairPlan,
    TooManyRows,
>)
    ensures
        plan == planned_keypair(rows.deep_view(), participant@),
        plan is Err <==> rows.len() >= 2,
{
    if rows.len() == 0 {
        Ok(KeyPairPlan::Insert)
    } else if rows.len() == 1 {
        let row = &rows[0];
        if row.state != participant.state || row.mainnet_beta_pk != participant.mainnet_identity
            || row.testnet_pk != participant.testnet_identity {
            Ok(KeyPairPlan::Update { id: row.id })
        } else {
            Ok(KeyPairPlan::Keep)
        }
    } else {
        Err(TooManyRows { found: rows.len() })
    }
}

/// A row of the store, as far as the uniqueness of keys is concerned: its
/// id, the key tuple it is filed under, and what it holds.
pub struct ModelRow<K, P> {
    pub id: i32,
    pub key: K,
    pub payload: P,
}

/// The ids of the rows filed under `key`, in the order of the table: what a
/// lookup by `key` finds.
pub open spec fn ids_matching<K, P>(table: Seq<ModelRow<K, P>>, key: K) -> Seq<i32>
    decreases table.len(),
{
    if table.len() == 0 {
        Seq::empty()
    } else {
        let front = ids_matching(table.drop_last(), key);
        if table.last().key == key {
            front.push(table.last().id)
        } else {
            front
        }
    }
}

/// No two rows share an id.
pub open spec fn ids_distinct<K, P>(table: Seq<ModelRow<K, P>>) -> bool {
    forall|i: int, j: int| 0 <= i < j < table.len() ==> table[i].id != table[j].id
}

/// No row has the id `id`.
pub open spec fn id_unused<K, P>(table: Seq<ModelRow<K, P>>, id: i32) -> bool {
    forall|i: int| 0 <= i < table.len() ==> table[i].id != id
}

/// The table after a planned write of `payload` under `key`: an insert adds
/// a row with the id `fresh`, an update replaces what the row with the
/// planned id holds.
pub open spec fn after_upsert<K, P>(
    table: Seq<ModelRow<K, P>>,
    plan: Upsert,
    key: K,
    payload: P,
    fresh: i32,
) -> Seq<ModelRow<K, P>> {
    match plan {
        Upsert::Insert => table.push(ModelRow { id: fresh, key, payload }),
        Upsert::Update { id } => Seq::new(
            table.len(),
            |i: int|
                if table[i].id == id {
                    ModelRow { id, key: table[i].key, payload }
                } else {
                    table[i]
                },
        ),
    }
}

/// Some row of `table` has the id `id` and is filed under `key`.
pub open spec fn has_row<K, P>(table: Seq<ModelRow<K, P>>, key: K, id: i32) -> bool {
    exists|i: int| 0 <= i < table.len() && (#[trigger] table[i]).key == key && table[i].id == id
}

/// Where `ids_matching` finds an id, a row with that id is filed under the
/// key; where it finds none, no row is.
pub proof fn lemma_ids_matching<K, P>(table: Seq<ModelRow<K, P>>, key: K)
    ensures
        forall|k: int|
            0 <= k < ids_matching(table, key).len() ==> has_row(
                table,
                key,
                #[trigger] ids_matching(table, key)[k],
            ),
        ids_matching(table, key).len() == 0 ==> forall|i: int|
            0 <= i < table.len() ==> (#[trigger] table[i]).key != key,
        ids_matching(table, key).len() <= table.len(),
    decreases table.len(),
{
    if table.len() > 0 {
        let front = table.drop_last();
        let last = table.len() - 1;
        lemma_ids_matching(front, key);
        let ids = ids_matching(table, key);
        let before = ids_matching(front, key);
        assert forall|k: int| 0 <= k < ids.len() implies has_row(table, key, #[trigger] ids[k]) by {
            if k < before.len() {
                let i = choose|i: int|
                    0 <= i < front.len() && (#[trigger] front[i]).key == key && front[i].id
                        == before[k];
                assert(table[i] == front[i]);
            }
        }
        if ids.len() == 0 {
            assert forall|i: int| 0 <= i < table.len() implies (#[trigger] table[i]).key != key by {
                if i < last {
                    assert(front[i].key != key);
                }
            }
        }
    }
}

/// A write changes what one row holds and leaves the keys and ids of all
/// rows as they are.
pub proof fn lemma_update_keeps_matches<K, P>(
    table: Seq<ModelRow<K, P>>,
    id: i32,
    key: K,
    payload: P,
    fresh: i32,
    other: K,
)
    ensures
        ids_matching(after_upsert(table, Upsert::Update { id }, key, payload, fresh), other)
            == ids_matching(table, other),
    decreases table.len(),
{
    let after = after_upsert(table, Upsert::Update { id }, key, payload, fresh);
    if table.len() > 0 {
        let front = table.drop_last();
        lemma_update_keeps_matches(front, id, key, payload, fresh, other);
        assert(after.drop_last() =~= after_upsert(
            front,
            Upsert::Update { id },
            key,
            payload,
            fresh,
        ));
    }
}

/// Writing under one key twice leaves exactly one row with that key. On a
/// table whose ids are distinct and in which at most one row has the key:
/// the first planned write leaves one row with the key, the second is an
/// update of that row, adds no row, and leaves the row holding the second
/// payload. No row filed under another key is changed by either write.
pub proof fn lemma_upsert_twice_keeps_one_row<K, P>(
    table: Seq<ModelRow<K, P>>,
    key: K,
    first: P,
    second: P,
    fresh: i32,
)
    requires
        ids_distinct(table),
        id_unused(table, fresh),
        ids_matching(table, key).len() <= 1,
    ensures
        planned_upsert(ids_matching(table, key)) is Ok,
        ({
            let once = after_upsert(
                table,
                planned_upsert(ids_matching(table, key))->Ok_0,
                key,
                first,
                fresh,
            );
            let again = planned_upsert(ids_matching(once, key));
            let twice = after_upsert(once, again->Ok_0, key, second, fresh);
            &&& ids_matching(once, key).len() == 1
            &&& again == Ok::<Upsert, TooManyRows>(Upsert::Update { id: ids_matching(once, key)[0] })
            &&& twice.len() == once.len()
            &&& ids_matching(twice, key) == ids_matching(once, key)
            &&& forall|i: int|
                0 <= i < twice.len() && (#[trigger] twice[i]).key == key ==> twice[i].payload
                    == second
            &&& forall|i: int|
                0 <= i < table.len() && (#[trigger] table[i]).key != key ==> once[i] == table[i]
                    && twice[i] == table[i]
        }),
{
    let found = ids_matching(table, key);
    let plan = planned_upsert(found)->Ok_0;
    let once = after_upsert(table, plan, key, first, fresh);
    lemma_ids_matching(table, key);
    if found.len() == 0 {
        assert(once.drop_last() =~= table);
    } else {
        lemma_update_keeps_matches(table, found[0], key, first, fresh, key);
    }
    let target = ids_matching(once, key)[0];
    let twice = after_upsert(once, Upsert::Update { id: target }, key, second, fresh);
    lemma_update_keeps_matches(once, target, key, second, fresh, key);
    lemma_ids_matching(once, key);
    let w = choose|w: int|
        0 <= w < once.len() && (#[trigger] once[w]).key == key && once[w].id == target;
    assert forall|i: int| 0 <= i < twice.len() && (#[trigger] twice[i]).key == key implies twice[i].payload
        == second by {
        lemma_one_match_is_the_row(once, key, i, w);
    }
    assert forall|i: int| 0 <= i < table.len() && (#[trigger] table[i]).key != key implies once[i]
        == table[i] && twice[i] == table[i] by {
        if found.len() > 0 {
            let v = choose|v: int|
                0 <= v < table.len() && (#[trigger] table[v]).key == key && table[v].id == found[0];
            assert(table[i].id != table[v].id);
        }
    }
}

/// Where a lookup finds one row, any two rows filed under the key are the
/// same row.
pub proof fn lemma_one_match_is_the_row<K, P>(table: Seq<ModelRow<K, P>>, key: K, i: int, j: int)
    requires
        ids_matching(table, key).len() == 1,
        0 <= i < table.len(),
        0 <= j < table.len(),
        table[i].key == key,
        table[j].key == key,
    ensures
        i == j,
    decreases table.len(),
{
    let front = table.drop_last();
    let last = table.len() - 1;
    lemma_ids_matching(front, key);
    if table.last().key == key {
        if i != last {
            assert(front[i] == table[i]);
        }
        if j != last {
            assert(front[j] == table[j]);
        }
    } else {
        lemma_one_match_is_the_row(front, key, i, j);
    }
}

} // verus!
