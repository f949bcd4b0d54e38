//! The walk backwards through the chain of stored snapshots.
//!
//! The walker decides; its driver acts. The driver performs the action the
//! walker names (load a snapshot, fetch reported metrics, save a snapshot),
//! hands the outcome back as an event, and goes on until the walker halts.

use crate::keys::{Epoch, Pubkey};
use crate::metrics::{merge_reported_metrics, merged_snapshot, unreported, ReportedMetric};
use crate::snapshot::{EpochSnapshot, SnapshotView};
use vstd::prelude::*;

verus! {

/// Why a walk ended.
#[derive(Clone, Copy, Debug, PartialEq, Eq, Structural)]
pub enum WalkError {
    /// No earlier snapshot could be loaded: the chain has no predecessor,
    /// or the stored data could not be read. The two are not told apart.
    LoadFailed,
    /// The reported metrics could not be fetched.
    MetricsFailed,
    /// The enriched snapshot could not be saved.
    SaveFailed,
    /// The driver handed in an event that does not answer the action the
    /// walker had named.
    OutOfTurn,
}

/// Where a walk stands.
#[derive(Clone, Copy, Debug, PartialEq, Eq, Structural)]
pub enum WalkState {
    /// The snapshot chained from the epoch after this one is to be loaded
    /// and enriched.
    Trying(Epoch),
    /// The snapshot of this epoch holds the reported metrics and is to be
    /// saved.
    Enriched(Epoch),
    /// The walk reached the beginning of history.
    Stopped,
    /// The walk was given up.
    Failed(WalkError),
}

/// What the driver is to do next.
#[derive(Clone, Copy, Debug, PartialEq, Eq, Structural)]
pub enum WalkAction {
    /// Load the snapshot that precedes epoch `chained_from`.
    Load { chained_from: Epoch },
    /// Fetch the metrics reported as of epoch `as_of_epoch`.
    FetchMetrics { as_of_epoch: Epoch },
    /// Save the walker's snapshot under `epoch`.
    Save { epoch: Epoch },
    /// Nothing: the walk is over.
    Halt,
}

/// What the driver's last action came to.
#[derive(Debug, PartialEq, Eq)]
pub enum WalkEvent {
    /// The load found a snapshot; `subsequent_epoch` is the epoch it stands
    /// for.
    Loaded { subsequent_epoch: Epoch, snapshot: EpochSnapshot },
    /// The load found no snapshot, or failed.
    NotLoaded,
    /// The metrics were fetched.
    Metrics { reported: Vec<ReportedMetric> },
    /// The metrics could not be fetched.
    MetricsFailed,
    /// The snapshot was saved.
    Saved,
    /// The snapshot could not be saved.
    SaveFailed,
}

pub enum WalkEventView {
    Loaded { subsequent_epoch: Epoch, snapshot: SnapshotView },
    NotLoaded,
    Metrics { reported: Seq<ReportedMetric> },
    MetricsFailed,
    Saved,
    SaveFailed,
}

impl View for WalkEvent {
    type V = WalkEventView;

    open spec fn view(&self) -> WalkEventView {
        match self {
            WalkEvent::Loaded { subsequent_epoch, snapshot } => WalkEventView::Loaded {
                subsequent_epoch: *subsequent_epoch,
                snapshot: snapshot@,
            },
            WalkEvent::NotLoaded => WalkEventView::NotLoaded,
            WalkEvent::Metrics { reported } => WalkEventView::Metrics { reported: reported@ },
            WalkEvent::MetricsFailed => WalkEventView::MetricsFailed,
            WalkEvent::Saved => WalkEventView::Saved,
            WalkEvent::SaveFailed => WalkEventView::SaveFailed,
        }
    }
}

/// A walk: its state, and the snapshot in hand with the epoch it stands
/// for.
#[derive(Debug)]
pub struct BackfillWalker {
    state: WalkState,
    loaded: Option<(Epoch, EpochSnapshot)>,
    unreported: Vec<(Pubkey, Option<Pubkey>)>,
}

pub struct WalkerView {
    pub state: WalkState,
    pub loaded: Option<(Epoch, SnapshotView)>,
    /// The validators of the snapshot last enriched for which no metrics
    /// were reported, each with its participant.
    pub unreported: Seq<(Pubkey, Option<Pubkey>)>,
}

impl View for BackfillWalker {
    type V = WalkerView;

    closed spec fn view(&self) -> WalkerView {
        WalkerView {
            state: self.state,
            loaded: match self.loaded {
                Some((epoch, snapshot)) => Some((epoch, snapshot@)),
                None => None,
            },
            unreported: self.unreported@,
        }
    }
}

impl WalkerView {
    /// A walker holds a snapshot exactly between a load and the save that
    /// follows it, and while it is to be saved it holds the snapshot of the
    /// epoch it names. An epoch to try has a successor, and a snapshot in
    /// hand has a predecessor.
    pub open spec fn wf(self) -> bool {
        match self.state {
            WalkState::Trying(epoch) => epoch < u64::MAX && (self.loaded matches Some((loaded, _))
                ==> loaded >= 1),
            WalkState::Enriched(epoch) => self.loaded matches Some((loaded, _)) && loaded == epoch
                && epoch >= 1,
            WalkState::Stopped => self.loaded is None,
            WalkState::Failed(_) => self.loaded is None,
        }
    }

    /// What the driver is to do for a walker in this state.
    pub open spec fn action(self) -> WalkAction {
        match self.state {
            WalkState::Trying(epoch) => match self.loaded {
                None => WalkAction::Load { chained_from: (epoch + 1) as Epoch },
                Some((loaded, _)) => WalkAction::FetchMetrics { as_of_epoch: (loaded - 1) as Epoch },
            },
            WalkState::Enriched(epoch) => WalkAction::Save { epoch },
            WalkState::Stopped => WalkAction::Halt,
            WalkState::Failed(_) => WalkAction::Halt,
        }
    }

    /// The walker after `event`.
    ///
    /// While an epoch is tried and no snapshot is in hand, a load that found
    /// one puts it in hand, and a load that found none fails the walk. With
    /// a snapshot in hand, the fetched metrics are merged into it and it is
    /// to be saved; a failed fetch fails the walk. Once it is saved, the
    /// epoch before it is tried; a failed save fails the walk. A walk that is
    /// over stays as it is, and any other event fails the walk as out of
    /// turn.
    pub open spec fn after(self, event: WalkEventView) -> WalkerView {
        match (self.state, self.loaded, event) {
            (
                WalkState::Trying(epoch),
                None,
                WalkEventView::Loaded { subsequent_epoch, snapshot },
            ) => WalkerView { loaded: Some((subsequent_epoch, snapshot)), ..self },
            (WalkState::Trying(_), None, WalkEventView::NotLoaded) => self.failed(
                WalkError::LoadFailed,
            ),
            (
                WalkState::Trying(_),
                Some((loaded, snapshot)),
                WalkEventView::Metrics { reported },
            ) => WalkerView {
                state: WalkState::Enriched(loaded),
                loaded: Some((loaded, merged_snapshot(snapshot, reported))),
                unreported: unreported(snapshot.validator_classifications, reported),
            },
            (WalkState::Trying(_), Some(_), WalkEventView::MetricsFailed) => self.failed(
                WalkError::MetricsFailed,
            ),
            (WalkState::Enriched(epoch), _, WalkEventView::Saved) => WalkerView {
                state: WalkState::Trying((epoch - 1) as Epoch),
                loaded: None,
                ..self
            },
            (WalkState::Enriched(_), _, WalkEventView::SaveFailed) => self.failed(
                WalkError::SaveFailed,
            ),
            (WalkState::Stopped, _, _) => self,
            (WalkState::Failed(_), _, _) => self,
            _ => self.failed(WalkError::OutOfTurn),
        }
    }

    /// The walker given up for `error`: it lets go of the snapshot in hand.
    pub open spec fn failed(self, error: WalkError) -> WalkerView {
        WalkerView { state: WalkState::Failed(error), loaded: None, ..self }
    }
}

/// Whether `event` can be handed to a walker: a loaded snapshot stands for
/// an epoch that has a predecessor.
pub open spec fn admissible(event: WalkEventView) -> bool {
    event matches WalkEventView::Loaded { subsequent_epoch, .. } ==> subsequent_epoch >= 1
}

/// A walk visits epochs in strictly descending order: where the store hands
/// back, for the epoch tried, a snapshot of that epoch or an earlier one,
/// the epoch tried after the snapshot was enriched and saved is earlier than
/// the epoch tried before.
pub proof fn lemma_walk_descends(
    walker: WalkerView,
    tried: Epoch,
    subsequent_epoch: Epoch,
    snapshot: SnapshotView,
    reported: Seq<ReportedMetric>,
)
    requires
        walker.state == WalkState::Trying(tried),
        walker.loaded is None,
        1 <= subsequent_epoch <= tried,
    ensures
        ({
            let loaded = walker.after(WalkEventView::Loaded { subsequent_epoch, snapshot });
            let enriched = loaded.after(WalkEventView::Metrics { reported });
            let next = enriched.after(WalkEventView::Saved);
            &&& loaded.action() == WalkAction::FetchMetrics {
                as_of_epoch: (subsequent_epoch - 1) as Epoch,
            }
            &&& enriched.state == WalkState::Enriched(subsequent_epoch)
            &&& enriched.loaded == Some((subsequent_epoch, merged_snapshot(snapshot, reported)))
            &&& enriched.unreported == unreported(snapshot.validator_classifications, reported)
            &&& enriched.action() == WalkAction::Save { epoch: subsequent_epoch }
            &&& next.state == WalkState::Trying((subsequent_epoch - 1) as Epoch)
            &&& subsequent_epoch - 1 < tried
            &&& next.action() == WalkAction::Load { chained_from: subsequent_epoch }
        }),
{
}

/// A walk stops with an error where the chain ends: a load that finds
/// nothing fails the walk, and a failed walk stays failed and asks for
/// nothing more, whatever it is handed.
pub proof fn lemma_walk_stops_at_chain_end(walker: WalkerView, tried: Epoch, later: WalkEventView)
    requires
        walker.state == WalkState::Trying(tried),
        walker.loaded is None,
    ensures
        walker.after(WalkEventView::NotLoaded).state == WalkState::Failed(WalkError::LoadFailed),
        walker.after(WalkEventView::NotLoaded).action() == WalkAction::Halt,
        walker.after(WalkEventView::NotLoaded).after(later) == walker.after(
            WalkEventView::NotLoaded,
        ),
{
}

/// Every event leaves a well-formed walker well-formed.
pub proof fn lemma_walk_stays_well_formed(walker: WalkerView, event: WalkEventView)
    requires
        walker.wf(),
        admissible(event),
    ensures
        walker.after(event).wf(),
{
}

impl BackfillWalker {
    #[verifier::type_invariant]
    spec fn well_formed(self) -> bool {
        self@.wf()
    }

    /// A walk that starts by trying `head`, the current epoch of the chain.
    pub fn new(head: Epoch) -> (walker: BackfillWalker)
        requires
            head < u64::MAX,
        ensures
            walker@.state == WalkState::Trying(head),
            walker@.loaded is None,
            walker@.unreported.len() == 0,
            walker@.wf(),
    {
        BackfillWalker { state: WalkState::Trying(head), loaded: None, unreported: Vec::new() }
    }

    /// Where the walk stands.
    pub fn state(&self) -> (state: WalkState)
        ensures
            state == self@.state,
            self@.wf(),
    {
        proof {
            use_type_invariant(self);
        }
        self.state
    }

    /// The snapshot in hand, with the epoch it stands for.
    pub fn snapshot(&self) -> (held: Option<(Epoch, &EpochSnapshot)>)
        ensures
            match held {
                Some((epoch, snapshot)) => self@.loaded == Some((epoch, snapshot@)),
                None => self@.loaded is None,
            },
    {
        match &self.loaded {
            Some((epoch, snapshot)) => Some((*epoch, snapshot)),
            None => None,
        }
    }

    /// The validators of the snapshot last enriched for which no metrics
    /// were reported, each with its participant.
    pub fn unreported(&self) -> (missing: &Vec<(Pubkey, Option<Pubkey>)>)
        ensures
            missing@ == self@.unreported,
    {
        &self.unreported
    }

    /// What the driver is to do next.
    pub fn next_action(&self) -> (action: WalkAction)
        ensures
            action == self@.action(),
    {
        proof {
            use_type_invariant(self);
        }
        match self.state {
            WalkState::Trying(epoch) => match &self.loaded {
                None => WalkAction::Load { chained_from: epoch + 1 },
                Some((loaded, _)) => WalkAction::FetchMetrics { as_of_epoch: *loaded - 1 },
            },
            WalkState::Enriched(epoch) => WalkAction::Save { epoch },
            WalkState::Stopped => WalkAction::Halt,
            WalkState::Failed(_) => WalkAction::Halt,
        }
    }

    /// Takes in what the driver's last action came to, and names the next
    /// action.
    pub fn advance(&mut self, event: WalkEvent) -> (action: WalkAction)
        requires
            admissible(event@),
        ensures
            final(self)@ == old(self)@.after(event@),
            final(self)@.wf(),
            action == final(self)@.action(),
    {
        proof {
            use_type_invariant(&*self);
        }
        let mut walker = BackfillWalker {
            state: WalkState::Stopped,
            loaded: None,
            unreported: Vec::new(),
        };
        std::mem::swap(self, &mut walker);
        let BackfillWalker { state, loaded, unreported } = walker;
        let next = match (state, loaded, event) {
            (WalkState::Trying(_), None, WalkEvent::Loaded { subsequent_epoch, snapshot }) => {
                BackfillWalker { state, loaded: Some((subsequent_epoch, snapshot)), unreported }
            },
            (WalkState::Trying(_), None, WalkEvent::NotLoaded) => {
                BackfillWalker {
                    state: WalkState::Failed(WalkError::LoadFailed),
                    loaded: None,
                    unreported,
                }
            },
            (WalkState::Trying(_), Some((epoch, snapshot)), WalkEvent::Metrics { reported }) => {
                let mut snapshot = snapshot;
                let missing = merge_reported_metrics(&mut snapshot, &reported);
                BackfillWalker {
                    state: WalkState::Enriched(epoch),
                    loaded: Some((epoch, snapshot)),
                    unreported: missing,
                }
            },
            (WalkState::Trying(_), Some(_), WalkEvent::MetricsFailed) => {
                BackfillWalker {
                    state: WalkState::Failed(WalkError::MetricsFailed),
                    loaded: None,
                    unreported,
                }
            },
            (WalkState::Enriched(epoch), _, WalkEvent::Saved) => {
                BackfillWalker { state: WalkState::Trying(epoch - 1), loaded: None, unreported }
            },
            (WalkState::Enriched(_), _, WalkEvent::SaveFailed) => {
                BackfillWalker {
                    state: WalkState::Failed(WalkError::SaveFailed),
                    loaded: None,
                    unreported,
                }
            },
            (WalkState::Stopped, held, _) => { BackfillWalker { state, loaded: held, unreported } },
            (WalkState::Failed(_), held, _) => { BackfillWalker { state, loaded: held, unreported } },
            _ => {
                BackfillWalker {
                    state: WalkState::Failed(WalkError::OutOfTurn),
                    loaded: None,
                    unreported,
                }
            },
        };
        *self = next;
        self.next_action()
    }
}

/// Begins the backfill of self-reported metrics for a cluster whose current
/// epoch is `head`. The walk that is returned tries `head` first and
/// descends from there; it is for the driver to carry out.
pub fn backfill_self_reporting(head: Epoch) -> (walker: BackfillWalker)
    requires
        head < u64::MAX,
    ensures
        walker@.state == WalkState::Trying(head),
        walker@.loaded is None,
        walker@.unreported.len() == 0,
        walker@.wf(),
        walker@.action() == (WalkAction::Load { chained_from: (head + 1) as Epoch }),
{
    BackfillWalker::new(head)
}

} // verus!
