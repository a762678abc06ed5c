//! The resource pipeline: the synchronization of one resource kind, from its
//! listing to the last of its items.
//!
//! The pipeline lists the resource, hands the listed items out to workers,
//! up to a window of them side by side, counts what comes back and writes the
//! progress down. It decides; its driver acts. The driver performs the action
//! it is handed (a remote call, a write, a sleep, starting a worker, waiting
//! for one to end), and reports what came of it to
//! [`ResourcePipeline::step`], together with the current reading of the
//! cancellation token.

use crate::api::client::{id_from_url_spec, NamedApiResource, PokeApiClient};
use crate::models::sync::{progress, StatusView, SyncResourceStatus};
use crate::sync::limiter::DEFAULT_PERMITS;
use crate::sync::resource::{ResourceKind, ResourceStatus};
use crate::sync::retry::{
    lemma_retry_step_keeps_inv, RetryAction, RetryError, RetryEvent, RetryExecutor, RetryStage,
    RetryState,
};
use crate::sync::worker::{ItemResult, ATTEMPTS_PER_CALL};
use vstd::prelude::*;

verus! {

/// How the synchronization of a resource ended.
#[derive(Debug, PartialEq, Eq)]
pub enum Outcome {
    /// Every listed item was worked through.
    Done,
    /// The cancellation token was found set.
    Cancelled,
    /// The listing could not be had; the text is the error of the last
    /// attempt.
    Failed(String),
}

/// What the driver reports to the pipeline.
#[derive(Debug)]
pub enum PipelineEvent {
    /// The resource is to be synchronized.
    Start,
    /// The progress row has been written and mirrored to the observer.
    Persisted,
    /// One slice of a backoff wait has been slept.
    Slept,
    /// The complete listing of the resource, or why it could not be had.
    Listed(Result<Vec<NamedApiResource>, String>),
    /// The worker for the item has been started.
    Dispatched,
    /// The worker for the item at `index` of the listing has ended.
    ItemFinished { index: usize, result: ItemResult },
}

/// What the pipeline asks of its driver.
#[derive(Debug)]
pub enum PipelineAction<Row> {
    /// Write this progress row, mirror it to the observer, report
    /// `Persisted`.
    Persist(Row),
    /// Sleep one slice, report `Slept`.
    Sleep,
    /// Fetch the complete listing of the kind, once; report `Listed`.
    List(ResourceKind),
    /// Start a worker for the item `id`, which stands at `index` of the
    /// listing, and let it run beside the others; report `Dispatched`.
    Dispatch { index: usize, id: i64 },
    /// Wait until one of the workers has ended; report `ItemFinished` for it.
    Await,
    /// The pipeline has ended in this way; nothing is left to do.
    Finish(Outcome),
    /// The event does not fit the state of the pipeline, which is unchanged.
    Unexpected,
}

/// Where a pipeline stands: what it waits for.
#[derive(Debug, Clone, Copy, PartialEq, Eq, Structural)]
pub enum Stage {
    /// For `Start`.
    Idle,
    /// For the first progress row to be written.
    Announcing,
    /// For the listing.
    Listing,
    /// For a slice of a backoff wait to pass.
    Backoff,
    /// For the row with the total to be written.
    Sizing,
    /// For a worker to be started.
    Dispatching,
    /// For a worker to end.
    Awaiting,
    /// For a row with the new completed count to be written.
    Reporting,
    /// For the last row to be written.
    Closing,
    /// For nothing: the pipeline has ended.
    Finished,
}

/// Where an entry of the listing stands.
#[derive(Debug, Clone, Copy, PartialEq, Eq, Structural)]
pub enum ItemStatus {
    /// Its address ends with no identifier: it was passed over.
    Skipped,
    /// A worker is at work on it.
    InFlight,
    /// Its record was fetched and handed to the cache.
    Stored,
    /// Its record could not be fetched and was given up.
    GivenUp,
    /// Its worker found the cancellation token set.
    Aborted,
}

/// The number of entries that stand at `status`.
pub open spec fn count(items: Seq<ItemStatus>, status: ItemStatus) -> int
    decreases items.len(),
{
    if items.len() == 0 {
        0
    } else {
        count(items.drop_last(), status) + if items.last() == status {
            1int
        } else {
            0int
        }
    }
}

/// The identifiers that the entries of a listing resolve to, in order;
/// entries whose address ends with no identifier are left out.
pub open spec fn resolved_ids(entries: Seq<NamedApiResource>) -> Seq<i64>
    decreases entries.len(),
{
    if entries.len() == 0 {
        Seq::empty()
    } else {
        let before = resolved_ids(entries.drop_last());
        match id_from_url_spec(entries.last().url@) {
            Some(id) => before.push(id),
            None => before,
        }
    }
}

/// The identifiers of the entries whose record was handed to the cache, in
/// the order of the listing.
pub open spec fn stored_ids(entries: Seq<NamedApiResource>, items: Seq<ItemStatus>) -> Seq<i64>
    decreases items.len(),
{
    if items.len() == 0 || items.len() > entries.len() {
        Seq::empty()
    } else {
        let before = stored_ids(entries, items.drop_last());
        match id_from_url_spec(entries[items.len() - 1].url@) {
            Some(id) => if items.last() == ItemStatus::Stored {
                before.push(id)
            } else {
                before
            },
            None => before,
        }
    }
}

impl Outcome {
    /// The state that the last row of a pipeline with this outcome shows.
    pub open spec fn status(self) -> ResourceStatus {
        match self {
            Outcome::Done => ResourceStatus::Done,
            Outcome::Cancelled => ResourceStatus::Cancelled,
            Outcome::Failed(_) => ResourceStatus::Error,
        }
    }

    /// The error that the last row of a pipeline with this outcome shows.
    pub open spec fn error(self) -> Option<Seq<char>> {
        match self {
            Outcome::Failed(error) => Some(error@),
            _ => None,
        }
    }
}

/// The state of a pipeline.
pub struct PipelineState {
    pub kind: ResourceKind,
    pub stage: Stage,
    /// The retry executor of the listing.
    pub retry: RetryState,
    /// The number of items that may be worked on side by side.
    pub window: int,
    /// The listing, once it has been had.
    pub entries: Seq<NamedApiResource>,
    /// Where the entries stand that have been looked at: as many as have been
    /// passed over or handed out, in the order of the listing.
    pub items: Seq<ItemStatus>,
    pub total: int,
    pub completed: int,
    /// The number of workers that are at work.
    pub in_flight: int,
    /// Whether the token has been found set, so that no more items are
    /// handed out and the pipeline only waits for its workers to end.
    pub draining: bool,
    /// How the pipeline ended, once it is closing.
    pub outcome: Option<Outcome>,
    /// Whether the listing has been had.
    pub listed: bool,
    /// Whether the cancellation token has been found set.
    pub cancel_seen: bool,
    /// The row that was written last.
    pub last_row: Option<StatusView>,
}

impl PipelineState {
    /// The state of a pipeline for `kind` that has not been started.
    pub open spec fn initial(kind: ResourceKind, window: int) -> PipelineState {
        PipelineState {
            kind,
            stage: Stage::Idle,
            retry: RetryState::initial(ATTEMPTS_PER_CALL as nat),
            window,
            entries: Seq::empty(),
            items: Seq::empty(),
            total: 0,
            completed: 0,
            in_flight: 0,
            draining: false,
            outcome: None,
            listed: false,
            cancel_seen: false,
            last_row: None,
        }
    }

    /// The progress row of this state with `status`.
    pub open spec fn row(self, status: ResourceStatus, error: Option<Seq<char>>) -> StatusView {
        progress(self.kind, self.total, self.completed, status, error)
    }

    /// The row that a pipeline with `outcome` writes last. A failed pipeline
    /// shows no counts.
    pub open spec fn last_row_of(self, outcome: Outcome) -> StatusView {
        match outcome {
            Outcome::Failed(_) => progress(self.kind, 0, 0, outcome.status(), outcome.error()),
            _ => self.row(outcome.status(), outcome.error()),
        }
    }

    /// Writes `row` down: the action that asks for it, in the stage that
    /// waits for it.
    pub open spec fn persist(self, stage: Stage, row: StatusView) -> (
        PipelineState,
        PipelineAction<StatusView>,
    ) {
        (PipelineState { stage, last_row: Some(row), ..self }, PipelineAction::Persist(row))
    }

    /// Ends the pipeline with `outcome`: the last row is written first.
    pub open spec fn close(self, outcome: Outcome) -> (PipelineState, PipelineAction<StatusView>) {
        PipelineState {
            outcome: Some(outcome),
            cancel_seen: self.cancel_seen || outcome == Outcome::Cancelled,
            ..self
        }.persist(Stage::Closing, self.last_row_of(outcome))
    }

    /// Begins to fetch the listing, with a fresh retry executor: the first
    /// attempt is made unless the token is set, which ends the pipeline.
    pub open spec fn begin_listing(self, cancelled: bool) -> (
        PipelineState,
        PipelineAction<StatusView>,
    ) {
        let (retry, decision) = RetryState::initial(ATTEMPTS_PER_CALL as nat).next(
            cancelled,
            RetryEvent::Begin,
        );
        let begun = PipelineState { retry, ..self };
        match decision {
            RetryAction::Invoke => (
                PipelineState { stage: Stage::Listing, ..begun },
                PipelineAction::List(self.kind),
            ),
            RetryAction::Fail(RetryError::Cancelled) => begun.close(Outcome::Cancelled),
            _ => (self, PipelineAction::Unexpected),
        }
    }

    /// Goes on after a slice of a backoff wait: another slice, the next
    /// attempt, or the end of the pipeline when the token is set.
    pub open spec fn wake(self, cancelled: bool) -> (PipelineState, PipelineAction<StatusView>) {
        let (retry, decision) = self.retry.next(cancelled, RetryEvent::Slept);
        let woken = PipelineState { retry, ..self };
        match decision {
            RetryAction::Invoke => (
                PipelineState { stage: Stage::Listing, ..woken },
                PipelineAction::List(self.kind),
            ),
            RetryAction::Sleep => (woken, PipelineAction::Sleep),
            RetryAction::Fail(RetryError::Cancelled) => woken.close(Outcome::Cancelled),
            _ => (self, PipelineAction::Unexpected),
        }
    }

    /// Goes on after an attempt to fetch the listing has failed with `error`:
    /// a backoff wait before the next attempt, or the end of the pipeline,
    /// cancelled when the token is set, and failed with the error of the last
    /// attempt when the listing is given up.
    pub open spec fn listing_failed(self, cancelled: bool, error: String) -> (
        PipelineState,
        PipelineAction<StatusView>,
    ) {
        let (retry, decision) = self.retry.next(cancelled, RetryEvent::Failed(error@));
        let failed = PipelineState { retry, ..self };
        match decision {
            RetryAction::Sleep => (
                PipelineState { stage: Stage::Backoff, ..failed },
                PipelineAction::Sleep,
            ),
            RetryAction::Fail(RetryError::Cancelled) => failed.close(Outcome::Cancelled),
            RetryAction::Fail(RetryError::GaveUp(_)) => failed.close(Outcome::Failed(error)),
            _ => (self, PipelineAction::Unexpected),
        }
    }

    /// Waits for the workers that are at work to end, and ends the pipeline
    /// cancelled when none is left.
    pub open spec fn drain(self) -> (PipelineState, PipelineAction<StatusView>) {
        let draining = PipelineState { draining: true, cancel_seen: true, ..self };
        if self.in_flight > 0 {
            (PipelineState { stage: Stage::Awaiting, ..draining }, PipelineAction::Await)
        } else {
            draining.close(Outcome::Cancelled)
        }
    }

    /// Decides what is next: while the window has room and entries are left,
    /// the token is read and the next entry is handed out to a worker, or
    /// passed over when its address ends with no identifier; a set token
    /// stops the handing out. With a full window, or no entry left, the
    /// pipeline waits for a worker to end; with no worker at work and no
    /// entry left it is done.
    pub open spec fn pump(self, cancelled: bool) -> (PipelineState, PipelineAction<StatusView>)
        decreases self.entries.len() - self.items.len(),
    {
        if self.draining {
            self.drain()
        } else if self.in_flight < self.window && self.items.len() < self.entries.len() {
            if cancelled {
                self.drain()
            } else {
                match id_from_url_spec(self.entries[self.items.len() as int].url@) {
                    None => PipelineState {
                        items: self.items.push(ItemStatus::Skipped),
                        ..self
                    }.pump(cancelled),
                    Some(id) => (
                        PipelineState {
                            stage: Stage::Dispatching,
                            items: self.items.push(ItemStatus::InFlight),
                            in_flight: self.in_flight + 1,
                            ..self
                        },
                        PipelineAction::Dispatch { index: self.items.len() as usize, id },
                    ),
                }
            }
        } else if self.in_flight > 0 {
            (PipelineState { stage: Stage::Awaiting, ..self }, PipelineAction::Await)
        } else {
            self.close(Outcome::Done)
        }
    }

    /// Takes in what became of the item at `index`. An item that was worked
    /// through is counted as completed, and the progress is written down
    /// after every batch and after the last item; a worker that found the
    /// token set stops the handing out.
    pub open spec fn item_finished(self, cancelled: bool, index: int, result: ItemResult) -> (
        PipelineState,
        PipelineAction<StatusView>,
    ) {
        if 0 <= index < self.items.len() && self.items[index] == ItemStatus::InFlight {
            match result {
                ItemResult::Completed { stored } => {
                    let counted = PipelineState {
                        items: self.items.update(
                            index,
                            if stored {
                                ItemStatus::Stored
                            } else {
                                ItemStatus::GivenUp
                            },
                        ),
                        in_flight: self.in_flight - 1,
                        completed: self.completed + 1,
                        ..self
                    };
                    if counted.completed % self.kind.batch_size_spec() == 0 || counted.completed
                        == counted.total {
                        counted.persist(
                            Stage::Reporting,
                            counted.row(ResourceStatus::Syncing, None),
                        )
                    } else {
                        counted.pump(cancelled)
                    }
                },
                ItemResult::Cancelled => PipelineState {
                    items: self.items.update(index, ItemStatus::Aborted),
                    in_flight: self.in_flight - 1,
                    draining: true,
                    cancel_seen: true,
                    ..self
                }.pump(cancelled),
            }
        } else {
            (self, PipelineAction::Unexpected)
        }
    }

    /// The state after `event` and the action that the event leads to.
    pub open spec fn next(self, cancelled: bool, event: PipelineEvent) -> (
        PipelineState,
        PipelineAction<StatusView>,
    ) {
        match (self.stage, event) {
            (Stage::Idle, PipelineEvent::Start) => self.persist(
                Stage::Announcing,
                self.row(ResourceStatus::Syncing, None),
            ),
            (Stage::Announcing, PipelineEvent::Persisted) => self.begin_listing(cancelled),
            (Stage::Listing, PipelineEvent::Listed(Ok(entries))) => PipelineState {
                retry: self.retry.finished(),
                entries: entries@,
                total: entries@.len() as int,
                listed: true,
                ..self
            }.persist(
                Stage::Sizing,
                progress(self.kind, entries@.len() as int, 0, ResourceStatus::Syncing, None),
            ),
            (Stage::Listing, PipelineEvent::Listed(Err(error))) => self.listing_failed(
                cancelled,
                error,
            ),
            (Stage::Backoff, PipelineEvent::Slept) => self.wake(cancelled),
            (Stage::Sizing, PipelineEvent::Persisted) => self.pump(cancelled),
            (Stage::Dispatching, PipelineEvent::Dispatched) => self.pump(cancelled),
            (Stage::Awaiting, PipelineEvent::ItemFinished { index, result }) => self.item_finished(
                cancelled,
                index as int,
                result,
            ),
            (Stage::Reporting, PipelineEvent::Persisted) => self.pump(cancelled),
            (Stage::Closing, PipelineEvent::Persisted) => match self.outcome {
                Some(outcome) => (
                    PipelineState { stage: Stage::Finished, ..self },
                    PipelineAction::Finish(outcome),
                ),
                None => (self, PipelineAction::Unexpected),
            },
            _ => (self, PipelineAction::Unexpected),
        }
    }

    /// What holds of the counts of every state that a pipeline reaches.
    pub open spec fn counts_inv(self) -> bool {
        &&& self.window >= 1
        &&& self.items.len() <= self.entries.len() <= usize::MAX
        &&& self.completed == count(self.items, ItemStatus::Stored) + count(
            self.items,
            ItemStatus::GivenUp,
        )
        &&& self.in_flight == count(self.items, ItemStatus::InFlight)
        &&& 0 <= self.in_flight <= self.window
        &&& forall|i: int|
            0 <= i < self.items.len() ==> (#[trigger] self.items[i] == ItemStatus::Skipped
                <==> id_from_url_spec(self.entries[i].url@) is None)
        &&& count(self.items, ItemStatus::Aborted) > 0 ==> self.draining
        &&& if self.listed {
            self.total == self.entries.len()
        } else {
            self.entries.len() == 0 && self.total == 0
        }
    }

    /// What holds of the stage of every state that a pipeline reaches.
    pub open spec fn stage_inv(self) -> bool {
        match self.stage {
            Stage::Idle => !self.listed && self.retry.stage == RetryStage::Ready
                && self.last_row is None,
            Stage::Announcing => !self.listed,
            Stage::Listing => !self.listed && self.retry.stage == RetryStage::Invoking,
            Stage::Backoff => !self.listed && self.retry.stage == RetryStage::Sleeping,
            Stage::Sizing => self.listed && self.items.len() == 0,
            Stage::Dispatching => self.listed,
            Stage::Awaiting => self.listed && self.in_flight > 0,
            Stage::Reporting => self.listed,
            Stage::Closing => true,
            Stage::Finished => true,
        }
    }

    /// What holds of the outcome of every state that a pipeline reaches.
    pub open spec fn outcome_inv(self) -> bool {
        &&& self.outcome is Some <==> self.stage == Stage::Closing || self.stage == Stage::Finished
        &&& self.cancel_seen <==> self.draining || self.outcome == Some(Outcome::Cancelled)
        &&& self.draining ==> self.listed
        &&& match self.outcome {
            Some(Outcome::Done) => self.listed && self.items.len() == self.entries.len()
                && self.in_flight == 0 && !self.draining,
            Some(Outcome::Failed(_)) => !self.listed,
            Some(Outcome::Cancelled) => self.in_flight == 0,
            None => true,
        }
        &&& match self.outcome {
            Some(outcome) => self.last_row == Some(self.last_row_of(outcome)),
            None => true,
        }
    }

    /// What holds of every state that a pipeline reaches.
    pub open spec fn inv(self) -> bool {
        &&& self.retry.inv()
        &&& self.retry.max_attempts == ATTEMPTS_PER_CALL
        &&& self.counts_inv()
        &&& self.stage_inv()
        &&& self.outcome_inv()
    }
}

/// The count over a listing that is looked at one entry further.
pub proof fn lemma_count_push(items: Seq<ItemStatus>, item: ItemStatus, status: ItemStatus)
    ensures
        count(items.push(item), status) == count(items, status) + if item == status {
            1int
        } else {
            0int
        },
{
    assert(items.push(item).drop_last() =~= items);
}

/// The count after one entry has come to stand elsewhere.
pub proof fn lemma_count_update(
    items: Seq<ItemStatus>,
    index: int,
    item: ItemStatus,
    status: ItemStatus,
)
    requires
        0 <= index < items.len(),
    ensures
        count(items.update(index, item), status) == count(items, status) - (if items[index]
            == status {
            1int
        } else {
            0int
        }) + if item == status {
            1int
        } else {
            0int
        },
    decreases items.len(),
{
    if index == items.len() - 1 {
        assert(items.update(index, item).drop_last() =~= items.drop_last());
    } else {
        lemma_count_update(items.drop_last(), index, item, status);
        assert(items.update(index, item).drop_last() =~= items.drop_last().update(index, item));
    }
}

/// Every entry stands at exactly one of the five: the counts add up to the
/// number of entries, and none is negative.
pub proof fn lemma_counts_add_up(items: Seq<ItemStatus>)
    ensures
        count(items, ItemStatus::Skipped) + count(items, ItemStatus::InFlight) + count(
            items,
            ItemStatus::Stored,
        ) + count(items, ItemStatus::GivenUp) + count(items, ItemStatus::Aborted) == items.len(),
        count(items, ItemStatus::Skipped) >= 0,
        count(items, ItemStatus::InFlight) >= 0,
        count(items, ItemStatus::Stored) >= 0,
        count(items, ItemStatus::GivenUp) >= 0,
        count(items, ItemStatus::Aborted) >= 0,
    decreases items.len(),
{
    if items.len() > 0 {
        lemma_counts_add_up(items.drop_last());
    }
}

/// Where nothing stands at `status`, no entry does; where as many stand at
/// it as there are entries, every entry does.
pub proof fn lemma_count_extremes(items: Seq<ItemStatus>, status: ItemStatus)
    ensures
        count(items, status) == 0 ==> forall|i: int|
            0 <= i < items.len() ==> #[trigger] items[i] != status,
        count(items, status) == items.len() ==> forall|i: int|
            0 <= i < items.len() ==> #[trigger] items[i] == status,
        0 <= count(items, status) <= items.len(),
    decreases items.len(),
{
    if items.len() > 0 {
        lemma_count_extremes(items.drop_last(), status);
        assert forall|i: int| 0 <= i < items.len() - 1 implies items[i] == items.drop_last()[i] by {
        }
        if count(items, status) == 0 {
            assert forall|i: int| 0 <= i < items.len() implies #[trigger] items[i] != status by {
                if i < items.len() - 1 {
                    assert(items.drop_last()[i] != status);
                }
            }
        }
        if count(items, status) == items.len() {
            assert forall|i: int| 0 <= i < items.len() implies #[trigger] items[i] == status by {
                if i < items.len() - 1 {
                    assert(items.drop_last()[i] == status);
                }
            }
        }
    }
}

proof fn lemma_close_keeps_inv(state: PipelineState, outcome: Outcome)
    requires
        state.retry.inv(),
        state.retry.max_attempts == ATTEMPTS_PER_CALL,
        state.counts_inv(),
        state.outcome is None,
        state.cancel_seen <==> state.draining,
        state.draining ==> state.listed,
        outcome is Done ==> state.listed && state.items.len() == state.entries.len()
            && state.in_flight == 0 && !state.draining,
        outcome is Failed ==> !state.listed && !state.draining,
        outcome is Cancelled ==> state.in_flight == 0,
    ensures
        state.close(outcome).0.inv(),
{
}

proof fn lemma_drain_keeps_inv(state: PipelineState)
    requires
        state.retry.inv(),
        state.retry.max_attempts == ATTEMPTS_PER_CALL,
        state.counts_inv(),
        state.outcome is None,
        state.cancel_seen <==> state.draining,
        state.listed,
    ensures
        state.drain().0.inv(),
{
    let draining = PipelineState { draining: true, cancel_seen: true, ..state };
    if state.in_flight <= 0 {
        lemma_close_keeps_inv(draining, Outcome::Cancelled);
    }
}

proof fn lemma_pump_keeps_inv(state: PipelineState, cancelled: bool)
    requires
        state.retry.inv(),
        state.retry.max_attempts == ATTEMPTS_PER_CALL,
        state.counts_inv(),
        state.outcome is None,
        state.cancel_seen <==> state.draining,
        state.listed,
    ensures
        state.pump(cancelled).0.inv(),
    decreases state.entries.len() - state.items.len(),
{
    if state.draining {
        lemma_drain_keeps_inv(state);
    } else if state.in_flight < state.window && state.items.len() < state.entries.len() {
        if cancelled {
            lemma_drain_keeps_inv(state);
        } else {
            let index = state.items.len() as int;
            match id_from_url_spec(state.entries[index].url@) {
                None => {
                    let skipped = PipelineState {
                        items: state.items.push(ItemStatus::Skipped),
                        ..state
                    };
                    lemma_count_push(state.items, ItemStatus::Skipped, ItemStatus::Stored);
                    lemma_count_push(state.items, ItemStatus::Skipped, ItemStatus::GivenUp);
                    lemma_count_push(state.items, ItemStatus::Skipped, ItemStatus::InFlight);
                    lemma_count_push(state.items, ItemStatus::Skipped, ItemStatus::Aborted);
                    assert(skipped.counts_inv());
                    lemma_pump_keeps_inv(skipped, cancelled);
                },
                Some(id) => {
                    lemma_count_push(state.items, ItemStatus::InFlight, ItemStatus::Stored);
                    lemma_count_push(state.items, ItemStatus::InFlight, ItemStatus::GivenUp);
                    lemma_count_push(state.items, ItemStatus::InFlight, ItemStatus::InFlight);
                    lemma_count_push(state.items, ItemStatus::InFlight, ItemStatus::Aborted);
                },
            }
        }
    } else if state.in_flight > 0 {
    } else {
        lemma_counts_add_up(state.items);
        lemma_close_keeps_inv(state, Outcome::Done);
    }
}

proof fn lemma_item_finished_keeps_inv(
    state: PipelineState,
    cancelled: bool,
    index: int,
    result: ItemResult,
)
    requires
        state.inv(),
        state.stage == Stage::Awaiting,
    ensures
        state.item_finished(cancelled, index, result).0.inv(),
{
    if 0 <= index < state.items.len() && state.items[index] == ItemStatus::InFlight {
        let status = match result {
            ItemResult::Completed { stored } => if stored {
                ItemStatus::Stored
            } else {
                ItemStatus::GivenUp
            },
            ItemResult::Cancelled => ItemStatus::Aborted,
        };
        lemma_count_update(state.items, index, status, ItemStatus::Stored);
        lemma_count_update(state.items, index, status, ItemStatus::GivenUp);
        lemma_count_update(state.items, index, status, ItemStatus::InFlight);
        lemma_count_update(state.items, index, status, ItemStatus::Aborted);
        match result {
            ItemResult::Completed { stored } => {
                let counted = PipelineState {
                    items: state.items.update(index, status),
                    in_flight: state.in_flight - 1,
                    completed: state.completed + 1,
                    ..state
                };
                assert(counted.counts_inv());
                if counted.completed % state.kind.batch_size_spec() == 0 || counted.completed
                    == counted.total {
                } else {
                    lemma_pump_keeps_inv(counted, cancelled);
                }
            },
            ItemResult::Cancelled => {
                let aborted = PipelineState {
                    items: state.items.update(index, status),
                    in_flight: state.in_flight - 1,
                    draining: true,
                    cancel_seen: true,
                    ..state
                };
                assert(aborted.counts_inv());
                lemma_pump_keeps_inv(aborted, cancelled);
            },
        }
    }
}

/// Every step keeps the invariant.
pub proof fn lemma_pipeline_step_keeps_inv(
    state: PipelineState,
    cancelled: bool,
    event: PipelineEvent,
)
    requires
        state.inv(),
    ensures
        state.next(cancelled, event).0.inv(),
{
    match (state.stage, event) {
        (Stage::Idle, PipelineEvent::Start) => {},
        (Stage::Announcing, PipelineEvent::Persisted) => {
            let (retry, decision) = RetryState::initial(ATTEMPTS_PER_CALL as nat).next(
                cancelled,
                RetryEvent::Begin,
            );
            let begun = PipelineState { retry, ..state };
            if cancelled {
                lemma_close_keeps_inv(begun, Outcome::Cancelled);
            }
        },
        (Stage::Listing, PipelineEvent::Listed(Ok(entries))) => {
            assert(entries@.len() == entries.len());
        },
        (Stage::Listing, PipelineEvent::Listed(Err(error))) => {
            lemma_retry_step_keeps_inv(state.retry, cancelled, RetryEvent::Failed(error@));
            let (retry, decision) = state.retry.next(cancelled, RetryEvent::Failed(error@));
            let failed = PipelineState { retry, ..state };
            match decision {
                RetryAction::Fail(RetryError::Cancelled) => {
                    lemma_close_keeps_inv(failed, Outcome::Cancelled);
                },
                RetryAction::Fail(RetryError::GaveUp(_)) => {
                    lemma_close_keeps_inv(failed, Outcome::Failed(error));
                },
                _ => {},
            }
        },
        (Stage::Backoff, PipelineEvent::Slept) => {
            lemma_retry_step_keeps_inv(state.retry, cancelled, RetryEvent::Slept);
            let (retry, decision) = state.retry.next(cancelled, RetryEvent::Slept);
            let woken = PipelineState { retry, ..state };
            if decision == RetryAction::<Seq<char>>::Fail(RetryError::Cancelled) {
                lemma_close_keeps_inv(woken, Outcome::Cancelled);
            }
        },
        (Stage::Sizing, PipelineEvent::Persisted) => {
            lemma_pump_keeps_inv(state, cancelled);
        },
        (Stage::Dispatching, PipelineEvent::Dispatched) => {
            lemma_pump_keeps_inv(state, cancelled);
        },
        (Stage::Awaiting, PipelineEvent::ItemFinished { index, result }) => {
            lemma_item_finished_keeps_inv(state, cancelled, index as int, result);
        },
        (Stage::Reporting, PipelineEvent::Persisted) => {
            lemma_pump_keeps_inv(state, cancelled);
        },
        (Stage::Closing, PipelineEvent::Persisted) => {},
        _ => {},
    }
}

impl View for PipelineAction<SyncResourceStatus> {
    type V = PipelineAction<StatusView>;

    open spec fn view(&self) -> PipelineAction<StatusView> {
        match *self {
            PipelineAction::Persist(row) => PipelineAction::Persist(row@),
            PipelineAction::Sleep => PipelineAction::Sleep,
            PipelineAction::List(kind) => PipelineAction::List(kind),
            PipelineAction::Dispatch { index, id } => PipelineAction::Dispatch { index, id },
            PipelineAction::Await => PipelineAction::Await,
            PipelineAction::Finish(outcome) => PipelineAction::Finish(outcome),
            PipelineAction::Unexpected => PipelineAction::Unexpected,
        }
    }
}

impl PipelineEvent {
    /// Whether the event can be counted: a listing has no more entries than
    /// an `i64` can count.
    pub open spec fn fits(&self) -> bool {
        match self {
            PipelineEvent::Listed(Ok(entries)) => entries.len() <= i64::MAX,
            _ => true,
        }
    }

    /// Whether the event can be counted.
    pub fn is_countable(&self) -> (fits: bool)
        ensures
            fits == self.fits(),
    {
        match self {
            PipelineEvent::Listed(Ok(entries)) => entries.len() as u64 <= 0x7fff_ffff_ffff_ffff,
            _ => true,
        }
    }
}

impl Outcome {
    fn copy(&self) -> (copy: Outcome)
        ensures
            copy == *self,
    {
        match self {
            Outcome::Done => Outcome::Done,
            Outcome::Cancelled => Outcome::Cancelled,
            Outcome::Failed(error) => Outcome::Failed(error.clone()),
        }
    }
}

/// The pipeline as it is held in memory.
struct PipelineCore {
    kind: ResourceKind,
    stage: Stage,
    retry: RetryExecutor,
    window: usize,
    entries: Vec<NamedApiResource>,
    items: Vec<ItemStatus>,
    total: i64,
    completed: i64,
    in_flight: usize,
    draining: bool,
    outcome: Option<Outcome>,
    listed: Ghost<bool>,
    cancel_seen: Ghost<bool>,
    last_row: Ghost<Option<StatusView>>,
}

impl View for PipelineCore {
    type V = PipelineState;

    closed spec fn view(&self) -> PipelineState {
        PipelineState {
            kind: self.kind,
            stage: self.stage,
            retry: self.retry@,
            window: self.window as int,
            entries: self.entries@,
            items: self.items@,
            total: self.total as int,
            completed: self.completed as int,
            in_flight: self.in_flight as int,
            draining: self.draining,
            outcome: self.outcome,
            listed: self.listed@,
            cancel_seen: self.cancel_seen@,
            last_row: self.last_row@,
        }
    }
}

impl PipelineCore {
    spec fn wf(&self) -> bool {
        &&& self@.inv()
        &&& self.entries.len() <= i64::MAX
    }

    /// Whether the counts leave room for what is still to come.
    spec fn roomy(&self) -> bool {
        &&& self.items.len() <= self.entries.len()
        &&& self.in_flight <= self.window
    }

    fn new(kind: ResourceKind, window: usize) -> (core: Self)
        requires
            window >= 1,
        ensures
            core@ == PipelineState::initial(kind, window as int),
            core.wf(),
    {
        PipelineCore {
            kind,
            stage: Stage::Idle,
            retry: RetryExecutor::new(ATTEMPTS_PER_CALL),
            window,
            entries: Vec::new(),
            items: Vec::new(),
            total: 0,
            completed: 0,
            in_flight: 0,
            draining: false,
            outcome: None,
            listed: Ghost(false),
            cancel_seen: Ghost(false),
            last_row: Ghost(None),
        }
    }

    fn persist(&mut self, stage: Stage, row: SyncResourceStatus) -> (action: PipelineAction<
        SyncResourceStatus,
    >)
        ensures
            (final(self)@, action@) == old(self)@.persist(stage, row@),
    {
        self.stage = stage;
        proof {
            self.last_row@ = Some(row@);
        }
        PipelineAction::Persist(row)
    }

    fn close(&mut self, outcome: Outcome) -> (action: PipelineAction<SyncResourceStatus>)
        ensures
            (final(self)@, action@) == old(self)@.close(outcome),
    {
        let row = match &outcome {
            Outcome::Done => SyncResourceStatus::new(
                self.kind,
                self.total,
                self.completed,
                ResourceStatus::Done,
                None,
            ),
            Outcome::Cancelled => SyncResourceStatus::new(
                self.kind,
                self.total,
                self.completed,
                ResourceStatus::Cancelled,
                None,
            ),
            Outcome::Failed(error) => SyncResourceStatus::new(
                self.kind,
                0,
                0,
                ResourceStatus::Error,
                Some(error.clone()),
            ),
        };
        proof {
            self.cancel_seen@ = self.cancel_seen@ || outcome == Outcome::Cancelled;
        }
        self.outcome = Some(outcome);
        self.persist(Stage::Closing, row)
    }

    fn begin_listing(&mut self, cancelled: bool) -> (action: PipelineAction<SyncResourceStatus>)
        ensures
            (final(self)@, action@) == old(self)@.begin_listing(cancelled),
    {
        let mut retry = RetryExecutor::new(ATTEMPTS_PER_CALL);
        let decision = retry.step(cancelled, RetryEvent::Begin);
        match decision {
            RetryAction::Invoke => {
                self.retry = retry;
                self.stage = Stage::Listing;
                PipelineAction::List(self.kind)
            },
            RetryAction::Fail(RetryError::Cancelled) => {
                self.retry = retry;
                self.close(Outcome::Cancelled)
            },
            _ => PipelineAction::Unexpected,
        }
    }

    fn wake(&mut self, cancelled: bool) -> (action: PipelineAction<SyncResourceStatus>)
        ensures
            (final(self)@, action@) == old(self)@.wake(cancelled),
    {
        let mut retry = self.retry;
        let decision = retry.step(cancelled, RetryEvent::Slept);
        match decision {
            RetryAction::Invoke => {
                self.retry = retry;
                self.stage = Stage::Listing;
                PipelineAction::List(self.kind)
            },
            RetryAction::Sleep => {
                self.retry = retry;
                PipelineAction::Sleep
            },
            RetryAction::Fail(RetryError::Cancelled) => {
                self.retry = retry;
                self.close(Outcome::Cancelled)
            },
            _ => PipelineAction::Unexpected,
        }
    }

    fn listing_failed(&mut self, cancelled: bool, error: String) -> (action: PipelineAction<
        SyncResourceStatus,
    >)
        ensures
            (final(self)@, action@) == old(self)@.listing_failed(cancelled, error),
    {
        let mut retry = self.retry;
        let decision = retry.step(cancelled, RetryEvent::Failed(error.clone()));
        match decision {
            RetryAction::Sleep => {
                self.retry = retry;
                self.stage = Stage::Backoff;
                PipelineAction::Sleep
            },
            RetryAction::Fail(RetryError::Cancelled) => {
                self.retry = retry;
                self.close(Outcome::Cancelled)
            },
            RetryAction::Fail(RetryError::GaveUp(_)) => {
                self.retry = retry;
                self.close(Outcome::Failed(error))
            },
            _ => PipelineAction::Unexpected,
        }
    }

    fn drain(&mut self) -> (action: PipelineAction<SyncResourceStatus>)
        ensures
            (final(self)@, action@) == old(self)@.drain(),
    {
        self.draining = true;
        proof {
            self.cancel_seen@ = true;
        }
        if self.in_flight > 0 {
            self.stage = Stage::Awaiting;
            PipelineAction::Await
        } else {
            self.close(Outcome::Cancelled)
        }
    }

    fn pump(&mut self, cancelled: bool) -> (action: PipelineAction<SyncResourceStatus>)
        requires
            old(self).roomy(),
        ensures
            (final(self)@, action@) == old(self)@.pump(cancelled),
    {
        let ghost start = self@;
        loop
            invariant
                self.roomy(),
                start == old(self)@,
                start.pump(cancelled) == self@.pump(cancelled),
            decreases self.entries.len() - self.items.len(),
        {
            if self.draining {
                return self.drain();
            }
            if self.in_flight < self.window && self.items.len() < self.entries.len() {
                if cancelled {
                    return self.drain();
                }
                let index = self.items.len();
                match PokeApiClient::id_from_url(self.entries[index].url.as_str()) {
                    None => {
                        self.items.push(ItemStatus::Skipped);
                    },
                    Some(id) => {
                        self.items.push(ItemStatus::InFlight);
                        self.in_flight = self.in_flight + 1;
                        self.stage = Stage::Dispatching;
                        return PipelineAction::Dispatch { index, id };
                    },
                }
            } else if self.in_flight > 0 {
                self.stage = Stage::Awaiting;
                return PipelineAction::Await;
            } else {
                return self.close(Outcome::Done);
            }
        }
    }

    fn item_finished(&mut self, cancelled: bool, index: usize, result: ItemResult) -> (action:
        PipelineAction<SyncResourceStatus>)
        requires
            old(self).wf(),
        ensures
            (final(self)@, action@) == old(self)@.item_finished(cancelled, index as int, result),
    {
        if index < self.items.len() && self.items[index] == ItemStatus::InFlight {
            proof {
                lemma_counts_add_up(self.items@);
                lemma_count_extremes(self.items@, ItemStatus::InFlight);
            }
            match result {
                ItemResult::Completed { stored } => {
                    self.items[index] = if stored {
                        ItemStatus::Stored
                    } else {
                        ItemStatus::GivenUp
                    };
                    self.in_flight = self.in_flight - 1;
                    self.completed = self.completed + 1;
                    if self.completed % self.kind.batch_size() == 0 || self.completed
                        == self.total {
                        let row = SyncResourceStatus::new(
                            self.kind,
                            self.total,
                            self.completed,
                            ResourceStatus::Syncing,
                            None,
                        );
                        self.persist(Stage::Reporting, row)
                    } else {
                        self.pump(cancelled)
                    }
                },
                ItemResult::Cancelled => {
                    self.items[index] = ItemStatus::Aborted;
                    self.in_flight = self.in_flight - 1;
                    self.draining = true;
                    proof {
                        self.cancel_seen@ = true;
                    }
                    self.pump(cancelled)
                },
            }
        } else {
            PipelineAction::Unexpected
        }
    }

    fn step(&mut self, cancelled: bool, event: PipelineEvent) -> (action: PipelineAction<
        SyncResourceStatus,
    >)
        requires
            old(self).wf(),
            event.fits(),
        ensures
            (final(self)@, action@) == old(self)@.next(cancelled, event),
            final(self).wf(),
    {
        proof {
            lemma_pipeline_step_keeps_inv(self@, cancelled, event);
        }
        match (self.stage, event) {
            (Stage::Idle, PipelineEvent::Start) => {
                let row = SyncResourceStatus::new(
                    self.kind,
                    self.total,
                    self.completed,
                    ResourceStatus::Syncing,
                    None,
                );
                self.persist(Stage::Announcing, row)
            },
            (Stage::Announcing, PipelineEvent::Persisted) => self.begin_listing(cancelled),
            (Stage::Listing, PipelineEvent::Listed(Ok(entries))) => {
                let total = entries.len() as i64;
                let mut retry = self.retry;
                let decision = retry.step(cancelled, RetryEvent::Succeeded);
                self.retry = retry;
                self.entries = entries;
                self.total = total;
                proof {
                    self.listed@ = true;
                }
                let row = SyncResourceStatus::new(
                    self.kind,
                    total,
                    0,
                    ResourceStatus::Syncing,
                    None,
                );
                self.persist(Stage::Sizing, row)
            },
            (Stage::Listing, PipelineEvent::Listed(Err(error))) => self.listing_failed(
                cancelled,
                error,
            ),
            (Stage::Backoff, PipelineEvent::Slept) => self.wake(cancelled),
            (Stage::Sizing, PipelineEvent::Persisted) => self.pump(cancelled),
            (Stage::Dispatching, PipelineEvent::Dispatched) => self.pump(cancelled),
            (Stage::Awaiting, PipelineEvent::ItemFinished { index, result }) => self.item_finished(
                cancelled,
                index,
                result,
            ),
            (Stage::Reporting, PipelineEvent::Persisted) => self.pump(cancelled),
            (Stage::Closing, PipelineEvent::Persisted) => {
                match &self.outcome {
                    Some(outcome) => {
                        let outcome = outcome.copy();
                        self.stage = Stage::Finished;
                        PipelineAction::Finish(outcome)
                    },
                    None => PipelineAction::Unexpected,
                }
            },
            _ => PipelineAction::Unexpected,
        }
    }
}

/// The synchronization of one resource kind.
pub struct ResourcePipeline {
    core: PipelineCore,
}

impl View for ResourcePipeline {
    type V = PipelineState;

    closed spec fn view(&self) -> PipelineState {
        self.core@
    }
}

impl ResourcePipeline {
    #[verifier::type_invariant]
    spec fn well_formed(&self) -> bool {
        self.core.wf()
    }

    /// A pipeline for `kind` that waits to be started. It works on as many
    /// items side by side as the concurrency limiter has permits.
    pub fn new(kind: ResourceKind) -> (pipeline: Self)
        ensures
            pipeline@ == PipelineState::initial(kind, DEFAULT_PERMITS as int),
            pipeline@.inv(),
    {
        ResourcePipeline { core: PipelineCore::new(kind, DEFAULT_PERMITS) }
    }

    /// A pipeline for `kind` that works on up to `window` items side by
    /// side; with a window of one it works on one item after the other.
    pub fn with_window(kind: ResourceKind, window: usize) -> (pipeline: Self)
        requires
            window >= 1,
        ensures
            pipeline@ == PipelineState::initial(kind, window as int),
            pipeline@.inv(),
    {
        ResourcePipeline { core: PipelineCore::new(kind, window) }
    }

    /// Takes in one event, with the current reading of the cancellation
    /// token, and says what the driver is to do next.
    pub fn step(&mut self, cancelled: bool, event: PipelineEvent) -> (action: PipelineAction<
        SyncResourceStatus,
    >)
        requires
            event.fits(),
        ensures
            (final(self)@, action@) == old(self)@.next(cancelled, event),
            old(self)@.inv(),
            final(self)@.inv(),
    {
        proof {
            use_type_invariant(&*self);
        }
        // The state is taken out for the step and put back after it, so that
        // the pipeline is well formed at every moment.
        let mut core = PipelineCore::new(self.core.kind, 1);
        core::mem::swap(&mut self.core, &mut core);
        let action = core.step(cancelled, event);
        self.core = core;
        action
    }

    /// The kind that this pipeline synchronizes.
    pub fn kind(&self) -> (kind: ResourceKind)
        ensures
            kind == self@.kind,
    {
        self.core.kind
    }

    /// What the pipeline waits for.
    pub fn stage(&self) -> (stage: Stage)
        ensures
            stage == self@.stage,
    {
        self.core.stage
    }

    /// The number of items that may be worked on side by side.
    pub fn window(&self) -> (window: usize)
        ensures
            window == self@.window,
            window >= 1,
    {
        proof {
            use_type_invariant(self);
        }
        self.core.window
    }

    /// The number of listed items; zero until the listing has been had.
    pub fn total(&self) -> (total: i64)
        ensures
            total == self@.total,
    {
        self.core.total
    }

    /// The number of items that have been worked through.
    pub fn completed(&self) -> (completed: i64)
        ensures
            completed == self@.completed,
            0 <= completed <= self@.total,
    {
        proof {
            use_type_invariant(self);
            lemma_counts_add_up(self.core.items@);
        }
        self.core.completed
    }

    /// The number of workers that are at work. It never exceeds the window.
    pub fn in_flight(&self) -> (in_flight: usize)
        ensures
            in_flight == self@.in_flight,
            in_flight <= self@.window,
    {
        proof {
            use_type_invariant(self);
        }
        self.core.in_flight
    }
}

/// Where every entry that has been looked at was stored, the identifiers
/// handed to the cache are those that the entries resolve to.
pub proof fn lemma_all_stored(entries: Seq<NamedApiResource>, items: Seq<ItemStatus>)
    requires
        items.len() <= entries.len(),
        forall|i: int| 0 <= i < items.len() ==> #[trigger] items[i] == ItemStatus::Stored,
    ensures
        stored_ids(entries, items) == resolved_ids(entries.take(items.len() as int)),
    decreases items.len(),
{
    if items.len() > 0 {
        let shorter = items.drop_last();
        lemma_all_stored(entries, shorter);
        assert(entries.take(items.len() as int).drop_last() =~= entries.take(
            shorter.len() as int,
        ));
    }
}

/// A synchronization without cancellation and without lasting errors ends
/// done and complete: when the token was never found set, the listing was
/// had, every entry gave an identifier and every record was fetched, then the
/// last row is `done` with `completed == total`, the records handed to the
/// cache are those of the listing, and where the listing names no identifier
/// twice they are `total` different rows.
pub proof fn lemma_successful_sync_is_complete(state: PipelineState)
    requires
        state.inv(),
        state.stage == Stage::Finished,
        !state.cancel_seen,
        state.listed,
        count(state.items, ItemStatus::Skipped) == 0,
        count(state.items, ItemStatus::GivenUp) == 0,
    ensures
        state.outcome == Some(Outcome::Done),
        state.completed == state.total,
        state.total == state.entries.len(),
        state.last_row == Some(
            progress(state.kind, state.total, state.total, ResourceStatus::Done, None),
        ),
        forall|i: int| 0 <= i < state.total ==> #[trigger] state.items[i] == ItemStatus::Stored,
        stored_ids(state.entries, state.items) == resolved_ids(state.entries),
        resolved_ids(state.entries).no_duplicates() ==> stored_ids(
            state.entries,
            state.items,
        ).to_set().len() == state.total,
{
    lemma_counts_add_up(state.items);
    lemma_count_extremes(state.items, ItemStatus::Aborted);
    lemma_count_extremes(state.items, ItemStatus::Stored);
    lemma_all_stored(state.entries, state.items);
    assert(state.entries.take(state.entries.len() as int) =~= state.entries);
    lemma_resolved_count(state.entries, state.items);
    if resolved_ids(state.entries).no_duplicates() {
        resolved_ids(state.entries).unique_seq_to_set();
    }
}

/// As many identifiers are resolved as entries are not passed over.
proof fn lemma_resolved_count(entries: Seq<NamedApiResource>, items: Seq<ItemStatus>)
    requires
        items.len() <= entries.len(),
        forall|i: int|
            0 <= i < items.len() ==> (#[trigger] items[i] == ItemStatus::Skipped
                <==> id_from_url_spec(entries[i].url@) is None),
    ensures
        resolved_ids(entries.take(items.len() as int)).len() == items.len() - count(
            items,
            ItemStatus::Skipped,
        ),
    decreases items.len(),
{
    if items.len() > 0 {
        let shorter = items.drop_last();
        assert forall|i: int| 0 <= i < shorter.len() implies (#[trigger] shorter[i]
            == ItemStatus::Skipped <==> id_from_url_spec(entries[i].url@) is None) by {
            assert(shorter[i] == items[i]);
        }
        lemma_resolved_count(entries, shorter);
        assert(entries.take(items.len() as int).drop_last() =~= entries.take(
            shorter.len() as int,
        ));
        assert(items.last() == items[items.len() - 1]);
    }
}

/// A pipeline that found the cancellation token set ends cancelled: its last
/// row is `cancelled`, no worker is left at work, and `completed` is the
/// number of items that were worked through, which is no more than `total`.
pub proof fn lemma_cancelled_sync_is_marked(state: PipelineState)
    requires
        state.inv(),
        state.stage == Stage::Finished,
        state.cancel_seen,
    ensures
        state.outcome == Some(Outcome::Cancelled),
        state.last_row == Some(
            progress(state.kind, state.total, state.completed, ResourceStatus::Cancelled, None),
        ),
        state.in_flight == 0,
        state.completed == count(state.items, ItemStatus::Stored) + count(
            state.items,
            ItemStatus::GivenUp,
        ),
        0 <= state.completed <= state.total,
{
    lemma_counts_add_up(state.items);
}

/// A listing that could not be had fails the resource and nothing else: the
/// last row is `error` with the error of the last attempt and no counts, and
/// no item was handed out.
pub proof fn lemma_failed_sync_is_marked(state: PipelineState, error: String)
    requires
        state.inv(),
        state.stage == Stage::Finished,
        state.outcome == Some(Outcome::Failed(error)),
    ensures
        !state.listed,
        state.items.len() == 0,
        state.last_row == Some(progress(state.kind, 0, 0, ResourceStatus::Error, Some(error@))),
{
}

/// The window is kept: an item is handed out only while fewer workers are at
/// work than the window allows, in the order of the listing, and never after
/// the token was found set; the number of workers at work never exceeds the
/// window.
pub proof fn lemma_window_is_kept(state: PipelineState, cancelled: bool, event: PipelineEvent)
    requires
        state.inv(),
    ensures
        0 <= state.next(cancelled, event).0.in_flight <= state.window,
        state.next(cancelled, event).0.window == state.window,
        match state.next(cancelled, event).1 {
            PipelineAction::Dispatch { index, id } => {
                let after = state.next(cancelled, event).0;
                &&& !cancelled
                &&& !after.draining
                &&& after.in_flight <= state.in_flight + 1
                &&& index == after.items.len() - 1
                &&& after.items[index as int] == ItemStatus::InFlight
                &&& id_from_url_spec(after.entries[index as int].url@) == Some(id)
            },
            PipelineAction::Await => state.next(cancelled, event).0.in_flight > 0,
            PipelineAction::Finish(_) => state.next(cancelled, event).0.in_flight == 0,
            _ => true,
        },
{
    lemma_pipeline_step_keeps_inv(state, cancelled, event);
    match (state.stage, event) {
        (Stage::Sizing, PipelineEvent::Persisted) => {
            lemma_pump_dispatches_in_order(state, cancelled);
        },
        (Stage::Dispatching, PipelineEvent::Dispatched) => {
            lemma_pump_dispatches_in_order(state, cancelled);
        },
        (Stage::Reporting, PipelineEvent::Persisted) => {
            lemma_pump_dispatches_in_order(state, cancelled);
        },
        (Stage::Awaiting, PipelineEvent::ItemFinished { index, result }) => {
            if 0 <= index < state.items.len() && state.items[index as int]
                == ItemStatus::InFlight {
                match result {
                    ItemResult::Completed { stored } => {
                        let counted = PipelineState {
                            items: state.items.update(
                                index as int,
                                if stored {
                                    ItemStatus::Stored
                                } else {
                                    ItemStatus::GivenUp
                                },
                            ),
                            in_flight: state.in_flight - 1,
                            completed: state.completed + 1,
                            ..state
                        };
                        lemma_pump_dispatches_in_order(counted, cancelled);
                    },
                    ItemResult::Cancelled => {
                        let aborted = PipelineState {
                            items: state.items.update(index as int, ItemStatus::Aborted),
                            in_flight: state.in_flight - 1,
                            draining: true,
                            cancel_seen: true,
                            ..state
                        };
                        lemma_pump_dispatches_in_order(aborted, cancelled);
                    },
                }
            }
        },
        (Stage::Closing, PipelineEvent::Persisted) => {
            if !state.listed {
                assert(state.items.len() == 0);
                assert(count(state.items, ItemStatus::InFlight) == 0);
            }
        },
        _ => {},
    }
}

proof fn lemma_pump_dispatches_in_order(state: PipelineState, cancelled: bool)
    requires
        state.items.len() <= state.entries.len(),
        state.entries.len() <= usize::MAX,
    ensures
        state.pump(cancelled).0.window == state.window,
        state.pump(cancelled).0.completed == state.completed,
        state.pump(cancelled).0.total == state.total,
        state.pump(cancelled).0.in_flight <= state.in_flight + 1,
        state.pump(cancelled).1 is Persist || state.pump(cancelled).1 is Dispatch
            || state.pump(cancelled).1 is Await,
        match state.pump(cancelled).1 {
            PipelineAction::Dispatch { index, id } => {
                let after = state.pump(cancelled).0;
                &&& !cancelled
                &&& !after.draining
                &&& state.in_flight < state.window
                &&& index == after.items.len() - 1
                &&& after.items[index as int] == ItemStatus::InFlight
                &&& id_from_url_spec(after.entries[index as int].url@) == Some(id)
            },
            PipelineAction::Await => state.pump(cancelled).0.in_flight > 0,
            _ => true,
        },
    decreases state.entries.len() - state.items.len(),
{
    if state.draining {
    } else if state.in_flight < state.window && state.items.len() < state.entries.len() {
        if cancelled {
        } else {
            match id_from_url_spec(state.entries[state.items.len() as int].url@) {
                None => {
                    let skipped = PipelineState {
                        items: state.items.push(ItemStatus::Skipped),
                        ..state
                    };
                    lemma_pump_dispatches_in_order(skipped, cancelled);
                },
                Some(id) => {},
            }
        }
    }
}

/// Within one run the completed count never goes down, and the total is
/// fixed once the listing has been had.
pub proof fn lemma_progress_is_monotonic(
    state: PipelineState,
    cancelled: bool,
    event: PipelineEvent,
)
    requires
        state.inv(),
    ensures
        state.next(cancelled, event).0.completed >= state.completed,
        state.listed ==> state.next(cancelled, event).0.total == state.total,
{
    lemma_pipeline_step_keeps_inv(state, cancelled, event);
    match (state.stage, event) {
        (Stage::Sizing, PipelineEvent::Persisted) => {
            lemma_pump_dispatches_in_order(state, cancelled);
        },
        (Stage::Dispatching, PipelineEvent::Dispatched) => {
            lemma_pump_dispatches_in_order(state, cancelled);
        },
        (Stage::Reporting, PipelineEvent::Persisted) => {
            lemma_pump_dispatches_in_order(state, cancelled);
        },
        (Stage::Awaiting, PipelineEvent::ItemFinished { index, result }) => {
            if 0 <= index < state.items.len() && state.items[index as int]
                == ItemStatus::InFlight {
                match result {
                    ItemResult::Completed { stored } => {
                        let counted = PipelineState {
                            items: state.items.update(
                                index as int,
                                if stored {
                                    ItemStatus::Stored
                                } else {
                                    ItemStatus::GivenUp
                                },
                            ),
                            in_flight: state.in_flight - 1,
                            completed: state.completed + 1,
                            ..state
                        };
                        lemma_pump_dispatches_in_order(counted, cancelled);
                    },
                    ItemResult::Cancelled => {
                        let aborted = PipelineState {
                            items: state.items.update(index as int, ItemStatus::Aborted),
                            in_flight: state.in_flight - 1,
                            draining: true,
                            cancel_seen: true,
                            ..state
                        };
                        lemma_pump_dispatches_in_order(aborted, cancelled);
                    },
                }
            }
        },
        _ => {},
    }
}

} // verus!
