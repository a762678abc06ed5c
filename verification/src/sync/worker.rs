//! The item worker: one listed item, from the first attempt to fetch its
//! record to the last row written for it.
//!
//! The worker decides; its driver acts. The driver performs the action it is
//! handed (a remote call, a write, a sleep, taking or giving back a permit),
//! and reports what came of it to [`ItemWorker::step`], together with the
//! current reading of the cancellation token.

use crate::api::abilities::ParsedAbility;
use crate::api::items::ParsedItem;
use crate::api::moves::ParsedMove;
use crate::api::natures::ParsedNature;
use crate::api::pokemon::ParsedPokemon;
use crate::api::species::ParsedSpecies;
use crate::api::types::{ParsedType, ParsedTypeEfficacy};
use crate::models::pokemon::EvolutionNode;
use crate::sync::resource::ResourceKind;
use crate::sync::retry::{
    lemma_retry_step_keeps_inv, RetryAction, RetryError, RetryEvent, RetryExecutor, RetryStage,
    RetryState,
};
use vstd::prelude::*;

verus! {

/// The number of attempts that every remote call is given.
pub const ATTEMPTS_PER_CALL: u32 = 3;

/// A record of the remote API, parsed and ready to be cached.
#[derive(Debug)]
pub enum Record {
    Type(ParsedType, Vec<ParsedTypeEfficacy>),
    Move(ParsedMove),
    Pokemon(ParsedPokemon),
    Item(ParsedItem),
    EvolutionChain(i64, EvolutionNode),
    Nature(ParsedNature),
    Ability(ParsedAbility),
}

/// What became of an item.
#[derive(Debug, Clone, Copy, PartialEq, Eq, Structural)]
pub enum ItemResult {
    /// The item was worked through; `stored` says whether its record was
    /// fetched and handed to the cache, or given up.
    Completed { stored: bool },
    /// The cancellation token was found set before the item was worked
    /// through.
    Cancelled,
}

/// What the driver reports to the worker.
#[derive(Debug)]
pub enum WorkerEvent {
    /// The item is to be worked on.
    Start,
    /// One slice of a backoff wait has been slept.
    Slept,
    /// A permit of the concurrency limiter has been taken.
    PermitAcquired,
    /// The record that was asked for, or why it could not be had.
    Fetched(Result<Record, String>),
    /// The species that was asked for, or why it could not be had.
    FetchedSpecies(Result<ParsedSpecies, String>),
    /// The permit has been given back.
    PermitReleased,
    /// The record has been handed to the cache; a failure to store it is the
    /// driver's to log.
    Stored,
}

/// What the worker asks of its driver.
#[derive(Debug)]
pub enum WorkerAction {
    /// Sleep one slice, report `Slept`.
    Sleep,
    /// Take a permit of the concurrency limiter, waiting until one is free;
    /// report `PermitAcquired`.
    AcquirePermit,
    /// Fetch and parse the record `id` of the kind, once; report `Fetched`.
    Fetch { kind: ResourceKind, id: i64 },
    /// Fetch and parse the species at `url`, once; report `FetchedSpecies`.
    FetchSpecies { url: String },
    /// Give the permit back, report `PermitReleased`.
    ReleasePermit,
    /// Upsert the record into the cache, report `Stored`.
    Store(Record),
    /// Update the creature `pokemon_id` with its species, report `Stored`.
    StoreSpecies { pokemon_id: i64, species: ParsedSpecies },
    /// The work on the item has ended in this way; nothing is left to do.
    Finish(ItemResult),
    /// The event does not fit the state of the worker, which is unchanged.
    Unexpected,
}

/// Where a worker stands: what it waits for.
#[derive(Debug, Clone, Copy, PartialEq, Eq, Structural)]
pub enum WorkerStage {
    /// For `Start`.
    Idle,
    /// For a slice of a backoff wait to pass.
    Backoff,
    /// For a permit.
    Acquiring,
    /// For a record or a species, with a permit in hand.
    Fetching,
    /// For the permit to be given back.
    Releasing,
    /// For the cache to take a record or a species.
    Storing,
    /// For nothing: the work has ended.
    Finished,
}

/// The remote call that is being made, with its retries.
#[derive(Debug)]
pub enum Call {
    /// The record of the item.
    Detail,
    /// The species of the creature `pokemon_id`, at `url`.
    Species { pokemon_id: i64, url: String },
}

/// What a call returned while the permit is still to be given back.
#[derive(Debug)]
pub enum Held {
    Record(Result<Record, String>),
    Species(Result<ParsedSpecies, String>),
}

/// The species that is to be fetched after `record` has been stored: that of
/// a creature, at the address its record gives.
pub open spec fn species_after(record: Record) -> Option<(i64, String)> {
    match record {
        Record::Pokemon(p) => Some((p.id, p.species_url)),
        _ => None,
    }
}

/// The state of a worker.
pub struct WorkerState {
    pub kind: ResourceKind,
    /// The identifier of the item.
    pub id: i64,
    pub stage: WorkerStage,
    /// The retry executor of the call that is being made.
    pub retry: RetryState,
    pub call: Call,
    /// What the call returned, while the permit is being given back.
    pub held: Option<Held>,
    /// The species that is still to be fetched.
    pub species: Option<(i64, String)>,
    /// Whether the record of the item has been handed to the cache.
    pub stored: bool,
    /// What became of the item, once the work has ended.
    pub result: Option<ItemResult>,
}

impl WorkerState {
    /// The state of a worker for the item `id` of `kind` that has not been
    /// started.
    pub open spec fn initial(kind: ResourceKind, id: i64) -> WorkerState {
        WorkerState {
            kind,
            id,
            stage: WorkerStage::Idle,
            retry: RetryState::initial(ATTEMPTS_PER_CALL as nat),
            call: Call::Detail,
            held: None,
            species: None,
            stored: false,
            result: None,
        }
    }

    /// Whether a permit of the concurrency limiter is in hand.
    pub open spec fn holds_permit(self) -> bool {
        self.stage == WorkerStage::Fetching || self.stage == WorkerStage::Releasing
    }

    /// Ends the work with `result`.
    pub open spec fn finish(self, result: ItemResult) -> (WorkerState, WorkerAction) {
        (
            WorkerState { stage: WorkerStage::Finished, result: Some(result), held: None, ..self },
            WorkerAction::Finish(result),
        )
    }

    /// Makes an attempt of the call: a permit is waited for first.
    pub open spec fn invoke(self) -> (WorkerState, WorkerAction) {
        (WorkerState { stage: WorkerStage::Acquiring, ..self }, WorkerAction::AcquirePermit)
    }

    /// Begins `call`, with a fresh retry executor: the first attempt is made
    /// unless the token is set, which ends the work.
    pub open spec fn begin(self, cancelled: bool, call: Call) -> (WorkerState, WorkerAction) {
        let (retry, decision) = RetryState::initial(ATTEMPTS_PER_CALL as nat).next(
            cancelled,
            RetryEvent::Begin,
        );
        let begun = WorkerState { retry, call, held: None, ..self };
        match decision {
            RetryAction::Invoke => begun.invoke(),
            RetryAction::Fail(RetryError::Cancelled) => begun.finish(ItemResult::Cancelled),
            _ => (self, WorkerAction::Unexpected),
        }
    }

    /// Goes on after a slice of a backoff wait: another slice, the next
    /// attempt, or the end of the work when the token is set.
    pub open spec fn wake(self, cancelled: bool) -> (WorkerState, WorkerAction) {
        let (retry, decision) = self.retry.next(cancelled, RetryEvent::Slept);
        let woken = WorkerState { retry, ..self };
        match decision {
            RetryAction::Invoke => woken.invoke(),
            RetryAction::Sleep => (woken, WorkerAction::Sleep),
            RetryAction::Fail(RetryError::Cancelled) => woken.finish(ItemResult::Cancelled),
            _ => (self, WorkerAction::Unexpected),
        }
    }

    /// Goes on after an attempt of the call has failed with `error`: a
    /// backoff wait before the next attempt, or the end of the work. A
    /// cancellation ends it cancelled; a record that is given up is passed
    /// over; a species that is given up leaves the creature as it is stored.
    pub open spec fn attempt_failed(self, cancelled: bool, error: Seq<char>) -> (
        WorkerState,
        WorkerAction,
    ) {
        let (retry, decision) = self.retry.next(cancelled, RetryEvent::Failed(error));
        let failed = WorkerState { retry, held: None, ..self };
        match decision {
            RetryAction::Sleep => (
                WorkerState { stage: WorkerStage::Backoff, ..failed },
                WorkerAction::Sleep,
            ),
            RetryAction::Fail(RetryError::Cancelled) => failed.finish(ItemResult::Cancelled),
            RetryAction::Fail(RetryError::GaveUp(_)) => failed.finish(
                ItemResult::Completed { stored: self.stored },
            ),
            _ => (self, WorkerAction::Unexpected),
        }
    }

    /// The state after `event` and the action that the event leads to.
    pub open spec fn next(self, cancelled: bool, event: WorkerEvent) -> (
        WorkerState,
        WorkerAction,
    ) {
        match (self.stage, event) {
            (WorkerStage::Idle, WorkerEvent::Start) => self.begin(cancelled, Call::Detail),
            (WorkerStage::Backoff, WorkerEvent::Slept) => self.wake(cancelled),
            (WorkerStage::Acquiring, WorkerEvent::PermitAcquired) => match self.call {
                Call::Detail => (
                    WorkerState { stage: WorkerStage::Fetching, ..self },
                    WorkerAction::Fetch { kind: self.kind, id: self.id },
                ),
                Call::Species { pokemon_id, url } => (
                    WorkerState { stage: WorkerStage::Fetching, ..self },
                    WorkerAction::FetchSpecies { url },
                ),
            },
            (WorkerStage::Fetching, WorkerEvent::Fetched(result)) => match self.call {
                Call::Detail => (
                    WorkerState {
                        stage: WorkerStage::Releasing,
                        held: Some(Held::Record(result)),
                        ..self
                    },
                    WorkerAction::ReleasePermit,
                ),
                _ => (self, WorkerAction::Unexpected),
            },
            (WorkerStage::Fetching, WorkerEvent::FetchedSpecies(result)) => match self.call {
                Call::Species { .. } => (
                    WorkerState {
                        stage: WorkerStage::Releasing,
                        held: Some(Held::Species(result)),
                        ..self
                    },
                    WorkerAction::ReleasePermit,
                ),
                _ => (self, WorkerAction::Unexpected),
            },
            (WorkerStage::Releasing, WorkerEvent::PermitReleased) => match self.held {
                Some(Held::Record(Ok(record))) => (
                    WorkerState {
                        stage: WorkerStage::Storing,
                        retry: self.retry.finished(),
                        held: None,
                        species: species_after(record),
                        stored: true,
                        ..self
                    },
                    WorkerAction::Store(record),
                ),
                Some(Held::Species(Ok(species))) => match self.call {
                    Call::Species { pokemon_id, url } => (
                        WorkerState {
                            stage: WorkerStage::Storing,
                            retry: self.retry.finished(),
                            held: None,
                            species: None,
                            ..self
                        },
                        WorkerAction::StoreSpecies { pokemon_id, species },
                    ),
                    _ => (self, WorkerAction::Unexpected),
                },
                Some(Held::Record(Err(error))) => self.attempt_failed(cancelled, error@),
                Some(Held::Species(Err(error))) => self.attempt_failed(cancelled, error@),
                None => (self, WorkerAction::Unexpected),
            },
            (WorkerStage::Storing, WorkerEvent::Stored) => match self.species {
                Some((pokemon_id, url)) => WorkerState { species: None, ..self }.begin(
                    cancelled,
                    Call::Species { pokemon_id, url },
                ),
                None => self.finish(ItemResult::Completed { stored: true }),
            },
            _ => (self, WorkerAction::Unexpected),
        }
    }

    /// What holds of every state that a worker reaches.
    pub open spec fn inv(self) -> bool {
        &&& self.retry.inv()
        &&& self.retry.max_attempts == ATTEMPTS_PER_CALL
        &&& self.call is Species ==> self.stored && self.species is None
        &&& self.result is Some <==> self.stage == WorkerStage::Finished
        &&& self.result matches Some(ItemResult::Completed { stored }) ==> stored == self.stored
        &&& match self.stage {
            WorkerStage::Idle => self.retry.stage == RetryStage::Ready && self.call is Detail
                && !self.stored && self.species is None && self.held is None,
            WorkerStage::Backoff => self.retry.stage == RetryStage::Sleeping && self.held is None
                && (self.call is Detail ==> !self.stored && self.species is None),
            WorkerStage::Acquiring => self.retry.stage == RetryStage::Invoking && self.held is None
                && (self.call is Detail ==> !self.stored && self.species is None),
            WorkerStage::Fetching => self.retry.stage == RetryStage::Invoking && self.held is None
                && (self.call is Detail ==> !self.stored && self.species is None),
            WorkerStage::Releasing => self.retry.stage == RetryStage::Invoking && (self.call
                is Detail ==> !self.stored && self.species is None) && match self.held {
                Some(Held::Record(_)) => self.call is Detail,
                Some(Held::Species(_)) => self.call is Species,
                None => false,
            },
            WorkerStage::Storing => self.stored && (self.species is Some ==> self.call is Detail),
            WorkerStage::Finished => true,
        }
    }
}

/// Every step keeps the invariant.
pub proof fn lemma_worker_step_keeps_inv(state: WorkerState, cancelled: bool, event: WorkerEvent)
    requires
        state.inv(),
    ensures
        state.next(cancelled, event).0.inv(),
{
    match (state.stage, event) {
        (WorkerStage::Backoff, WorkerEvent::Slept) => {
            lemma_retry_step_keeps_inv(state.retry, cancelled, RetryEvent::Slept);
        },
        (WorkerStage::Releasing, WorkerEvent::PermitReleased) => {
            match state.held {
                Some(Held::Record(Err(error))) => {
                    lemma_retry_step_keeps_inv(state.retry, cancelled, RetryEvent::Failed(error@));
                },
                Some(Held::Species(Err(error))) => {
                    lemma_retry_step_keeps_inv(state.retry, cancelled, RetryEvent::Failed(error@));
                },
                _ => {},
            }
        },
        _ => {},
    }
}

/// A permit is taken for every attempt of a call and given back before
/// anything else happens. The worker comes to hold a permit only by being
/// granted one it asked for, and then fetches; while it holds one, the only
/// thing it asks for is to give it back, whatever the fetch returned; once
/// the permit is back it holds none; and it asks for a permit, or ends, only
/// with none in hand.
pub proof fn lemma_permits_are_paired(state: WorkerState, cancelled: bool, event: WorkerEvent)
    requires
        state.inv(),
    ensures
        ({
            let (after, action) = state.next(cancelled, event);
            &&& !state.holds_permit() && after.holds_permit() ==> state.stage
                == WorkerStage::Acquiring && event is PermitAcquired && (action is Fetch
                || action is FetchSpecies)
            &&& state.stage == WorkerStage::Fetching ==> (action is ReleasePermit && after.stage
                == WorkerStage::Releasing) || (action is Unexpected && after == state)
            &&& state.stage == WorkerStage::Releasing ==> (event is PermitReleased
                && !after.holds_permit()) || (action is Unexpected && after == state)
            &&& action is AcquirePermit ==> after.stage == WorkerStage::Acquiring
            &&& action is Finish ==> after.stage == WorkerStage::Finished
        }),
{
    lemma_worker_step_keeps_inv(state, cancelled, event);
}

/// What is handed to the cache was fetched: the worker asks to store a record
/// only when the fetch of the record of its item returned it, and says that
/// the item was stored only after it asked to store it.
pub proof fn lemma_stored_means_fetched(state: WorkerState, cancelled: bool, event: WorkerEvent)
    requires
        state.inv(),
    ensures
        ({
            let (after, action) = state.next(cancelled, event);
            &&& action matches WorkerAction::Store(record) ==> state.held == Some(
                Held::Record(Ok::<Record, String>(record)),
            ) && !state.stored && after.stored
            &&& after.stored && !state.stored ==> action is Store
            &&& state.stored ==> after.stored
            &&& action matches WorkerAction::Finish(ItemResult::Completed { stored }) ==> stored
                == after.stored
        }),
{
    lemma_worker_step_keeps_inv(state, cancelled, event);
}

/// The worker as it is held in memory.
struct WorkerCore {
    kind: ResourceKind,
    id: i64,
    stage: WorkerStage,
    retry: RetryExecutor,
    call: Call,
    held: Option<Held>,
    species: Option<(i64, String)>,
    stored: bool,
    result: Option<ItemResult>,
}

impl View for WorkerCore {
    type V = WorkerState;

    closed spec fn view(&self) -> WorkerState {
        WorkerState {
            kind: self.kind,
            id: self.id,
            stage: self.stage,
            retry: self.retry@,
            call: self.call,
            held: self.held,
            species: self.species,
            stored: self.stored,
            result: self.result,
        }
    }
}

impl WorkerCore {
    fn new(kind: ResourceKind, id: i64) -> (core: Self)
        ensures
            core@ == WorkerState::initial(kind, id),
            core@.inv(),
    {
        WorkerCore {
            kind,
            id,
            stage: WorkerStage::Idle,
            retry: RetryExecutor::new(ATTEMPTS_PER_CALL),
            call: Call::Detail,
            held: None,
            species: None,
            stored: false,
            result: None,
        }
    }

    fn finish(&mut self, result: ItemResult) -> (action: WorkerAction)
        ensures
            (final(self)@, action) == old(self)@.finish(result),
    {
        self.stage = WorkerStage::Finished;
        self.result = Some(result);
        self.held = None;
        WorkerAction::Finish(result)
    }

    fn begin(&mut self, cancelled: bool, call: Call) -> (action: WorkerAction)
        ensures
            (final(self)@, action) == old(self)@.begin(cancelled, call),
    {
        let mut retry = RetryExecutor::new(ATTEMPTS_PER_CALL);
        let decision = retry.step(cancelled, RetryEvent::Begin);
        match decision {
            RetryAction::Invoke => {
                self.retry = retry;
                self.call = call;
                self.held = None;
                self.stage = WorkerStage::Acquiring;
                WorkerAction::AcquirePermit
            },
            RetryAction::Fail(RetryError::Cancelled) => {
                self.retry = retry;
                self.call = call;
                self.held = None;
                self.finish(ItemResult::Cancelled)
            },
            _ => WorkerAction::Unexpected,
        }
    }

    fn wake(&mut self, cancelled: bool) -> (action: WorkerAction)
        ensures
            (final(self)@, action) == old(self)@.wake(cancelled),
    {
        let mut retry = self.retry;
        let decision = retry.step(cancelled, RetryEvent::Slept);
        match decision {
            RetryAction::Invoke => {
                self.retry = retry;
                self.stage = WorkerStage::Acquiring;
                WorkerAction::AcquirePermit
            },
            RetryAction::Sleep => {
                self.retry = retry;
                WorkerAction::Sleep
            },
            RetryAction::Fail(RetryError::Cancelled) => {
                self.retry = retry;
                self.finish(ItemResult::Cancelled)
            },
            _ => WorkerAction::Unexpected,
        }
    }

    fn attempt_failed(&mut self, cancelled: bool, error: String) -> (action: WorkerAction)
        ensures
            (final(self)@, action) == old(self)@.attempt_failed(cancelled, error@),
    {
        let mut retry = self.retry;
        let decision = retry.step(cancelled, RetryEvent::Failed(error));
        match decision {
            RetryAction::Sleep => {
                self.retry = retry;
                self.held = None;
                self.stage = WorkerStage::Backoff;
                WorkerAction::Sleep
            },
            RetryAction::Fail(RetryError::Cancelled) => {
                self.retry = retry;
                self.held = None;
                self.finish(ItemResult::Cancelled)
            },
            RetryAction::Fail(RetryError::GaveUp(_)) => {
                self.retry = retry;
                self.held = None;
                let stored = self.stored;
                self.finish(ItemResult::Completed { stored })
            },
            _ => WorkerAction::Unexpected,
        }
    }

    fn step(&mut self, cancelled: bool, event: WorkerEvent) -> (action: WorkerAction)
        requires
            old(self)@.inv(),
        ensures
            (final(self)@, action) == old(self)@.next(cancelled, event),
            final(self)@.inv(),
    {
        proof {
            lemma_worker_step_keeps_inv(self@, cancelled, event);
        }
        match (self.stage, event) {
            (WorkerStage::Idle, WorkerEvent::Start) => self.begin(cancelled, Call::Detail),
            (WorkerStage::Backoff, WorkerEvent::Slept) => self.wake(cancelled),
            (WorkerStage::Acquiring, WorkerEvent::PermitAcquired) => {
                let action = match &self.call {
                    Call::Detail => WorkerAction::Fetch { kind: self.kind, id: self.id },
                    Call::Species { pokemon_id, url } => WorkerAction::FetchSpecies {
                        url: url.clone(),
                    },
                };
                self.stage = WorkerStage::Fetching;
                action
            },
            (WorkerStage::Fetching, WorkerEvent::Fetched(result)) => {
                let detail = match &self.call {
                    Call::Detail => true,
                    _ => false,
                };
                if detail {
                    self.stage = WorkerStage::Releasing;
                    self.held = Some(Held::Record(result));
                    WorkerAction::ReleasePermit
                } else {
                    WorkerAction::Unexpected
                }
            },
            (WorkerStage::Fetching, WorkerEvent::FetchedSpecies(result)) => {
                let species = match &self.call {
                    Call::Species { .. } => true,
                    _ => false,
                };
                if species {
                    self.stage = WorkerStage::Releasing;
                    self.held = Some(Held::Species(result));
                    WorkerAction::ReleasePermit
                } else {
                    WorkerAction::Unexpected
                }
            },
            (WorkerStage::Releasing, WorkerEvent::PermitReleased) => {
                match self.held.take() {
                    Some(Held::Record(Ok(record))) => {
                        let mut retry = self.retry;
                        let decision = retry.step(cancelled, RetryEvent::Succeeded);
                        self.retry = retry;
                        self.species = match &record {
                            Record::Pokemon(p) => Some((p.id, p.species_url.clone())),
                            _ => None,
                        };
                        self.stored = true;
                        self.stage = WorkerStage::Storing;
                        WorkerAction::Store(record)
                    },
                    Some(Held::Species(Ok(species))) => {
                        let pokemon_id = match &self.call {
                            Call::Species { pokemon_id, url } => *pokemon_id,
                            _ => 0,
                        };
                        let mut retry = self.retry;
                        let decision = retry.step(cancelled, RetryEvent::Succeeded);
                        self.retry = retry;
                        self.species = None;
                        self.stage = WorkerStage::Storing;
                        WorkerAction::StoreSpecies { pokemon_id, species }
                    },
                    Some(Held::Record(Err(error))) => self.attempt_failed(cancelled, error),
                    Some(Held::Species(Err(error))) => self.attempt_failed(cancelled, error),
                    None => WorkerAction::Unexpected,
                }
            },
            (WorkerStage::Storing, WorkerEvent::Stored) => {
                match self.species.take() {
                    Some((pokemon_id, url)) => self.begin(
                        cancelled,
                        Call::Species { pokemon_id, url },
                    ),
                    None => self.finish(ItemResult::Completed { stored: true }),
                }
            },
            _ => WorkerAction::Unexpected,
        }
    }
}

/// The work on one listed item.
pub struct ItemWorker {
    core: WorkerCore,
}

impl View for ItemWorker {
    type V = WorkerState;

    closed spec fn view(&self) -> WorkerState {
        self.core@
    }
}

impl ItemWorker {
    #[verifier::type_invariant]
    spec fn well_formed(&self) -> bool {
        self.core@.inv()
    }

    /// A worker for the item `id` of `kind` that waits to be started.
    pub fn new(kind: ResourceKind, id: i64) -> (worker: Self)
        ensures
            worker@ == WorkerState::initial(kind, id),
            worker@.inv(),
    {
        ItemWorker { core: WorkerCore::new(kind, id) }
    }

    /// Takes in one event, with the current reading of the cancellation
    /// token, and says what the driver is to do next.
    pub fn step(&mut self, cancelled: bool, event: WorkerEvent) -> (action: WorkerAction)
        ensures
            (final(self)@, action) == old(self)@.next(cancelled, event),
            old(self)@.inv(),
            final(self)@.inv(),
    {
        proof {
            use_type_invariant(&*self);
        }
        // The state is taken out for the step and put back after it, so that
        // the worker is well formed at every moment.
        let mut core = WorkerCore::new(self.core.kind, self.core.id);
        core::mem::swap(&mut self.core, &mut core);
        let action = core.step(cancelled, event);
        self.core = core;
        action
    }

    /// The kind of the item.
    pub fn kind(&self) -> (kind: ResourceKind)
        ensures
            kind == self@.kind,
    {
        self.core.kind
    }

    /// The identifier of the item.
    pub fn id(&self) -> (id: i64)
        ensures
            id == self@.id,
    {
        self.core.id
    }

    /// What the worker waits for.
    pub fn stage(&self) -> (stage: WorkerStage)
        ensures
            stage == self@.stage,
    {
        self.core.stage
    }

    /// Whether a permit of the concurrency limiter is in hand.
    pub fn holds_permit(&self) -> (held: bool)
        ensures
            held == self@.holds_permit(),
    {
        self.core.stage == WorkerStage::Fetching || self.core.stage == WorkerStage::Releasing
    }
}

} // verus!
