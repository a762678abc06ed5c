//! The synchronization engine: the resource kinds in their fixed order of
//! phases, resumption after an earlier run, the cancellation check after
//! every phase, and the integrity validation at the end.
//!
//! The engine decides; its driver acts. The driver reads progress rows, runs
//! the pipelines of a phase side by side and waits for all of them, writes
//! rows and counts stored records, and reports to [`SyncEngine::step`]
//! together with the current reading of the cancellation token.

use crate::models::sync::{progress, StatusView, SyncResourceStatus};
use crate::sync::resource::{ResourceKind, ResourceStatus};
use crate::sync::validator::{falls_short, validate_resource, validated};
use crate::text::{chars_of, push_str, string_of};
use vstd::prelude::*;

verus! {

/// The number of phases before the validation.
pub const PHASES: usize = 5;

/// The number of resource kinds.
pub const KINDS: usize = 7;

/// How the pipeline of a resource ended, as the engine is told.
#[derive(Debug, PartialEq, Eq)]
pub enum RunResult {
    /// The pipeline ran to its end, done or cancelled.
    Completed,
    /// The listing could not be had; the text is the error.
    Failed(String),
    /// The task that ran the pipeline died.
    Panicked,
}

/// What the driver reports to the engine.
#[derive(Debug)]
pub enum EngineEvent {
    /// A full synchronization is to be run.
    Start,
    /// The state that is written down for the resource asked about; none
    /// where there is no row or it could not be read.
    StatusRead(Option<String>),
    /// Every pipeline of the phase has ended: the result of each that was
    /// run.
    Joined { first: Option<RunResult>, second: Option<RunResult> },
    /// The progress row has been written and mirrored to the observer.
    Persisted,
    /// Every row that was `syncing` has been marked `cancelled`.
    Marked,
    /// The number of records that the cache holds of the kind asked about,
    /// and the progress row of the kind, if there is one.
    Inspected { actual: i64, row: Option<SyncResourceStatus> },
}

/// What the engine asks of its driver.
#[derive(Debug)]
pub enum EngineAction<Row> {
    /// Read the state that is written down for the kind, report
    /// `StatusRead`.
    ReadStatus(ResourceKind),
    /// Run the pipelines of these kinds side by side, wait for all of them,
    /// report `Joined`.
    Run { first: Option<ResourceKind>, second: Option<ResourceKind> },
    /// Write this progress row, mirror it to the observer, report
    /// `Persisted`.
    Persist(Row),
    /// Mark every row that is `syncing` as `cancelled`, report `Marked`.
    MarkCancelled,
    /// Count the stored records of the kind and read its progress row,
    /// report `Inspected`.
    Inspect(ResourceKind),
    /// The synchronization has ended; nothing is left to do.
    Finish,
    /// The event does not fit the state of the engine, which is unchanged.
    Unexpected,
}

/// Where the engine stands: what it waits for.
#[derive(Debug, Clone, Copy, PartialEq, Eq, Structural)]
pub enum EngineStage {
    /// For `Start`.
    Idle,
    /// For the state of the first kind of the phase.
    CheckingFirst,
    /// For the state of the second kind of the phase.
    CheckingSecond,
    /// For the pipelines of the phase to end.
    Running,
    /// For the error row of the first kind to be written.
    MarkingFirst,
    /// For the error row of the second kind to be written.
    MarkingSecond,
    /// For the rows that were `syncing` to be marked `cancelled`.
    Settling,
    /// For the count and the row of a kind.
    Validating,
    /// For the row of a downgraded kind to be written.
    Downgrading,
    /// For nothing: the synchronization has ended.
    Finished,
}

/// The kind that a phase synchronizes, or the first of its two kinds.
pub open spec fn phase_first(phase: int) -> ResourceKind {
    if phase == 0 {
        ResourceKind::Types
    } else if phase == 1 {
        ResourceKind::Moves
    } else if phase == 2 {
        ResourceKind::Pokemon
    } else if phase == 3 {
        ResourceKind::EvolutionChains
    } else {
        ResourceKind::Natures
    }
}

/// The kind that a phase synchronizes side by side with its first, if it has
/// two.
pub open spec fn phase_second(phase: int) -> Option<ResourceKind> {
    if phase == 2 {
        Some(ResourceKind::Items)
    } else if phase == 4 {
        Some(ResourceKind::Abilities)
    } else {
        None
    }
}

/// The phase in which a kind is synchronized.
pub open spec fn phase_of(kind: ResourceKind) -> int {
    match kind {
        ResourceKind::Types => 0,
        ResourceKind::Moves => 1,
        ResourceKind::Pokemon => 2,
        ResourceKind::Items => 2,
        ResourceKind::EvolutionChains => 3,
        ResourceKind::Natures => 4,
        ResourceKind::Abilities => 4,
    }
}

/// The kind at a position of the order in which the validation goes through
/// the kinds.
pub open spec fn kind_at(index: int) -> ResourceKind {
    if index == 0 {
        ResourceKind::Types
    } else if index == 1 {
        ResourceKind::Moves
    } else if index == 2 {
        ResourceKind::Pokemon
    } else if index == 3 {
        ResourceKind::Items
    } else if index == 4 {
        ResourceKind::EvolutionChains
    } else if index == 5 {
        ResourceKind::Natures
    } else {
        ResourceKind::Abilities
    }
}

/// Whether the state that is written down says that the resource is done.
pub open spec fn is_done(word: Option<String>) -> bool {
    match word {
        Some(w) => w@ == ResourceStatus::Done.name_spec(),
        None => false,
    }
}

/// The name of a kind at the beginning of a sentence.
pub open spec fn label(kind: ResourceKind) -> Seq<char> {
    match kind {
        ResourceKind::Types => "Types"@,
        ResourceKind::Moves => "Moves"@,
        ResourceKind::Pokemon => "Pokemon"@,
        ResourceKind::Items => "Items"@,
        ResourceKind::EvolutionChains => "Evolution chains"@,
        ResourceKind::Natures => "Natures"@,
        ResourceKind::Abilities => "Abilities"@,
    }
}

/// The error that is written down for a kind whose task died.
pub open spec fn panic_message(kind: ResourceKind) -> Seq<char> {
    label(kind) + " sync task panicked"@
}

/// The error that a result stands for, if it stands for one.
pub open spec fn run_error(kind: ResourceKind, result: Option<RunResult>) -> Option<Seq<char>> {
    match result {
        Some(RunResult::Failed(error)) => Some(error@),
        Some(RunResult::Panicked) => Some(panic_message(kind)),
        _ => None,
    }
}

/// The row that is written for a kind that failed with `error`.
pub open spec fn error_row(kind: ResourceKind, error: Seq<char>) -> StatusView {
    progress(kind, 0, 0, ResourceStatus::Error, Some(error))
}

/// The state of the engine.
pub struct EngineState {
    pub stage: EngineStage,
    /// The phase that is being worked on.
    pub phase: int,
    /// Whether the first kind of the phase was found done.
    pub first_done: bool,
    /// Whether the second kind of the phase was found done.
    pub second_done: bool,
    /// The result of the second pipeline, while the first is seen to.
    pub held: Option<RunResult>,
    /// The position of the kind that is being validated.
    pub checking: int,
    /// The kinds that were found done.
    pub found_done: Set<ResourceKind>,
    /// The kinds whose pipeline was run.
    pub ran: Set<ResourceKind>,
    /// The number of kinds that have been validated.
    pub inspected: int,
    /// Whether the cancellation token has been found set.
    pub cancel_seen: bool,
}

impl EngineState {
    /// The state of an engine that has not been started.
    pub open spec fn initial() -> EngineState {
        EngineState {
            stage: EngineStage::Idle,
            phase: 0,
            first_done: false,
            second_done: false,
            held: None,
            checking: 0,
            found_done: Set::empty(),
            ran: Set::empty(),
            inspected: 0,
            cancel_seen: false,
        }
    }

    /// Whether the second pipeline of the phase is to be run.
    pub open spec fn second_pending(self) -> bool {
        phase_second(self.phase) is Some && !self.second_done
    }

    /// Turns to `phase`: the state of its first kind is read.
    pub open spec fn begin_phase(self, phase: int) -> (EngineState, EngineAction<StatusView>) {
        (
            EngineState {
                stage: EngineStage::CheckingFirst,
                phase,
                first_done: false,
                second_done: false,
                held: None,
                ..self
            },
            EngineAction::ReadStatus(phase_first(phase)),
        )
    }

    /// Runs the pipelines of the phase that are not done; where all are done
    /// the phase is over at once.
    pub open spec fn launch(self, cancelled: bool) -> (EngineState, EngineAction<StatusView>) {
        if !self.first_done || self.second_pending() {
            let first = if self.first_done {
                None
            } else {
                Some(phase_first(self.phase))
            };
            let second = if self.second_pending() {
                phase_second(self.phase)
            } else {
                None
            };
            (
                EngineState {
                    stage: EngineStage::Running,
                    ran: self.ran + optional(first) + optional(second),
                    ..self
                },
                EngineAction::Run { first, second },
            )
        } else {
            self.after_phase(cancelled)
        }
    }

    /// Goes on after a phase: the token is read; when it is set, what is
    /// still `syncing` is marked `cancelled` and the engine ends without
    /// another phase and without validation; otherwise the next phase begins,
    /// or the validation after the last one.
    pub open spec fn after_phase(self, cancelled: bool) -> (
        EngineState,
        EngineAction<StatusView>,
    ) {
        if cancelled {
            (
                EngineState { stage: EngineStage::Settling, cancel_seen: true, held: None, ..self },
                EngineAction::MarkCancelled,
            )
        } else if self.phase + 1 < PHASES {
            self.begin_phase(self.phase + 1)
        } else {
            EngineState { held: None, ..self }.inspect(0)
        }
    }

    /// Sees to the result of the second pipeline: its error is written down.
    pub open spec fn settle_second(self, cancelled: bool) -> (
        EngineState,
        EngineAction<StatusView>,
    ) {
        match phase_second(self.phase) {
            Some(kind) => match run_error(kind, self.held) {
                Some(error) => (
                    EngineState { stage: EngineStage::MarkingSecond, held: None, ..self },
                    EngineAction::Persist(error_row(kind, error)),
                ),
                None => self.after_phase(cancelled),
            },
            None => self.after_phase(cancelled),
        }
    }

    /// Validates the kind at `index`, or ends the engine when every kind has
    /// been validated.
    pub open spec fn inspect(self, index: int) -> (EngineState, EngineAction<StatusView>) {
        if index < KINDS {
            (
                EngineState { stage: EngineStage::Validating, checking: index, ..self },
                EngineAction::Inspect(kind_at(index)),
            )
        } else {
            (
                EngineState { stage: EngineStage::Finished, checking: index, ..self },
                EngineAction::Finish,
            )
        }
    }

    /// The state after `event` and the action that the event leads to.
    pub open spec fn next(self, cancelled: bool, event: EngineEvent) -> (
        EngineState,
        EngineAction<StatusView>,
    ) {
        match (self.stage, event) {
            (EngineStage::Idle, EngineEvent::Start) => self.begin_phase(0),
            (EngineStage::CheckingFirst, EngineEvent::StatusRead(word)) => {
                let checked = EngineState {
                    first_done: is_done(word),
                    found_done: if is_done(word) {
                        self.found_done.insert(phase_first(self.phase))
                    } else {
                        self.found_done
                    },
                    ..self
                };
                match phase_second(self.phase) {
                    Some(second) => (
                        EngineState { stage: EngineStage::CheckingSecond, ..checked },
                        EngineAction::ReadStatus(second),
                    ),
                    None => checked.launch(cancelled),
                }
            },
            (EngineStage::CheckingSecond, EngineEvent::StatusRead(word)) => match phase_second(
                self.phase,
            ) {
                Some(second) => EngineState {
                    second_done: is_done(word),
                    found_done: if is_done(word) {
                        self.found_done.insert(second)
                    } else {
                        self.found_done
                    },
                    ..self
                }.launch(cancelled),
                None => (self, EngineAction::Unexpected),
            },
            (EngineStage::Running, EngineEvent::Joined { first, second }) => {
                if (first is Some) == self.first_done || (second is Some)
                    != self.second_pending() {
                    (self, EngineAction::Unexpected)
                } else {
                    match run_error(phase_first(self.phase), first) {
                        Some(error) => (
                            EngineState {
                                stage: EngineStage::MarkingFirst,
                                held: second,
                                ..self
                            },
                            EngineAction::Persist(error_row(phase_first(self.phase), error)),
                        ),
                        None => EngineState { held: second, ..self }.settle_second(cancelled),
                    }
                }
            },
            (EngineStage::MarkingFirst, EngineEvent::Persisted) => self.settle_second(cancelled),
            (EngineStage::MarkingSecond, EngineEvent::Persisted) => self.after_phase(cancelled),
            (EngineStage::Settling, EngineEvent::Marked) => (
                EngineState { stage: EngineStage::Finished, ..self },
                EngineAction::Finish,
            ),
            (EngineStage::Validating, EngineEvent::Inspected { actual, row }) => {
                let counted = EngineState { inspected: self.inspected + 1, ..self };
                match row {
                    Some(r) => if falls_short(r@, actual as int) {
                        (
                            EngineState { stage: EngineStage::Downgrading, ..counted },
                            EngineAction::Persist(validated(r@, actual as int)),
                        )
                    } else {
                        counted.inspect(self.checking + 1)
                    },
                    None => counted.inspect(self.checking + 1),
                }
            },
            (EngineStage::Downgrading, EngineEvent::Persisted) => self.inspect(self.checking + 1),
            _ => (self, EngineAction::Unexpected),
        }
    }

    /// What holds of every state that an engine reaches.
    pub open spec fn inv(self) -> bool {
        &&& 0 <= self.phase < PHASES
        &&& 0 <= self.checking <= KINDS
        &&& 0 <= self.inspected <= KINDS
        &&& self.found_done.disjoint(self.ran)
        &&& forall|kind: ResourceKind|
            self.found_done.contains(kind) || self.ran.contains(kind) ==> phase_of(kind)
                <= self.phase
        &&& forall|kind: ResourceKind|
            phase_of(kind) < self.settled() ==> self.found_done.contains(kind)
                || self.ran.contains(kind)
        &&& self.first_done ==> self.found_done.contains(phase_first(self.phase))
        &&& self.second_done ==> phase_second(self.phase) is Some && self.found_done.contains(
            phase_second(self.phase)->0,
        )
        &&& match self.stage {
            EngineStage::Idle => self.phase == 0 && self.found_done == Set::<ResourceKind>::empty()
                && self.ran == Set::<ResourceKind>::empty() && !self.first_done
                && !self.second_done,
            EngineStage::CheckingFirst => !self.first_done && !self.second_done
                && !self.found_done.contains(phase_first(self.phase)) && !self.ran.contains(
                phase_first(self.phase),
            ) && (phase_second(self.phase) is Some ==> !self.found_done.contains(
                phase_second(self.phase)->0,
            ) && !self.ran.contains(phase_second(self.phase)->0)),
            EngineStage::CheckingSecond => phase_second(self.phase) is Some && !self.second_done
                && !self.ran.contains(phase_first(self.phase)) && !self.found_done.contains(
                phase_second(self.phase)->0,
            ) && !self.ran.contains(phase_second(self.phase)->0) && (self.first_done
                || !self.found_done.contains(phase_first(self.phase))),
            EngineStage::Validating => self.checking < KINDS && self.inspected == self.checking,
            EngineStage::Downgrading => self.checking < KINDS && self.inspected == self.checking
                + 1,
            EngineStage::Finished => self.cancel_seen || self.inspected == KINDS,
            _ => true,
        }
        &&& self.cancel_seen <==> self.stage == EngineStage::Settling || (self.stage
            == EngineStage::Finished && self.inspected < KINDS)
        &&& self.inspected > 0 ==> self.validating()
        &&& self.validating() ==> self.phase + 1 == PHASES
    }

    /// Whether the engine has come to the validation.
    pub open spec fn validating(self) -> bool {
        self.stage == EngineStage::Validating || self.stage == EngineStage::Downgrading || (
        self.stage == EngineStage::Finished && !self.cancel_seen)
    }

    /// The number of phases whose kinds have all been found done or run.
    pub open spec fn settled(self) -> int {
        match self.stage {
            EngineStage::Idle => 0,
            EngineStage::CheckingFirst => self.phase,
            EngineStage::CheckingSecond => self.phase,
            _ => self.phase + 1,
        }
    }
}

/// The set of the kind, or the empty set.
pub open spec fn optional(kind: Option<ResourceKind>) -> Set<ResourceKind> {
    match kind {
        Some(k) => set![k],
        None => Set::empty(),
    }
}

proof fn lemma_after_phase_keeps_inv(state: EngineState, cancelled: bool)
    requires
        state.inv(),
        state.stage == EngineStage::Running || state.stage == EngineStage::MarkingFirst
            || state.stage == EngineStage::MarkingSecond,
    ensures
        state.after_phase(cancelled).0.inv(),
{
    if !cancelled && state.phase + 1 < PHASES {
        let after = state.begin_phase(state.phase + 1).0;
        assert(after.inv());
    }
}

proof fn lemma_launch_keeps_inv(state: EngineState, cancelled: bool)
    requires
        0 <= state.phase < PHASES,
        0 <= state.checking <= KINDS,
        state.inspected == 0,
        !state.cancel_seen,
        state.found_done.disjoint(state.ran),
        forall|kind: ResourceKind|
            state.found_done.contains(kind) || state.ran.contains(kind) ==> phase_of(kind)
                <= state.phase,
        forall|kind: ResourceKind|
            phase_of(kind) < state.phase ==> state.found_done.contains(kind)
                || state.ran.contains(kind),
        state.first_done <==> state.found_done.contains(phase_first(state.phase)),
        state.second_done <==> phase_second(state.phase) is Some && state.found_done.contains(
            phase_second(state.phase)->0,
        ),
        !state.ran.contains(phase_first(state.phase)),
        phase_second(state.phase) is Some ==> !state.ran.contains(phase_second(state.phase)->0),
    ensures
        state.launch(cancelled).0.inv(),
{
    if !state.first_done || state.second_pending() {
        let after = state.launch(cancelled).0;
        assert forall|kind: ResourceKind| phase_of(kind) < after.settled() implies (
        after.found_done.contains(kind) || after.ran.contains(kind)) by {
            if phase_of(kind) == state.phase {
                if kind == phase_first(state.phase) {
                } else {
                    assert(phase_second(state.phase) == Some(kind));
                }
            }
        }
        assert(after.inv());
    } else {
        let running = EngineState { stage: EngineStage::Running, ..state };
        assert forall|kind: ResourceKind| phase_of(kind) < running.settled() implies (
        running.found_done.contains(kind) || running.ran.contains(kind)) by {
            if phase_of(kind) == state.phase {
                if kind == phase_first(state.phase) {
                } else {
                    assert(phase_second(state.phase) == Some(kind));
                }
            }
        }
        assert(running.inv());
        lemma_after_phase_keeps_inv(running, cancelled);
        assert(running.after_phase(cancelled) == state.after_phase(cancelled));
    }
}

/// Every step keeps the invariant.
pub proof fn lemma_engine_step_keeps_inv(state: EngineState, cancelled: bool, event: EngineEvent)
    requires
        state.inv(),
    ensures
        state.next(cancelled, event).0.inv(),
{
    match (state.stage, event) {
        (EngineStage::Idle, EngineEvent::Start) => {},
        (EngineStage::CheckingFirst, EngineEvent::StatusRead(word)) => {
            let checked = EngineState {
                first_done: is_done(word),
                found_done: if is_done(word) {
                    state.found_done.insert(phase_first(state.phase))
                } else {
                    state.found_done
                },
                ..state
            };
            if phase_second(state.phase) is None {
                lemma_launch_keeps_inv(checked, cancelled);
            }
        },
        (EngineStage::CheckingSecond, EngineEvent::StatusRead(word)) => {
            match phase_second(state.phase) {
                Some(second) => {
                    let checked = EngineState {
                        second_done: is_done(word),
                        found_done: if is_done(word) {
                            state.found_done.insert(second)
                        } else {
                            state.found_done
                        },
                        ..state
                    };
                    lemma_launch_keeps_inv(checked, cancelled);
                },
                None => {},
            }
        },
        (EngineStage::Running, EngineEvent::Joined { first, second }) => {
            let joined = EngineState { held: second, ..state };
            lemma_after_phase_keeps_inv(joined, cancelled);
        },
        (EngineStage::MarkingFirst, EngineEvent::Persisted) => {
            lemma_after_phase_keeps_inv(state, cancelled);
        },
        (EngineStage::MarkingSecond, EngineEvent::Persisted) => {
            lemma_after_phase_keeps_inv(state, cancelled);
        },
        _ => {},
    }
}

impl View for EngineAction<SyncResourceStatus> {
    type V = EngineAction<StatusView>;

    open spec fn view(&self) -> EngineAction<StatusView> {
        match *self {
            EngineAction::ReadStatus(kind) => EngineAction::ReadStatus(kind),
            EngineAction::Run { first, second } => EngineAction::Run { first, second },
            EngineAction::Persist(row) => EngineAction::Persist(row@),
            EngineAction::MarkCancelled => EngineAction::MarkCancelled,
            EngineAction::Inspect(kind) => EngineAction::Inspect(kind),
            EngineAction::Finish => EngineAction::Finish,
            EngineAction::Unexpected => EngineAction::Unexpected,
        }
    }
}

impl ResourceKind {
    /// The name of this kind at the beginning of a sentence.
    pub fn label(self) -> (text: &'static str)
        ensures
            text@ == label(self),
    {
        match self {
            ResourceKind::Types => "Types",
            ResourceKind::Moves => "Moves",
            ResourceKind::Pokemon => "Pokemon",
            ResourceKind::Items => "Items",
            ResourceKind::EvolutionChains => "Evolution chains",
            ResourceKind::Natures => "Natures",
            ResourceKind::Abilities => "Abilities",
        }
    }
}

/// Whether the state that is written down says that the resource is done.
pub fn is_resource_done(word: &Option<String>) -> (done: bool)
    ensures
        done == is_done(*word),
{
    match word {
        Some(w) => ResourceStatus::Done.is_named(w.as_str()),
        None => false,
    }
}

fn first_of(phase: usize) -> (kind: ResourceKind)
    ensures
        kind == phase_first(phase as int),
{
    if phase == 0 {
        ResourceKind::Types
    } else if phase == 1 {
        ResourceKind::Moves
    } else if phase == 2 {
        ResourceKind::Pokemon
    } else if phase == 3 {
        ResourceKind::EvolutionChains
    } else {
        ResourceKind::Natures
    }
}

fn second_of(phase: usize) -> (kind: Option<ResourceKind>)
    ensures
        kind == phase_second(phase as int),
{
    if phase == 2 {
        Some(ResourceKind::Items)
    } else if phase == 4 {
        Some(ResourceKind::Abilities)
    } else {
        None
    }
}

fn kind_number(index: usize) -> (kind: ResourceKind)
    ensures
        kind == kind_at(index as int),
{
    if index == 0 {
        ResourceKind::Types
    } else if index == 1 {
        ResourceKind::Moves
    } else if index == 2 {
        ResourceKind::Pokemon
    } else if index == 3 {
        ResourceKind::Items
    } else if index == 4 {
        ResourceKind::EvolutionChains
    } else if index == 5 {
        ResourceKind::Natures
    } else {
        ResourceKind::Abilities
    }
}

fn error_of(kind: ResourceKind, result: Option<RunResult>) -> (error: Option<String>)
    ensures
        crate::text::text_of(error) == run_error(kind, result),
{
    match result {
        Some(RunResult::Failed(error)) => Some(error),
        Some(RunResult::Panicked) => {
            let mut text = chars_of(kind.label());
            push_str(&mut text, " sync task panicked");
            Some(string_of(&text))
        },
        _ => None,
    }
}

/// The engine as it is held in memory.
struct EngineCore {
    stage: EngineStage,
    phase: usize,
    first_done: bool,
    second_done: bool,
    held: Option<RunResult>,
    checking: usize,
    found_done: Ghost<Set<ResourceKind>>,
    ran: Ghost<Set<ResourceKind>>,
    inspected: Ghost<int>,
    cancel_seen: Ghost<bool>,
}

impl View for EngineCore {
    type V = EngineState;

    closed spec fn view(&self) -> EngineState {
        EngineState {
            stage: self.stage,
            phase: self.phase as int,
            first_done: self.first_done,
            second_done: self.second_done,
            held: self.held,
            checking: self.checking as int,
            found_done: self.found_done@,
            ran: self.ran@,
            inspected: self.inspected@,
            cancel_seen: self.cancel_seen@,
        }
    }
}

impl EngineCore {
    fn new() -> (core: Self)
        ensures
            core@ == EngineState::initial(),
            core@.inv(),
    {
        EngineCore {
            stage: EngineStage::Idle,
            phase: 0,
            first_done: false,
            second_done: false,
            held: None,
            checking: 0,
            found_done: Ghost(Set::empty()),
            ran: Ghost(Set::empty()),
            inspected: Ghost(0),
            cancel_seen: Ghost(false),
        }
    }

    fn begin_phase(&mut self, phase: usize) -> (action: EngineAction<SyncResourceStatus>)
        ensures
            (final(self)@, action@) == old(self)@.begin_phase(phase as int),
    {
        self.stage = EngineStage::CheckingFirst;
        self.phase = phase;
        self.first_done = false;
        self.second_done = false;
        self.held = None;
        EngineAction::ReadStatus(first_of(phase))
    }

    fn inspect(&mut self, index: usize) -> (action: EngineAction<SyncResourceStatus>)
        ensures
            (final(self)@, action@) == old(self)@.inspect(index as int),
    {
        self.checking = index;
        if index < KINDS {
            self.stage = EngineStage::Validating;
            EngineAction::Inspect(kind_number(index))
        } else {
            self.stage = EngineStage::Finished;
            EngineAction::Finish
        }
    }

    fn after_phase(&mut self, cancelled: bool) -> (action: EngineAction<SyncResourceStatus>)
        requires
            old(self).phase < PHASES,
        ensures
            (final(self)@, action@) == old(self)@.after_phase(cancelled),
    {
        if cancelled {
            self.stage = EngineStage::Settling;
            self.held = None;
            proof {
                self.cancel_seen@ = true;
            }
            EngineAction::MarkCancelled
        } else if self.phase + 1 < PHASES {
            self.begin_phase(self.phase + 1)
        } else {
            self.held = None;
            self.inspect(0)
        }
    }

    fn launch(&mut self, cancelled: bool) -> (action: EngineAction<SyncResourceStatus>)
        requires
            old(self).phase < PHASES,
        ensures
            (final(self)@, action@) == old(self)@.launch(cancelled),
    {
        let second_kind = second_of(self.phase);
        let second_pending = second_kind.is_some() && !self.second_done;
        if !self.first_done || second_pending {
            let first = if self.first_done {
                None
            } else {
                Some(first_of(self.phase))
            };
            let second = if second_pending {
                second_kind
            } else {
                None
            };
            self.stage = EngineStage::Running;
            proof {
                self.ran@ = self.ran@ + optional(first) + optional(second);
            }
            EngineAction::Run { first, second }
        } else {
            self.after_phase(cancelled)
        }
    }

    fn settle_second(&mut self, cancelled: bool) -> (action: EngineAction<SyncResourceStatus>)
        requires
            old(self).phase < PHASES,
        ensures
            (final(self)@, action@) == old(self)@.settle_second(cancelled),
    {
        match second_of(self.phase) {
            Some(kind) => {
                let held = self.held.take();
                let ghost result = held;
                match error_of(kind, held) {
                    Some(error) => {
                        self.stage = EngineStage::MarkingSecond;
                        EngineAction::Persist(
                            SyncResourceStatus::new(kind, 0, 0, ResourceStatus::Error, Some(error)),
                        )
                    },
                    None => {
                        proof {
                            assert(EngineState { held: None, ..old(self)@ }.after_phase(cancelled)
                                == old(self)@.after_phase(cancelled));
                        }
                        self.after_phase(cancelled)
                    },
                }
            },
            None => self.after_phase(cancelled),
        }
    }

    fn step(&mut self, cancelled: bool, event: EngineEvent) -> (action: EngineAction<
        SyncResourceStatus,
    >)
        requires
            old(self)@.inv(),
        ensures
            (final(self)@, action@) == old(self)@.next(cancelled, event),
            final(self)@.inv(),
    {
        proof {
            lemma_engine_step_keeps_inv(self@, cancelled, event);
        }
        match (self.stage, event) {
            (EngineStage::Idle, EngineEvent::Start) => self.begin_phase(0),
            (EngineStage::CheckingFirst, EngineEvent::StatusRead(word)) => {
                let done = is_resource_done(&word);
                self.first_done = done;
                proof {
                    if done {
                        self.found_done@ = self.found_done@.insert(phase_first(self.phase as int));
                    }
                }
                match second_of(self.phase) {
                    Some(second) => {
                        self.stage = EngineStage::CheckingSecond;
                        EngineAction::ReadStatus(second)
                    },
                    None => self.launch(cancelled),
                }
            },
            (EngineStage::CheckingSecond, EngineEvent::StatusRead(word)) => {
                match second_of(self.phase) {
                    Some(second) => {
                        let done = is_resource_done(&word);
                        self.second_done = done;
                        proof {
                            if done {
                                self.found_done@ = self.found_done@.insert(second);
                            }
                        }
                        self.launch(cancelled)
                    },
                    None => EngineAction::Unexpected,
                }
            },
            (EngineStage::Running, EngineEvent::Joined { first, second }) => {
                let second_pending = second_of(self.phase).is_some() && !self.second_done;
                if first.is_some() == self.first_done || second.is_some() != second_pending {
                    EngineAction::Unexpected
                } else {
                    let kind = first_of(self.phase);
                    match error_of(kind, first) {
                        Some(error) => {
                            self.stage = EngineStage::MarkingFirst;
                            self.held = second;
                            EngineAction::Persist(
                                SyncResourceStatus::new(
                                    kind,
                                    0,
                                    0,
                                    ResourceStatus::Error,
                                    Some(error),
                                ),
                            )
                        },
                        None => {
                            self.held = second;
                            self.settle_second(cancelled)
                        },
                    }
                }
            },
            (EngineStage::MarkingFirst, EngineEvent::Persisted) => self.settle_second(cancelled),
            (EngineStage::MarkingSecond, EngineEvent::Persisted) => self.after_phase(cancelled),
            (EngineStage::Settling, EngineEvent::Marked) => {
                self.stage = EngineStage::Finished;
                EngineAction::Finish
            },
            (EngineStage::Validating, EngineEvent::Inspected { actual, row }) => {
                proof {
                    self.inspected@ = self.inspected@ + 1;
                }
                let downgraded = match &row {
                    Some(r) => validate_resource(r, actual),
                    None => None,
                };
                match downgraded {
                    Some(new_row) => {
                        self.stage = EngineStage::Downgrading;
                        EngineAction::Persist(new_row)
                    },
                    None => self.inspect(self.checking + 1),
                }
            },
            (EngineStage::Downgrading, EngineEvent::Persisted) => self.inspect(self.checking + 1),
            _ => EngineAction::Unexpected,
        }
    }
}

/// The synchronization engine.
pub struct SyncEngine {
    core: EngineCore,
}

impl View for SyncEngine {
    type V = EngineState;

    closed spec fn view(&self) -> EngineState {
        self.core@
    }
}

impl SyncEngine {
    #[verifier::type_invariant]
    spec fn well_formed(&self) -> bool {
        self.core@.inv()
    }

    /// An engine that waits to be started.
    pub fn new() -> (engine: Self)
        ensures
            engine@ == EngineState::initial(),
            engine@.inv(),
    {
        SyncEngine { core: EngineCore::new() }
    }

    /// Takes in one event, with the current reading of the cancellation
    /// token, and says what the driver is to do next.
    pub fn step(&mut self, cancelled: bool, event: EngineEvent) -> (action: EngineAction<
        SyncResourceStatus,
    >)
        ensures
            (final(self)@, action@) == old(self)@.next(cancelled, event),
            old(self)@.inv(),
            final(self)@.inv(),
    {
        proof {
            use_type_invariant(&*self);
        }
        // The state is taken out for the step and put back after it, so that
        // the engine is well formed at every moment.
        let mut core = EngineCore::new();
        core::mem::swap(&mut self.core, &mut core);
        let action = core.step(cancelled, event);
        self.core = core;
        action
    }

    /// What the engine waits for.
    pub fn stage(&self) -> (stage: EngineStage)
        ensures
            stage == self@.stage,
    {
        self.core.stage
    }
}

/// Resuming does not fetch again: a kind that was found done is never run.
/// The pipelines that a step runs are those of kinds that were read as not
/// done in this run, and nothing else is ever run.
pub proof fn lemma_done_is_not_rerun(state: EngineState, cancelled: bool, event: EngineEvent)
    requires
        state.inv(),
    ensures
        state.found_done.disjoint(state.ran),
        ({
            let (after, action) = state.next(cancelled, event);
            &&& after.found_done.disjoint(after.ran)
            &&& state.found_done.subset_of(after.found_done)
            &&& match action {
                EngineAction::Run { first, second } => after.ran == state.ran + optional(first)
                    + optional(second) && optional(first).disjoint(after.found_done)
                    && optional(second).disjoint(after.found_done),
                _ => after.ran == state.ran,
            }
        }),
{
    lemma_engine_step_keeps_inv(state, cancelled, event);
    let (after, action) = state.next(cancelled, event);
    match (state.stage, event) {
        (EngineStage::CheckingFirst, EngineEvent::StatusRead(word)) => {
            let checked = EngineState {
                first_done: is_done(word),
                found_done: if is_done(word) {
                    state.found_done.insert(phase_first(state.phase))
                } else {
                    state.found_done
                },
                ..state
            };
            assert(state.found_done.subset_of(checked.found_done));
        },
        (EngineStage::CheckingSecond, EngineEvent::StatusRead(word)) => {},
        _ => {},
    }
}

/// A kind whose row says `done` when the engine asks about it is found done,
/// and therefore never run.
pub proof fn lemma_done_is_recorded(state: EngineState, cancelled: bool, word: Option<String>)
    requires
        state.inv(),
        is_done(word),
        state.stage == EngineStage::CheckingFirst || state.stage == EngineStage::CheckingSecond,
    ensures
        ({
            let after = state.next(cancelled, EngineEvent::StatusRead(word)).0;
            let asked = if state.stage == EngineStage::CheckingFirst {
                phase_first(state.phase)
            } else {
                phase_second(state.phase)->0
            };
            after.found_done.contains(asked) && !after.ran.contains(asked)
        }),
{
    lemma_engine_step_keeps_inv(state, cancelled, EngineEvent::StatusRead(word));
}

/// A full synchronization leaves no kind out: when the engine has ended and
/// the token was never found set, every kind was found done or run, in the
/// order of the phases, and every kind was validated.
pub proof fn lemma_full_sync_covers_every_kind(state: EngineState, kind: ResourceKind)
    requires
        state.inv(),
        state.stage == EngineStage::Finished,
        !state.cancel_seen,
    ensures
        state.found_done.contains(kind) || state.ran.contains(kind),
        state.inspected == KINDS,
{
    assert(phase_of(kind) < state.settled());
}

/// A cancellation that is found after a phase ends the engine without
/// another phase and without validation.
pub proof fn lemma_cancellation_skips_the_rest(state: EngineState, kind: ResourceKind)
    requires
        state.inv(),
        state.stage == EngineStage::Finished,
        state.cancel_seen,
    ensures
        state.inspected == 0,
        phase_of(kind) > state.phase ==> !state.found_done.contains(kind) && !state.ran.contains(
            kind,
        ),
{
}

/// The phases come in their fixed order: when the pipelines of a phase are
/// run, every kind of every earlier phase has been found done or has run to
/// its end.
pub proof fn lemma_phases_are_ordered(
    state: EngineState,
    cancelled: bool,
    event: EngineEvent,
    kind: ResourceKind,
)
    requires
        state.inv(),
        state.next(cancelled, event).1 is Run,
        phase_of(kind) < state.phase,
    ensures
        state.found_done.contains(kind) || state.ran.contains(kind),
        state.next(cancelled, event).0.phase == state.phase,
{
}

} // verus!
