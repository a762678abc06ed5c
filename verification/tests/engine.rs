use pokedia::models::sync::SyncResourceStatus;
use pokedia::sync::engine::{
    is_resource_done, EngineAction, EngineEvent, EngineStage, RunResult, SyncEngine, KINDS, PHASES,
};
use pokedia::sync::progress::ProgressStore;
use pokedia::sync::resource::ResourceKind;

fn row(resource: &str, total: i64, completed: i64, status: &str, error: Option<&str>) -> SyncResourceStatus {
    SyncResourceStatus {
        resource: resource.to_string(),
        total,
        completed,
        status: status.to_string(),
        error: error.map(|e| e.to_string()),
    }
}

/// What a scripted run of the engine did.
struct Run {
    store: ProgressStore,
    /// The kinds that were run, phase by phase.
    phases: Vec<Vec<ResourceKind>>,
    /// The kinds whose state was read, in order.
    read: Vec<ResourceKind>,
    /// The kinds that were validated, in order.
    inspected: Vec<ResourceKind>,
    /// The rows that the engine itself wrote.
    written: Vec<SyncResourceStatus>,
    marked_cancelled: bool,
}

/// Runs the engine to its end over a store. `pipeline` stands for the
/// pipeline of a kind: it writes to the store what a pipeline would, and
/// says how it ended. `count` gives the number of stored records of a kind.
/// The token is set once `cancel_after` kinds have been run.
fn drive(
    store: ProgressStore,
    mut pipeline: impl FnMut(ResourceKind, &mut ProgressStore) -> RunResult,
    count: impl Fn(ResourceKind) -> i64,
    cancel_after: Option<usize>,
) -> Run {
    let mut run = Run {
        store,
        phases: Vec::new(),
        read: Vec::new(),
        inspected: Vec::new(),
        written: Vec::new(),
        marked_cancelled: false,
    };
    let mut engine = SyncEngine::new();
    assert_eq!(engine.stage(), EngineStage::Idle);
    let mut event = EngineEvent::Start;
    for _ in 0..1000 {
        let ran: usize = run.phases.iter().map(|p| p.len()).sum();
        let cancelled = cancel_after.map_or(false, |n| ran >= n);
        event = match engine.step(cancelled, event) {
            EngineAction::ReadStatus(kind) => {
                run.read.push(kind);
                EngineEvent::StatusRead(run.store.get(kind).map(|r| r.status.clone()))
            }
            EngineAction::Run { first, second } => {
                assert!(first.is_some() || second.is_some());
                run.phases.push(first.iter().chain(second.iter()).copied().collect());
                EngineEvent::Joined {
                    first: first.map(|kind| pipeline(kind, &mut run.store)),
                    second: second.map(|kind| pipeline(kind, &mut run.store)),
                }
            }
            EngineAction::Persist(row) => {
                run.written.push(row.clone());
                run.store.update(row).expect("a row of a known kind");
                EngineEvent::Persisted
            }
            EngineAction::MarkCancelled => {
                run.store.mark_syncing_cancelled();
                run.marked_cancelled = true;
                EngineEvent::Marked
            }
            EngineAction::Inspect(kind) => {
                run.inspected.push(kind);
                EngineEvent::Inspected { actual: count(kind), row: run.store.get(kind).cloned() }
            }
            EngineAction::Finish => {
                assert_eq!(engine.stage(), EngineStage::Finished);
                return run;
            }
            EngineAction::Unexpected => panic!("the engine refused an event it asked for"),
        };
    }
    panic!("the engine did not end");
}

fn succeed(kind: ResourceKind, store: &mut ProgressStore) -> RunResult {
    store.update(row(kind.key(), 10, 10, "done", None));
    RunResult::Completed
}

const ORDER: [ResourceKind; 7] = [
    ResourceKind::Types,
    ResourceKind::Moves,
    ResourceKind::Pokemon,
    ResourceKind::Items,
    ResourceKind::EvolutionChains,
    ResourceKind::Natures,
    ResourceKind::Abilities,
];

#[test]
fn a_full_run_goes_through_the_phases_in_order_and_validates_every_kind() {
    let run = drive(ProgressStore::new(), succeed, |_| 10, None);
    assert_eq!(
        run.phases,
        vec![
            vec![ResourceKind::Types],
            vec![ResourceKind::Moves],
            vec![ResourceKind::Pokemon, ResourceKind::Items],
            vec![ResourceKind::EvolutionChains],
            vec![ResourceKind::Natures, ResourceKind::Abilities],
        ]
    );
    assert_eq!(run.phases.len(), PHASES);
    assert_eq!(run.read, ORDER.to_vec());
    assert_eq!(run.inspected, ORDER.to_vec());
    assert_eq!(run.inspected.len(), KINDS);
    assert!(run.written.is_empty());
    assert!(!run.marked_cancelled);
    for kind in ORDER {
        assert!(run.store.is_resource_done(kind));
        assert_eq!(run.store.get(kind), Some(&row(kind.key(), 10, 10, "done", None)));
    }
}

#[test]
fn a_second_run_fetches_nothing_of_what_is_done() {
    let first = drive(ProgressStore::new(), succeed, |_| 10, None);
    let second = drive(first.store, |_, _| panic!("no pipeline is run"), |_| 10, None);
    assert!(second.phases.is_empty());
    assert_eq!(second.read, ORDER.to_vec());
    assert_eq!(second.inspected, ORDER.to_vec());
}

#[test]
fn a_run_resumes_with_what_is_not_done() {
    let mut store = ProgressStore::new();
    store.update(row("types", 18, 18, "done", None));
    store.update(row("moves", 900, 120, "cancelled", None));
    store.update(row("pokemon", 1300, 1300, "done", None));
    store.update(row("items", 2000, 0, "error", Some("timeout")));
    store.update(row("natures", 25, 20, "partial", None));
    let run = drive(store, succeed, |_| 5000, None);
    assert_eq!(
        run.phases,
        vec![
            vec![ResourceKind::Moves],
            vec![ResourceKind::Items],
            vec![ResourceKind::EvolutionChains],
            vec![ResourceKind::Natures, ResourceKind::Abilities],
        ]
    );
}

#[test]
fn a_cancellation_after_a_phase_ends_the_run_without_validation() {
    let run = drive(
        ProgressStore::new(),
        |kind, store| {
            if kind == ResourceKind::Moves {
                store.update(row("moves", 900, 120, "syncing", None));
                RunResult::Completed
            } else {
                succeed(kind, store)
            }
        },
        |_| 10,
        Some(2),
    );
    assert_eq!(run.phases, vec![vec![ResourceKind::Types], vec![ResourceKind::Moves]]);
    assert!(run.inspected.is_empty());
    assert!(run.marked_cancelled);
    assert_eq!(run.store.get(ResourceKind::Types), Some(&row("types", 10, 10, "done", None)));
    assert_eq!(run.store.get(ResourceKind::Moves), Some(&row("moves", 900, 120, "cancelled", None)));
    assert!(run.store.get(ResourceKind::Pokemon).is_none());
}

#[test]
fn a_cancellation_after_the_last_phase_still_skips_the_validation() {
    let run = drive(ProgressStore::new(), succeed, |_| 0, Some(7));
    assert_eq!(run.phases.len(), 5);
    assert!(run.inspected.is_empty());
    assert!(run.marked_cancelled);
    assert!(run.store.is_resource_done(ResourceKind::Abilities));
}

#[test]
fn a_cancellation_before_the_first_phase_runs_the_first_pipeline_only() {
    // The token is read after a phase, never before one: the pipeline of the
    // first phase is run and is itself to notice the token.
    let run = drive(
        ProgressStore::new(),
        |kind, store| {
            store.update(row(kind.key(), 0, 0, "cancelled", None));
            RunResult::Completed
        },
        |_| 0,
        Some(0),
    );
    assert_eq!(run.phases, vec![vec![ResourceKind::Types]]);
    assert!(run.inspected.is_empty());
}

#[test]
fn a_failed_resource_is_marked_and_its_siblings_go_on() {
    let run = drive(
        ProgressStore::new(),
        |kind, store| match kind {
            ResourceKind::Pokemon => RunResult::Failed("listing timed out".to_string()),
            ResourceKind::Abilities => RunResult::Panicked,
            ResourceKind::Natures => RunResult::Failed("no route".to_string()),
            _ => succeed(kind, store),
        },
        |_| 10,
        None,
    );
    assert_eq!(run.phases.len(), 5);
    assert_eq!(
        run.written,
        vec![
            row("pokemon", 0, 0, "error", Some("listing timed out")),
            row("natures", 0, 0, "error", Some("no route")),
            row("abilities", 0, 0, "error", Some("Abilities sync task panicked")),
        ]
    );
    assert!(run.store.is_resource_done(ResourceKind::Items));
    assert!(run.store.is_resource_done(ResourceKind::EvolutionChains));
    assert_eq!(run.inspected, ORDER.to_vec());
}

#[test]
fn a_task_that_died_is_written_down_by_name() {
    for (kind, message) in [
        (ResourceKind::Types, "Types sync task panicked"),
        (ResourceKind::Pokemon, "Pokemon sync task panicked"),
        (ResourceKind::Items, "Items sync task panicked"),
        (ResourceKind::EvolutionChains, "Evolution chains sync task panicked"),
        (ResourceKind::Natures, "Natures sync task panicked"),
    ] {
        let run = drive(
            ProgressStore::new(),
            |k, store| if k == kind { RunResult::Panicked } else { succeed(k, store) },
            |_| 10,
            None,
        );
        assert_eq!(run.written, vec![row(kind.key(), 0, 0, "error", Some(message))]);
    }
}

#[test]
fn the_validation_downgrades_what_the_cache_falls_short_of() {
    let run = drive(
        ProgressStore::new(),
        succeed,
        |kind| match kind {
            ResourceKind::Moves => 7,
            ResourceKind::Abilities => 0,
            _ => 10,
        },
        None,
    );
    assert_eq!(
        run.written,
        vec![row("moves", 10, 7, "partial", None), row("abilities", 10, 0, "partial", None)]
    );
    assert_eq!(run.store.get(ResourceKind::Moves), Some(&row("moves", 10, 7, "partial", None)));
    assert!(run.store.is_resource_done(ResourceKind::Types));
    assert_eq!(run.inspected, ORDER.to_vec());
}

#[test]
fn the_validation_leaves_alone_what_is_not_done() {
    let run = drive(
        ProgressStore::new(),
        |kind, store| {
            store.update(row(kind.key(), 10, 4, "cancelled", None));
            RunResult::Completed
        },
        |_| 0,
        None,
    );
    assert!(run.written.is_empty());
    for kind in ORDER {
        assert_eq!(run.store.get(kind), Some(&row(kind.key(), 10, 4, "cancelled", None)));
    }
}

#[test]
fn only_the_word_done_counts_as_done() {
    assert!(is_resource_done(&Some("done".to_string())));
    for word in ["Done", "done ", "partial", "syncing", "cancelled", "error", "pending", ""] {
        assert!(!is_resource_done(&Some(word.to_string())), "{:?}", word);
    }
    assert!(!is_resource_done(&None));
}

#[test]
fn a_report_that_does_not_fit_the_phase_is_refused() {
    let mut engine = SyncEngine::new();
    assert!(matches!(engine.step(false, EngineEvent::Persisted), EngineAction::Unexpected));
    assert!(matches!(engine.step(false, EngineEvent::Start), EngineAction::ReadStatus(ResourceKind::Types)));
    assert!(matches!(
        engine.step(false, EngineEvent::StatusRead(None)),
        EngineAction::Run { first: Some(ResourceKind::Types), second: None }
    ));
    // a result for a second pipeline that was never run
    assert!(matches!(
        engine.step(
            false,
            EngineEvent::Joined { first: Some(RunResult::Completed), second: Some(RunResult::Completed) }
        ),
        EngineAction::Unexpected
    ));
    // no result for the pipeline that was run
    assert!(matches!(
        engine.step(false, EngineEvent::Joined { first: None, second: None }),
        EngineAction::Unexpected
    ));
    assert_eq!(engine.stage(), EngineStage::Running);
    assert!(matches!(
        engine.step(false, EngineEvent::Joined { first: Some(RunResult::Completed), second: None }),
        EngineAction::ReadStatus(ResourceKind::Moves)
    ));
}
