use pokedia::api::abilities::{ParsedAbility, ParsedAbilityPokemon};
use pokedia::api::client::NamedApiResource;
use pokedia::api::moves::ParsedMove;
use pokedia::api::pokemon::{ParsedAbility as SlotAbility, ParsedPokemon, ParsedPokemonMove};
use pokedia::api::species::ParsedSpecies;
use pokedia::api::types::{ParsedType, ParsedTypeEfficacy};
use pokedia::models::pokemon::EvolutionNode;
use pokedia::models::sync::SyncResourceStatus;
use pokedia::sync::limiter::ConcurrencyLimiter;
use pokedia::sync::pipeline::{Outcome, PipelineAction, PipelineEvent, ResourcePipeline, Stage};
use pokedia::sync::resource::ResourceKind;
use pokedia::sync::validator::validate_resource;
use pokedia::sync::worker::{
    ItemResult, ItemWorker, Record, WorkerAction, WorkerEvent, WorkerStage,
};
use pokedia::sync::writes::{writes, CacheWrite};

/// What a scripted run of a pipeline did.
struct Run {
    rows: Vec<SyncResourceStatus>,
    stored: Vec<i64>,
    species_stored: Vec<i64>,
    fetches: Vec<i64>,
    species_fetches: Vec<String>,
    dispatched: Vec<i64>,
    finished: Vec<(usize, ItemResult)>,
    listings: usize,
    sleeps: usize,
    max_permits: usize,
    max_in_flight: usize,
    outcome: Option<Outcome>,
}

/// A worker at work, and what is to be reported to it next; nothing while it
/// waits for a permit.
struct Job {
    index: usize,
    worker: ItemWorker,
    pending: Option<WorkerEvent>,
}

fn entry(id: i64) -> NamedApiResource {
    NamedApiResource { name: format!("entry-{}", id), url: format!("https://pokeapi.co/api/v2/move/{}/", id) }
}

fn a_move(id: i64) -> Record {
    Record::Move(ParsedMove {
        id,
        name_key: format!("move-{}", id),
        name_en: None,
        name_fr: None,
        type_key: "normal".to_string(),
        damage_class: None,
        power: None,
        accuracy: None,
        pp: None,
        priority: 0,
        effect_en: None,
        effect_fr: None,
    })
}

fn a_pokemon(id: i64) -> Record {
    Record::Pokemon(ParsedPokemon {
        id,
        name_key: format!("pokemon-{}", id),
        type1_key: None,
        type2_key: None,
        hp: 1,
        atk: 1,
        def: 1,
        spa: 1,
        spd: 1,
        spe: 1,
        base_stat_total: 6,
        sprite_url: None,
        height: None,
        weight: None,
        species_url: format!("https://pokeapi.co/api/v2/pokemon-species/{}/", id),
        abilities: Vec::new(),
        moves: Vec::new(),
        version_group_moves: Vec::new(),
    })
}

fn a_species(id: i64) -> ParsedSpecies {
    ParsedSpecies {
        id,
        name_en: Some("Name".to_string()),
        name_fr: None,
        description_en: None,
        description_fr: None,
        evolution_chain_id: None,
    }
}

/// How a run is set up: the kind, the window of the pipeline and the
/// permits of the limiter.
#[derive(Clone, Copy)]
struct Setup {
    kind: ResourceKind,
    window: usize,
    permits: usize,
}

fn one_by_one(kind: ResourceKind) -> Setup {
    Setup { kind, window: 1, permits: 1 }
}

/// Runs a pipeline and its workers to their end. `list` answers each attempt
/// of the listing, `fetch` each attempt of a record by identifier and attempt
/// number, `species` each attempt of a species, and `cancelled` reads the
/// token. While the pipeline waits, every worker makes one step in turn, so
/// that the workers of a window run side by side.
fn drive(
    setup: Setup,
    mut list: impl FnMut(usize) -> Result<Vec<NamedApiResource>, String>,
    mut fetch: impl FnMut(i64, usize) -> Result<Record, String>,
    mut species: impl FnMut(&str, usize) -> Result<ParsedSpecies, String>,
    mut cancelled: impl FnMut(&Run) -> bool,
) -> Run {
    let kind = setup.kind;
    let mut run = Run {
        rows: Vec::new(),
        stored: Vec::new(),
        species_stored: Vec::new(),
        fetches: Vec::new(),
        species_fetches: Vec::new(),
        dispatched: Vec::new(),
        finished: Vec::new(),
        listings: 0,
        sleeps: 0,
        max_permits: 0,
        max_in_flight: 0,
        outcome: None,
    };
    let mut pool = ConcurrencyLimiter::new(setup.permits);
    let mut jobs: Vec<Job> = Vec::new();
    let mut ended: Vec<(usize, ItemResult)> = Vec::new();
    let mut pipeline = ResourcePipeline::with_window(kind, setup.window);
    assert_eq!(pipeline.window(), setup.window);
    let mut event = PipelineEvent::Start;
    for _ in 0..1_000_000 {
        assert!(event.is_countable());
        let token = cancelled(&run);
        let action = pipeline.step(token, event);
        assert!(pipeline.in_flight() <= pipeline.window());
        run.max_in_flight = run.max_in_flight.max(pipeline.in_flight());
        event = match action {
            PipelineAction::Persist(row) => {
                assert_eq!(row.resource, kind.key());
                run.rows.push(row);
                PipelineEvent::Persisted
            }
            PipelineAction::Sleep => {
                run.sleeps += 1;
                PipelineEvent::Slept
            }
            PipelineAction::List(listed) => {
                assert_eq!(listed, kind);
                run.listings += 1;
                PipelineEvent::Listed(list(run.listings))
            }
            PipelineAction::Dispatch { index, id } => {
                run.dispatched.push(id);
                let worker = ItemWorker::new(kind, id);
                assert_eq!(worker.stage(), WorkerStage::Idle);
                assert_eq!((worker.kind(), worker.id()), (kind, id));
                jobs.push(Job { index, worker, pending: Some(WorkerEvent::Start) });
                PipelineEvent::Dispatched
            }
            PipelineAction::Await => {
                assert_eq!(pipeline.in_flight(), jobs.len() + ended.len());
                let mut rounds = 0;
                while ended.is_empty() {
                    rounds += 1;
                    assert!(rounds < 100_000, "the workers did not end");
                    let mut still: Vec<Job> = Vec::new();
                    for mut job in jobs.drain(..) {
                        let report = match job.pending.take() {
                            Some(report) => report,
                            None => {
                                if pool.try_acquire() {
                                    WorkerEvent::PermitAcquired
                                } else {
                                    still.push(job);
                                    continue;
                                }
                            }
                        };
                        let token = cancelled(&run);
                        match job.worker.step(token, report) {
                            WorkerAction::Sleep => {
                                run.sleeps += 1;
                                job.pending = Some(WorkerEvent::Slept);
                            }
                            WorkerAction::AcquirePermit => {
                                assert!(!job.worker.holds_permit());
                                job.pending = None;
                            }
                            WorkerAction::Fetch { kind: fetched, id } => {
                                assert_eq!(fetched, kind);
                                assert!(job.worker.holds_permit());
                                run.fetches.push(id);
                                let attempt = run.fetches.iter().filter(|x| **x == id).count();
                                job.pending = Some(WorkerEvent::Fetched(fetch(id, attempt)));
                            }
                            WorkerAction::FetchSpecies { url } => {
                                assert!(job.worker.holds_permit());
                                run.species_fetches.push(url.clone());
                                let attempt =
                                    run.species_fetches.iter().filter(|x| **x == url).count();
                                job.pending =
                                    Some(WorkerEvent::FetchedSpecies(species(&url, attempt)));
                            }
                            WorkerAction::ReleasePermit => {
                                assert!(pool.release());
                                job.pending = Some(WorkerEvent::PermitReleased);
                            }
                            WorkerAction::Store(record) => {
                                assert!(!job.worker.holds_permit());
                                match record {
                                    Record::Move(m) => run.stored.push(m.id),
                                    Record::Pokemon(p) => run.stored.push(p.id),
                                    _ => panic!("a record of another kind"),
                                }
                                job.pending = Some(WorkerEvent::Stored);
                            }
                            WorkerAction::StoreSpecies { pokemon_id, species } => {
                                assert_eq!(pokemon_id, species.id);
                                run.species_stored.push(pokemon_id);
                                job.pending = Some(WorkerEvent::Stored);
                            }
                            WorkerAction::Finish(result) => {
                                assert!(!job.worker.holds_permit());
                                assert_eq!(job.worker.stage(), WorkerStage::Finished);
                                ended.push((job.index, result));
                                continue;
                            }
                            WorkerAction::Unexpected => {
                                panic!("the worker refused an event it asked for")
                            }
                        }
                        still.push(job);
                    }
                    jobs = still;
                    run.max_permits = run.max_permits.max(pool.in_flight());
                    assert!(pool.in_flight() <= pool.capacity());
                }
                let (index, result) = ended.remove(0);
                run.finished.push((index, result));
                PipelineEvent::ItemFinished { index, result }
            }
            PipelineAction::Finish(outcome) => {
                assert!(jobs.is_empty() && ended.is_empty());
                assert_eq!(pool.in_flight(), 0);
                assert_eq!(pipeline.stage(), Stage::Finished);
                run.outcome = Some(outcome);
                return run;
            }
            PipelineAction::Unexpected => panic!("the pipeline refused an event it asked for"),
        };
    }
    panic!("the pipeline did not end");
}

fn row(resource: &str, total: i64, completed: i64, status: &str, error: Option<&str>) -> SyncResourceStatus {
    SyncResourceStatus {
        resource: resource.to_string(),
        total,
        completed,
        status: status.to_string(),
        error: error.map(|e| e.to_string()),
    }
}

fn no_species(_: &str, _: usize) -> Result<ParsedSpecies, String> {
    panic!("no species is asked for")
}

#[test]
fn a_failing_item_is_passed_over_and_found_by_the_validator() {
    let run = drive(
        one_by_one(ResourceKind::Moves),
        |_| Ok(vec![entry(1), entry(2), entry(3)]),
        |id, _| if id == 2 { Err("boom".to_string()) } else { Ok(a_move(id)) },
        no_species,
        |_| false,
    );
    assert_eq!(run.outcome, Some(Outcome::Done));
    assert_eq!(run.stored, vec![1, 3]);
    assert_eq!(run.fetches, vec![1, 2, 2, 2, 3]);
    assert_eq!(run.sleeps, 5 + 10);
    let last = run.rows.last().unwrap().clone();
    assert_eq!(last, row("moves", 3, 3, "done", None));
    let actual = run.stored.len() as i64;
    let downgraded = validate_resource(&last, actual);
    assert_eq!(downgraded, Some(row("moves", 3, 2, "partial", None)));
}

#[test]
fn a_successful_run_ends_done_and_complete() {
    let run = drive(
        one_by_one(ResourceKind::Moves),
        |_| Ok((1..=45).map(entry).collect()),
        |id, _| Ok(a_move(id)),
        no_species,
        |_| false,
    );
    assert_eq!(run.outcome, Some(Outcome::Done));
    assert_eq!(run.stored, (1..=45).collect::<Vec<i64>>());
    assert_eq!(run.listings, 1);
    assert_eq!(run.sleeps, 0);
    assert_eq!(run.max_permits, 1);
    assert_eq!(
        run.rows,
        vec![
            row("moves", 0, 0, "syncing", None),
            row("moves", 45, 0, "syncing", None),
            row("moves", 45, 20, "syncing", None),
            row("moves", 45, 40, "syncing", None),
            row("moves", 45, 45, "syncing", None),
            row("moves", 45, 45, "done", None),
        ]
    );
    assert_eq!(validate_resource(run.rows.last().unwrap(), 45), None);
}

#[test]
fn every_item_of_a_kind_with_batch_size_one_is_reported() {
    let run = drive(
        one_by_one(ResourceKind::Natures),
        |_| Ok(vec![entry(1), entry(2)]),
        |id, _| Ok(a_move(id)),
        no_species,
        |_| false,
    );
    assert_eq!(
        run.rows,
        vec![
            row("natures", 0, 0, "syncing", None),
            row("natures", 2, 0, "syncing", None),
            row("natures", 2, 1, "syncing", None),
            row("natures", 2, 2, "syncing", None),
            row("natures", 2, 2, "done", None),
        ]
    );
}

#[test]
fn a_cancellation_between_items_ends_the_run_cancelled() {
    let run = drive(
        one_by_one(ResourceKind::Moves),
        |_| Ok((1..=5).map(entry).collect()),
        |id, _| Ok(a_move(id)),
        no_species,
        |run| run.stored.len() >= 2,
    );
    assert_eq!(run.outcome, Some(Outcome::Cancelled));
    assert_eq!(run.stored, vec![1, 2]);
    assert_eq!(run.rows.last().unwrap(), &row("moves", 5, 2, "cancelled", None));
}

#[test]
fn a_cancellation_during_a_backoff_wait_is_noticed_within_a_slice() {
    let run = drive(
        one_by_one(ResourceKind::Moves),
        |_| Ok((1..=5).map(entry).collect()),
        |id, _| if id == 2 { Err("down".to_string()) } else { Ok(a_move(id)) },
        no_species,
        |run| run.sleeps >= 3,
    );
    assert_eq!(run.outcome, Some(Outcome::Cancelled));
    assert_eq!(run.sleeps, 3);
    assert_eq!(run.fetches, vec![1, 2]);
    assert_eq!(run.rows.last().unwrap(), &row("moves", 5, 1, "cancelled", None));
}

#[test]
fn a_cancellation_before_the_listing_ends_the_run_cancelled() {
    let run = drive(
        one_by_one(ResourceKind::Items),
        |_| panic!("no listing is asked for"),
        |_, _| panic!("no record is asked for"),
        no_species,
        |_| true,
    );
    assert_eq!(run.outcome, Some(Outcome::Cancelled));
    assert_eq!(
        run.rows,
        vec![row("items", 0, 0, "syncing", None), row("items", 0, 0, "cancelled", None)]
    );
}

#[test]
fn a_listing_that_cannot_be_had_fails_the_resource() {
    let run = drive(
        one_by_one(ResourceKind::Abilities),
        |attempt| Err(format!("attempt {} failed", attempt)),
        |_, _| panic!("no record is asked for"),
        no_species,
        |_| false,
    );
    assert_eq!(run.outcome, Some(Outcome::Failed("attempt 3 failed".to_string())));
    assert_eq!(run.listings, 3);
    assert_eq!(run.sleeps, 15);
    assert_eq!(
        run.rows,
        vec![
            row("abilities", 0, 0, "syncing", None),
            row("abilities", 0, 0, "error", Some("attempt 3 failed")),
        ]
    );
}

#[test]
fn a_listing_that_is_had_at_the_second_attempt_is_used() {
    let run = drive(
        one_by_one(ResourceKind::Moves),
        |attempt| if attempt == 1 { Err("down".to_string()) } else { Ok(vec![entry(7)]) },
        |id, _| Ok(a_move(id)),
        no_species,
        |_| false,
    );
    assert_eq!(run.outcome, Some(Outcome::Done));
    assert_eq!(run.listings, 2);
    assert_eq!(run.sleeps, 5);
    assert_eq!(run.stored, vec![7]);
}

#[test]
fn entries_without_an_identifier_are_passed_over_and_not_counted() {
    let mut entries = vec![entry(1)];
    entries.push(NamedApiResource {
        name: "odd".to_string(),
        url: "https://pokeapi.co/api/v2/move/odd/".to_string(),
    });
    entries.push(entry(3));
    let run = drive(
        one_by_one(ResourceKind::Moves),
        move |_| Ok(entries.clone()),
        |id, _| Ok(a_move(id)),
        no_species,
        |_| false,
    );
    assert_eq!(run.outcome, Some(Outcome::Done));
    assert_eq!(run.fetches, vec![1, 3]);
    assert_eq!(run.rows.last().unwrap(), &row("moves", 3, 2, "done", None));
}

#[test]
fn an_empty_listing_is_done_at_once() {
    let run = drive(
        one_by_one(ResourceKind::Types),
        |_| Ok(Vec::new()),
        |_, _| panic!("no record is asked for"),
        no_species,
        |_| false,
    );
    assert_eq!(run.outcome, Some(Outcome::Done));
    assert_eq!(
        run.rows,
        vec![
            row("types", 0, 0, "syncing", None),
            row("types", 0, 0, "syncing", None),
            row("types", 0, 0, "done", None),
        ]
    );
}

#[test]
fn the_species_of_a_creature_is_fetched_after_its_record_is_stored() {
    let run = drive(
        one_by_one(ResourceKind::Pokemon),
        |_| Ok(vec![entry(1), entry(2)]),
        |id, _| Ok(a_pokemon(id)),
        |url, attempt| {
            if url.ends_with("/2/") && attempt < 3 {
                Err("slow".to_string())
            } else if url.ends_with("/1/") {
                Ok(a_species(1))
            } else {
                Ok(a_species(2))
            }
        },
        |_| false,
    );
    assert_eq!(run.outcome, Some(Outcome::Done));
    assert_eq!(run.stored, vec![1, 2]);
    assert_eq!(run.species_stored, vec![1, 2]);
    assert_eq!(run.species_fetches.len(), 4);
    assert_eq!(run.sleeps, 15);
    assert_eq!(run.rows.last().unwrap(), &row("pokemon", 2, 2, "done", None));
}

#[test]
fn a_species_that_cannot_be_had_leaves_the_creature_stored_and_counted() {
    let run = drive(
        one_by_one(ResourceKind::Pokemon),
        |_| Ok(vec![entry(1)]),
        |id, _| Ok(a_pokemon(id)),
        |_, _| Err("gone".to_string()),
        |_| false,
    );
    assert_eq!(run.outcome, Some(Outcome::Done));
    assert_eq!(run.stored, vec![1]);
    assert!(run.species_stored.is_empty());
    assert_eq!(run.species_fetches.len(), 3);
    assert_eq!(run.rows.last().unwrap(), &row("pokemon", 1, 1, "done", None));
}

#[test]
fn a_cancellation_between_a_creature_and_its_species_leaves_the_creature_uncounted() {
    let run = drive(
        one_by_one(ResourceKind::Pokemon),
        |_| Ok(vec![entry(1), entry(2)]),
        |id, _| Ok(a_pokemon(id)),
        no_species,
        |run| !run.stored.is_empty(),
    );
    assert_eq!(run.outcome, Some(Outcome::Cancelled));
    assert_eq!(run.stored, vec![1]);
    assert!(run.species_fetches.is_empty());
    assert_eq!(run.rows.last().unwrap(), &row("pokemon", 2, 0, "cancelled", None));
}

#[test]
fn a_record_that_is_had_at_the_second_attempt_is_stored() {
    let run = drive(
        one_by_one(ResourceKind::Items),
        |_| Ok(vec![entry(1), entry(2)]),
        |id, attempt| if id == 1 && attempt == 1 { Err("busy".to_string()) } else { Ok(a_move(id)) },
        no_species,
        |_| false,
    );
    assert_eq!(run.outcome, Some(Outcome::Done));
    assert_eq!(run.fetches, vec![1, 1, 2]);
    assert_eq!(run.stored, vec![1, 2]);
    assert_eq!(run.sleeps, 5);
    assert_eq!(run.max_permits, 1);
}

#[test]
fn an_event_that_the_pipeline_did_not_ask_for_changes_nothing() {
    let mut pipeline = ResourcePipeline::new(ResourceKind::Moves);
    assert_eq!(pipeline.window(), 10);
    assert!(matches!(pipeline.step(false, PipelineEvent::Persisted), PipelineAction::Unexpected));
    assert!(matches!(pipeline.step(false, PipelineEvent::Dispatched), PipelineAction::Unexpected));
    assert_eq!(pipeline.stage(), Stage::Idle);
    assert!(matches!(pipeline.step(false, PipelineEvent::Start), PipelineAction::Persist(_)));
    assert!(matches!(pipeline.step(false, PipelineEvent::Start), PipelineAction::Unexpected));
    assert_eq!(pipeline.stage(), Stage::Announcing);
    assert_eq!(pipeline.kind(), ResourceKind::Moves);
    assert_eq!(pipeline.total(), 0);
    assert_eq!(pipeline.completed(), 0);
    assert_eq!(pipeline.in_flight(), 0);
}

#[test]
fn a_worker_that_is_not_at_work_cannot_end() {
    let mut pipeline = ResourcePipeline::with_window(ResourceKind::Moves, 2);
    let done = ItemResult::Completed { stored: true };
    assert!(matches!(pipeline.step(false, PipelineEvent::Start), PipelineAction::Persist(_)));
    assert!(matches!(pipeline.step(false, PipelineEvent::Persisted), PipelineAction::List(_)));
    let listing = vec![entry(1), NamedApiResource { name: "odd".to_string(), url: "odd".to_string() }, entry(3), entry(4)];
    assert!(matches!(pipeline.step(false, PipelineEvent::Listed(Ok(listing))), PipelineAction::Persist(_)));
    assert!(matches!(pipeline.step(false, PipelineEvent::Persisted), PipelineAction::Dispatch { index: 0, id: 1 }));
    // the entry without an identifier is passed over
    assert!(matches!(pipeline.step(false, PipelineEvent::Dispatched), PipelineAction::Dispatch { index: 2, id: 3 }));
    // the window is full
    assert!(matches!(pipeline.step(false, PipelineEvent::Dispatched), PipelineAction::Await));
    assert_eq!(pipeline.in_flight(), 2);
    for index in [1, 3, 4, 99] {
        let report = PipelineEvent::ItemFinished { index, result: done };
        assert!(matches!(pipeline.step(false, report), PipelineAction::Unexpected));
    }
    assert_eq!((pipeline.in_flight(), pipeline.completed()), (2, 0));
    let report = PipelineEvent::ItemFinished { index: 2, result: done };
    assert!(matches!(pipeline.step(false, report), PipelineAction::Dispatch { index: 3, id: 4 }));
    // an item ends once
    assert!(matches!(pipeline.step(false, PipelineEvent::Dispatched), PipelineAction::Await));
    let again = PipelineEvent::ItemFinished { index: 2, result: done };
    assert!(matches!(pipeline.step(false, again), PipelineAction::Unexpected));
    assert_eq!((pipeline.in_flight(), pipeline.completed()), (2, 1));
}

#[test]
fn an_event_that_the_worker_did_not_ask_for_changes_nothing() {
    let mut worker = ItemWorker::new(ResourceKind::Items, 4);
    assert!(matches!(worker.step(false, WorkerEvent::Stored), WorkerAction::Unexpected));
    assert!(matches!(worker.step(false, WorkerEvent::PermitAcquired), WorkerAction::Unexpected));
    assert_eq!(worker.stage(), WorkerStage::Idle);
    assert!(matches!(worker.step(false, WorkerEvent::Start), WorkerAction::AcquirePermit));
    assert!(matches!(worker.step(false, WorkerEvent::Start), WorkerAction::Unexpected));
    assert!(matches!(
        worker.step(false, WorkerEvent::PermitAcquired),
        WorkerAction::Fetch { kind: ResourceKind::Items, id: 4 }
    ));
    // a species is not what was asked for
    assert!(matches!(
        worker.step(false, WorkerEvent::FetchedSpecies(Ok(a_species(4)))),
        WorkerAction::Unexpected
    ));
    assert!(worker.holds_permit());
    assert!(matches!(worker.step(false, WorkerEvent::Fetched(Ok(a_move(4)))), WorkerAction::ReleasePermit));
    assert!(matches!(worker.step(true, WorkerEvent::PermitReleased), WorkerAction::Store(Record::Move(_))));
    assert!(matches!(
        worker.step(true, WorkerEvent::Stored),
        WorkerAction::Finish(ItemResult::Completed { stored: true })
    ));
    assert!(matches!(worker.step(false, WorkerEvent::Start), WorkerAction::Unexpected));
}

#[test]
fn a_worker_that_finds_the_token_set_ends_cancelled_before_it_fetches() {
    let mut worker = ItemWorker::new(ResourceKind::Items, 4);
    assert!(matches!(worker.step(true, WorkerEvent::Start), WorkerAction::Finish(ItemResult::Cancelled)));
    assert_eq!(worker.stage(), WorkerStage::Finished);
}

#[test]
fn the_items_of_a_window_are_worked_on_side_by_side() {
    let run = drive(
        Setup { kind: ResourceKind::Moves, window: 3, permits: 2 },
        |_| Ok((1..=7).map(entry).collect()),
        |id, _| Ok(a_move(id)),
        no_species,
        |_| false,
    );
    assert_eq!(run.outcome, Some(Outcome::Done));
    assert_eq!(run.dispatched, (1..=7).collect::<Vec<i64>>());
    assert_eq!(run.max_in_flight, 3);
    assert_eq!(run.max_permits, 2);
    let mut stored = run.stored.clone();
    stored.sort();
    assert_eq!(stored, (1..=7).collect::<Vec<i64>>());
    assert_eq!(run.finished.len(), 7);
    assert_eq!(run.rows.last().unwrap(), &row("moves", 7, 7, "done", None));
}

#[test]
fn five_simultaneous_fetches_under_two_permits_never_overlap_more_than_twice() {
    let run = drive(
        Setup { kind: ResourceKind::Items, window: 5, permits: 2 },
        |_| Ok((1..=5).map(entry).collect()),
        |id, _| Ok(a_move(id)),
        no_species,
        |_| false,
    );
    assert_eq!(run.outcome, Some(Outcome::Done));
    assert_eq!(run.max_in_flight, 5);
    assert_eq!(run.max_permits, 2);
    assert_eq!(run.fetches.len(), 5);
    assert_eq!(run.rows.last().unwrap(), &row("items", 5, 5, "done", None));
}

#[test]
fn a_slow_item_does_not_hold_up_the_others() {
    // the first item needs three attempts, with two waits between them; the
    // others are fetched and counted meanwhile
    let run = drive(
        Setup { kind: ResourceKind::Items, window: 2, permits: 2 },
        |_| Ok((1..=4).map(entry).collect()),
        |id, attempt| if id == 1 && attempt < 3 { Err("busy".to_string()) } else { Ok(a_move(id)) },
        no_species,
        |_| false,
    );
    assert_eq!(run.outcome, Some(Outcome::Done));
    assert_eq!(run.stored, vec![2, 3, 4, 1]);
    assert_eq!(run.finished.iter().map(|f| f.0).collect::<Vec<_>>(), vec![1, 2, 3, 0]);
    assert_eq!(run.sleeps, 15);
    assert_eq!(run.rows.last().unwrap(), &row("items", 4, 4, "done", None));
}

#[test]
fn a_cancellation_lets_the_workers_end_and_hands_out_nothing_more() {
    let run = drive(
        Setup { kind: ResourceKind::Moves, window: 3, permits: 3 },
        |_| Ok((1..=9).map(entry).collect()),
        |id, attempt| if id == 2 && attempt == 1 { Err("busy".to_string()) } else { Ok(a_move(id)) },
        no_species,
        |run| run.stored.len() >= 2,
    );
    assert_eq!(run.outcome, Some(Outcome::Cancelled));
    // the three items of the first window were handed out, and nothing after
    // the token was found set
    assert_eq!(run.dispatched, vec![1, 2, 3]);
    assert_eq!(run.stored, vec![1, 3]);
    // the second item was waiting for its second attempt and gave way; the
    // third had its record already and was worked through
    assert_eq!(
        run.finished,
        vec![
            (0, ItemResult::Completed { stored: true }),
            (1, ItemResult::Cancelled),
            (2, ItemResult::Completed { stored: true }),
        ]
    );
    assert_eq!(run.rows.last().unwrap(), &row("moves", 9, 2, "cancelled", None));
}

/// A short name for each write, to compare plans by.
fn names(plan: &[CacheWrite<'_>]) -> Vec<String> {
    plan.iter()
        .map(|write| match write {
            CacheWrite::Type(t) => format!("type {}", t.id),
            CacheWrite::TypeEfficacy(e) => {
                format!("efficacy {}>{}={}", e.attacking_type_id, e.defending_type_id, e.damage_factor)
            }
            CacheWrite::Move(m) => format!("move {}", m.id),
            CacheWrite::Pokemon(p) => format!("pokemon {}", p.id),
            CacheWrite::PokemonAbility { pokemon_id, ability } => {
                format!("slot {} of {}: {}", ability.slot, pokemon_id, ability.ability_key)
            }
            CacheWrite::PokemonMove { pokemon_id, move_id, learned } => {
                format!("{} learns {} ({})", pokemon_id, move_id, learned.move_name)
            }
            CacheWrite::Item(i) => format!("item {}", i.id),
            CacheWrite::EvolutionChain { chain_id, root } => format!("chain {} from {}", chain_id, root.name_key),
            CacheWrite::Nature(n) => format!("nature {}", n.id),
            CacheWrite::Ability(a) => format!("ability {}", a.id),
            CacheWrite::AbilityPokemon { ability_id, holder } => {
                format!("{} has {} hidden={}", holder.pokemon_id, ability_id, holder.is_hidden)
            }
        })
        .collect()
}

#[test]
fn a_record_is_written_with_the_rows_that_hang_on_it() {
    let efficacy = |defender, factor| ParsedTypeEfficacy {
        attacking_type_id: 10,
        defending_type_id: defender,
        damage_factor: factor,
    };
    let fire = Record::Type(
        ParsedType { id: 10, name_key: "fire".to_string(), name_en: None, name_fr: None },
        vec![efficacy(12, 200), efficacy(11, 50)],
    );
    assert_eq!(names(&writes(&fire)), vec!["type 10", "efficacy 10>12=200", "efficacy 10>11=50"]);

    let mut pikachu = match a_pokemon(25) {
        Record::Pokemon(p) => p,
        _ => unreachable!(),
    };
    pikachu.abilities = vec![
        SlotAbility { ability_key: "static".to_string(), is_hidden: false, slot: 1 },
        SlotAbility { ability_key: "lightning-rod".to_string(), is_hidden: true, slot: 3 },
    ];
    let learned = |name: &str, id| ParsedPokemonMove {
        move_name: name.to_string(),
        move_id: id,
        learn_method: "level-up".to_string(),
        level_learned_at: 1,
    };
    pikachu.moves = vec![learned("growl", Some(45)), learned("mystery", None), learned("thunderbolt", Some(85))];
    assert_eq!(
        names(&writes(&Record::Pokemon(pikachu))),
        vec![
            "pokemon 25",
            "slot 1 of 25: static",
            "slot 3 of 25: lightning-rod",
            "25 learns 45 (growl)",
            "25 learns 85 (thunderbolt)",
        ]
    );

    let ability = Record::Ability(ParsedAbility {
        id: 9,
        name_key: "static".to_string(),
        name_en: None,
        name_fr: None,
        effect_en: None,
        effect_fr: None,
        short_effect_en: None,
        short_effect_fr: None,
        generation: Some(3),
        pokemon: vec![
            ParsedAbilityPokemon { pokemon_id: 25, is_hidden: false },
            ParsedAbilityPokemon { pokemon_id: 145, is_hidden: true },
        ],
    });
    assert_eq!(names(&writes(&ability)), vec!["ability 9", "25 has 9 hidden=false", "145 has 9 hidden=true"]);

    assert_eq!(names(&writes(&a_move(7))), vec!["move 7"]);
    let chain = Record::EvolutionChain(
        67,
        EvolutionNode {
            pokemon_id: Some(133),
            name_key: "eevee".to_string(),
            name_en: None,
            name_fr: None,
            sprite_url: None,
            trigger: None,
            trigger_detail: None,
            evolves_to: Vec::new(),
        },
    );
    assert_eq!(names(&writes(&chain)), vec!["chain 67 from eevee"]);
}
