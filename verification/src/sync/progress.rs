//! The progress store: one row for each resource kind, written over on every
//! update, and the event that mirrors each update to an observer.

use crate::models::sync::{StatusView, SyncResourceStatus, SyncStatus};
use crate::sync::resource::{lemma_keys_distinct, ResourceKind, ResourceStatus};
use crate::text::text_of;
use vstd::prelude::*;

verus! {

/// What an observer is sent when a progress row is written.
#[derive(Debug, Clone, PartialEq, Eq)]
pub struct SyncProgressEvent {
    pub resource: String,
    pub total: i64,
    pub completed: i64,
    pub status: String,
    pub error: Option<String>,
}

impl View for SyncProgressEvent {
    type V = StatusView;

    open spec fn view(&self) -> StatusView {
        StatusView {
            resource: self.resource@,
            total: self.total as int,
            completed: self.completed as int,
            status: self.status@,
            error: text_of(self.error),
        }
    }
}

impl SyncProgressEvent {
    /// The event that mirrors `row`: it says what the row says.
    pub fn of(row: &SyncResourceStatus) -> (event: Self)
        ensures
            event@ == row@,
    {
        SyncProgressEvent {
            resource: row.resource.clone(),
            total: row.total,
            completed: row.completed,
            status: row.status.clone(),
            error: match &row.error {
                Some(e) => Some(e.clone()),
                None => None,
            },
        }
    }
}

/// The kind whose key is `key`, if there is one.
pub open spec fn kind_of_key(key: Seq<char>) -> Option<ResourceKind> {
    if exists|kind: ResourceKind| kind.key_spec() == key {
        Some(choose|kind: ResourceKind| kind.key_spec() == key)
    } else {
        None
    }
}

/// The row as it stands after a cancellation: `cancelled` where it was
/// `syncing`, and unchanged otherwise.
pub open spec fn settled(row: StatusView) -> StatusView {
    if row.status == ResourceStatus::Syncing.name_spec() {
        StatusView { status: ResourceStatus::Cancelled.name_spec(), ..row }
    } else {
        row
    }
}

/// The kinds in the order of their keys.
pub open spec fn kinds_by_key() -> Seq<ResourceKind> {
    seq![
        ResourceKind::Abilities,
        ResourceKind::EvolutionChains,
        ResourceKind::Items,
        ResourceKind::Moves,
        ResourceKind::Natures,
        ResourceKind::Pokemon,
        ResourceKind::Types,
    ]
}

/// The rows of the first `count` kinds in the order of their keys.
pub open spec fn rows_upto(table: Map<ResourceKind, StatusView>, count: int) -> Seq<StatusView>
    decreases count,
{
    if count <= 0 {
        Seq::empty()
    } else {
        let kind = kinds_by_key()[count - 1];
        if table.contains_key(kind) {
            rows_upto(table, count - 1).push(table[kind])
        } else {
            rows_upto(table, count - 1)
        }
    }
}

/// What each of the rows says.
pub open spec fn views(rows: Seq<SyncResourceStatus>) -> Seq<StatusView> {
    Seq::new(rows.len(), |i: int| rows[i]@)
}

/// Whether one of the rows of the table is in state `syncing`.
pub open spec fn table_is_syncing(table: Map<ResourceKind, StatusView>) -> bool {
    exists|kind: ResourceKind|
        table.contains_key(kind) && (#[trigger] table[kind]).status
            == ResourceStatus::Syncing.name_spec()
}

fn kind_by_key(index: usize) -> (kind: ResourceKind)
    requires
        index < 7,
    ensures
        kind == kinds_by_key()[index as int],
{
    if index == 0 {
        ResourceKind::Abilities
    } else if index == 1 {
        ResourceKind::EvolutionChains
    } else if index == 2 {
        ResourceKind::Items
    } else if index == 3 {
        ResourceKind::Moves
    } else if index == 4 {
        ResourceKind::Natures
    } else if index == 5 {
        ResourceKind::Pokemon
    } else {
        ResourceKind::Types
    }
}

/// The progress rows, at most one for each resource kind.
#[derive(Debug)]
pub struct ProgressStore {
    types: Option<SyncResourceStatus>,
    moves: Option<SyncResourceStatus>,
    pokemon: Option<SyncResourceStatus>,
    items: Option<SyncResourceStatus>,
    evolution_chains: Option<SyncResourceStatus>,
    natures: Option<SyncResourceStatus>,
    abilities: Option<SyncResourceStatus>,
}

impl View for ProgressStore {
    type V = Map<ResourceKind, StatusView>;

    closed spec fn view(&self) -> Map<ResourceKind, StatusView> {
        Map::new(
            |kind: ResourceKind| self.slot(kind) is Some,
            |kind: ResourceKind| self.slot(kind)->0@,
        )
    }
}

impl ProgressStore {
    spec fn slot(&self, kind: ResourceKind) -> Option<SyncResourceStatus> {
        match kind {
            ResourceKind::Types => self.types,
            ResourceKind::Moves => self.moves,
            ResourceKind::Pokemon => self.pokemon,
            ResourceKind::Items => self.items,
            ResourceKind::EvolutionChains => self.evolution_chains,
            ResourceKind::Natures => self.natures,
            ResourceKind::Abilities => self.abilities,
        }
    }

    /// A store without any row.
    pub fn new() -> (store: Self)
        ensures
            store@ == Map::<ResourceKind, StatusView>::empty(),
    {
        let store = ProgressStore {
            types: None,
            moves: None,
            pokemon: None,
            items: None,
            evolution_chains: None,
            natures: None,
            abilities: None,
        };
        assert(store@ =~= Map::<ResourceKind, StatusView>::empty());
        store
    }

    fn put(&mut self, kind: ResourceKind, row: Option<SyncResourceStatus>)
        ensures
            final(self).slot(kind) == row,
            forall|other: ResourceKind|
                other != kind ==> final(self).slot(other) == old(self).slot(other),
    {
        match kind {
            ResourceKind::Types => {
                self.types = row;
            },
            ResourceKind::Moves => {
                self.moves = row;
            },
            ResourceKind::Pokemon => {
                self.pokemon = row;
            },
            ResourceKind::Items => {
                self.items = row;
            },
            ResourceKind::EvolutionChains => {
                self.evolution_chains = row;
            },
            ResourceKind::Natures => {
                self.natures = row;
            },
            ResourceKind::Abilities => {
                self.abilities = row;
            },
        }
    }

    /// The row of `kind`, if there is one.
    pub fn get(&self, kind: ResourceKind) -> (row: Option<&SyncResourceStatus>)
        ensures
            row is Some <==> self@.contains_key(kind),
            row is Some ==> row->0@ == self@[kind],
    {
        let slot = match kind {
            ResourceKind::Types => &self.types,
            ResourceKind::Moves => &self.moves,
            ResourceKind::Pokemon => &self.pokemon,
            ResourceKind::Items => &self.items,
            ResourceKind::EvolutionChains => &self.evolution_chains,
            ResourceKind::Natures => &self.natures,
            ResourceKind::Abilities => &self.abilities,
        };
        assert(*slot == self.slot(kind));
        slot.as_ref()
    }

    /// Writes `row` over the row of the kind that its key names, and gives
    /// the event that mirrors it. A row whose key names no kind is not
    /// written.
    pub fn update(&mut self, row: SyncResourceStatus) -> (event: Option<SyncProgressEvent>)
        ensures
            match kind_of_key(row@.resource) {
                Some(kind) => final(self)@ == old(self)@.insert(kind, row@) && event is Some
                    && event->0@ == row@,
                None => final(self)@ == old(self)@ && event is None,
            },
    {
        match ResourceKind::from_key(row.resource.as_str()) {
            Some(kind) => {
                proof {
                    let chosen = kind_of_key(row@.resource)->0;
                    lemma_keys_distinct(chosen, kind);
                }
                let event = SyncProgressEvent::of(&row);
                let ghost before = self@;
                self.put(kind, Some(row));
                assert(self@ =~= before.insert(kind, row@));
                Some(event)
            },
            None => None,
        }
    }

    /// Whether the row of `kind` says that the resource is done.
    pub fn is_resource_done(&self, kind: ResourceKind) -> (done: bool)
        ensures
            done == (self@.contains_key(kind) && self@[kind].status
                == ResourceStatus::Done.name_spec()),
    {
        match self.get(kind) {
            Some(row) => row.has_status(ResourceStatus::Done),
            None => false,
        }
    }

    /// Whether a synchronization is under way: one of the rows is `syncing`.
    pub fn is_syncing(&self) -> (syncing: bool)
        ensures
            syncing == table_is_syncing(self@),
    {
        let mut index: usize = 0;
        while index < 7
            invariant
                index <= 7,
                forall|kind: ResourceKind|
                    kind.index_spec() < index && self@.contains_key(kind) ==> (
                    #[trigger] self@[kind]).status != ResourceStatus::Syncing.name_spec(),
            decreases 7 - index,
        {
            match ResourceKind::at(index) {
                Some(kind) => {
                    match self.get(kind) {
                        Some(row) => {
                            if row.has_status(ResourceStatus::Syncing) {
                                return true;
                            }
                        },
                        None => {},
                    }
                    assert forall|other: ResourceKind|
                        other.index_spec() < index + 1 && self@.contains_key(other) implies (
                    #[trigger] self@[other]).status != ResourceStatus::Syncing.name_spec() by {
                        if other.index_spec() == index {
                            assert(other == kind);
                        }
                    }
                },
                None => {},
            }
            index += 1;
        }
        assert forall|kind: ResourceKind| self@.contains_key(kind) implies (
        #[trigger] self@[kind]).status != ResourceStatus::Syncing.name_spec() by {
            assert(kind.index_spec() < 7);
        }
        false
    }

    /// Marks every row that is `syncing` as `cancelled`.
    pub fn mark_syncing_cancelled(&mut self)
        ensures
            final(self)@ == old(self)@.map_values(|row: StatusView| settled(row)),
    {
        let ghost before = self@;
        let mut index: usize = 0;
        while index < 7
            invariant
                index <= 7,
                self@.dom() == before.dom(),
                forall|kind: ResourceKind|
                    self@.contains_key(kind) ==> #[trigger] self@[kind] == if kind.index_spec()
                        < index {
                        settled(before[kind])
                    } else {
                        before[kind]
                    },
            decreases 7 - index,
        {
            match ResourceKind::at(index) {
                Some(kind) => {
                    let ghost current = self@;
                    let renewed = match self.get(kind) {
                        Some(row) => {
                            if row.has_status(ResourceStatus::Syncing) {
                                Some(
                                    SyncResourceStatus {
                                        resource: row.resource.clone(),
                                        total: row.total,
                                        completed: row.completed,
                                        status: ResourceStatus::Cancelled.name().to_owned(),
                                        error: match &row.error {
                                            Some(e) => Some(e.clone()),
                                            None => None,
                                        },
                                    },
                                )
                            } else {
                                None
                            }
                        },
                        None => None,
                    };
                    match renewed {
                        Some(row) => {
                            self.put(kind, Some(row));
                        },
                        None => {},
                    }
                    assert(self@.dom() =~= before.dom());
                    assert forall|other: ResourceKind|
                        self@.contains_key(other) implies #[trigger] self@[other] == if other.index_spec()
                        < index + 1 {
                        settled(before[other])
                    } else {
                        before[other]
                    } by {
                        if other.index_spec() == index {
                            assert(other == kind);
                        } else {
                            assert(self@[other] == current[other]);
                        }
                    }
                },
                None => {},
            }
            index += 1;
        }
        assert forall|kind: ResourceKind| self@.contains_key(kind) implies #[trigger] self@[kind]
            == settled(before[kind]) by {
            assert(kind.index_spec() < 7);
        }
        assert(self@ =~= before.map_values(|row: StatusView| settled(row)));
    }

    /// The overall state: the rows in the order of their keys, and whether a
    /// synchronization is under way.
    pub fn status(&self) -> (status: SyncStatus)
        ensures
            views(status.resources@) == rows_upto(self@, 7),
            status.is_syncing == table_is_syncing(self@),
    {
        let mut rows: Vec<SyncResourceStatus> = Vec::new();
        let mut index: usize = 0;
        assert(views(rows@) =~= rows_upto(self@, 0));
        while index < 7
            invariant
                index <= 7,
                views(rows@) == rows_upto(self@, index as int),
            decreases 7 - index,
        {
            let kind = kind_by_key(index);
            match self.get(kind) {
                Some(row) => {
                    rows.push(row.clone());
                    assert(views(rows@) =~= rows_upto(self@, index as int).push(self@[kind]));
                },
                None => {},
            }
            index += 1;
        }
        SyncStatus { is_syncing: self.is_syncing(), resources: rows }
    }

    /// Removes every row, so that everything is synchronized anew.
    pub fn clear(&mut self)
        ensures
            final(self)@ == Map::<ResourceKind, StatusView>::empty(),
    {
        self.types = None;
        self.moves = None;
        self.pokemon = None;
        self.items = None;
        self.evolution_chains = None;
        self.natures = None;
        self.abilities = None;
        assert(self@ =~= Map::<ResourceKind, StatusView>::empty());
    }
}

} // verus!
