//! The progress of the synchronization as it is written down and shown.

use crate::sync::resource::{ResourceKind, ResourceStatus};
use crate::text::text_of;
use vstd::prelude::*;

verus! {

/// The overall state of the synchronization.
#[derive(Debug, Clone)]
pub struct SyncStatus {
    pub is_syncing: bool,
    pub resources: Vec<SyncResourceStatus>,
}

/// The progress of one resource, such as `pokemon` or `moves`.
#[derive(Debug, PartialEq, Eq)]
pub struct SyncResourceStatus {
    pub resource: String,
    pub total: i64,
    pub completed: i64,
    pub status: String,
    pub error: Option<String>,
}

/// What a progress row says.
pub struct StatusView {
    pub resource: Seq<char>,
    pub total: int,
    pub completed: int,
    pub status: Seq<char>,
    pub error: Option<Seq<char>>,
}

/// The row that says that `kind` stands at `completed` of `total` in state
/// `status`.
pub open spec fn progress(
    kind: ResourceKind,
    total: int,
    completed: int,
    status: ResourceStatus,
    error: Option<Seq<char>>,
) -> StatusView {
    StatusView { resource: kind.key_spec(), total, completed, status: status.name_spec(), error }
}

/// Whether one of the rows is in state `syncing`.
pub open spec fn any_syncing(rows: Seq<SyncResourceStatus>) -> bool {
    exists|i: int| 0 <= i < rows.len() && (#[trigger] rows[i]).is(ResourceStatus::Syncing)
}

impl View for SyncResourceStatus {
    type V = StatusView;

    open spec fn view(&self) -> StatusView {
        StatusView {
            resource: self.resource@,
            total: self.total as int,
            completed: self.completed as int,
            status: self.status@,
            error: text_of(self.error),
        }
    }
}

impl Clone for SyncResourceStatus {
    fn clone(&self) -> (copy: Self)
        ensures
            copy == *self,
    {
        SyncResourceStatus {
            resource: self.resource.clone(),
            total: self.total,
            completed: self.completed,
            status: self.status.clone(),
            error: match &self.error {
                Some(e) => Some(e.clone()),
                None => None,
            },
        }
    }
}

impl SyncResourceStatus {
    /// The row that says that `kind` stands at `completed` of `total` in
    /// state `status`.
    pub fn new(
        kind: ResourceKind,
        total: i64,
        completed: i64,
        status: ResourceStatus,
        error: Option<String>,
    ) -> (row: Self)
        ensures
            row@ == progress(kind, total as int, completed as int, status, text_of(error)),
            row.error == error,
    {
        SyncResourceStatus {
            resource: kind.key().to_owned(),
            total,
            completed,
            status: status.name().to_owned(),
            error,
        }
    }

    /// Whether the row is in state `status`.
    pub open spec fn is(&self, status: ResourceStatus) -> bool {
        self.status@ == status.name_spec()
    }

    /// Whether the row is in state `status`.
    pub fn has_status(&self, status: ResourceStatus) -> (has: bool)
        ensures
            has == self.is(status),
    {
        status.is_named(self.status.as_str())
    }
}

impl SyncStatus {
    /// The overall state that the rows add up to: synchronizing exactly when
    /// one of them is.
    pub fn from_rows(rows: Vec<SyncResourceStatus>) -> (status: Self)
        ensures
            status.resources == rows,
            status.is_syncing == any_syncing(rows@),
    {
        let mut is_syncing = false;
        let mut i: usize = 0;
        while i < rows.len()
            invariant
                i <= rows.len(),
                is_syncing == any_syncing(rows@.take(i as int)),
            decreases rows.len() - i,
        {
            if rows[i].has_status(ResourceStatus::Syncing) {
                is_syncing = true;
            }
            proof {
                let before = rows@.take(i as int);
                let after = rows@.take(i + 1);
                assert(after[i as int] == rows@[i as int]);
                if any_syncing(before) {
                    let j = choose|j: int|
                        0 <= j < before.len() && (#[trigger] before[j]).is(ResourceStatus::Syncing);
                    assert(after[j] == before[j]);
                }
                if any_syncing(after) && !rows@[i as int].is(ResourceStatus::Syncing) {
                    let j = choose|j: int|
                        0 <= j < after.len() && (#[trigger] after[j]).is(ResourceStatus::Syncing);
                    assert(before[j] == after[j]);
                }
            }
            i += 1;
        }
        assert(rows@.take(rows@.len() as int) =~= rows@);
        SyncStatus { is_syncing, resources: rows }
    }
}

} // verus!
