//! The integrity validator: a resource that is marked done while the cache
//! holds fewer rows than it was told of is downgraded to partial.

use crate::models::sync::{StatusView, SyncResourceStatus};
use crate::sync::resource::{lemma_names_distinct, ResourceStatus};
use vstd::prelude::*;

verus! {

/// Whether the cache falls short of what the row promises: the row is marked
/// done and fewer rows are stored than its total.
pub open spec fn falls_short(row: StatusView, actual: int) -> bool {
    row.status == ResourceStatus::Done.name_spec() && actual < row.total
}

/// The row after validation against `actual` stored rows: downgraded to
/// partial with `actual` as its completed count where the cache falls short,
/// and unchanged otherwise.
pub open spec fn validated(row: StatusView, actual: int) -> StatusView {
    if falls_short(row, actual) {
        StatusView {
            resource: row.resource,
            total: row.total,
            completed: actual,
            status: ResourceStatus::Partial.name_spec(),
            error: None,
        }
    } else {
        row
    }
}

/// Compares a progress row with the number of rows that the cache holds, and
/// gives the row to write where the cache falls short.
pub fn validate_resource(row: &SyncResourceStatus, actual: i64) -> (downgraded: Option<
    SyncResourceStatus,
>)
    ensures
        downgraded is Some <==> falls_short(row@, actual as int),
        downgraded is Some ==> downgraded->0@ == validated(row@, actual as int),
        downgraded is None ==> row@ == validated(row@, actual as int),
{
    if row.has_status(ResourceStatus::Done) && actual < row.total {
        Some(
            SyncResourceStatus {
                resource: row.resource.clone(),
                total: row.total,
                completed: actual,
                status: ResourceStatus::Partial.name().to_owned(),
                error: None,
            },
        )
    } else {
        None
    }
}

/// Validation is the only place where a done resource is contradicted, and it
/// never marks anything done: a row that is done after validation was done
/// before, and the cache holds at least its total.
pub proof fn lemma_done_only_if_stored(row: StatusView, actual: int)
    ensures
        validated(row, actual).status == ResourceStatus::Done.name_spec() ==> row.status
            == ResourceStatus::Done.name_spec() && actual >= row.total && validated(row, actual)
            == row,
{
    if falls_short(row, actual) {
        if ResourceStatus::Partial.name_spec() == ResourceStatus::Done.name_spec() {
            lemma_names_distinct(ResourceStatus::Partial, ResourceStatus::Done);
        }
    }
}

/// Where the cache falls short of a done resource, validation rewrites the
/// state to partial and the completed count to the number of stored rows, and
/// keeps the total.
pub proof fn lemma_shortfall_is_partial(row: StatusView, actual: int)
    requires
        row.status == ResourceStatus::Done.name_spec(),
        actual < row.total,
    ensures
        validated(row, actual).status == ResourceStatus::Partial.name_spec(),
        validated(row, actual).completed == actual,
        validated(row, actual).total == row.total,
        validated(row, actual).resource == row.resource,
{
}

/// Validation never upgrades: it changes nothing but rows that are done.
pub proof fn lemma_never_upgrades(row: StatusView, actual: int)
    requires
        row.status != ResourceStatus::Done.name_spec(),
    ensures
        validated(row, actual) == row,
{
}

} // verus!
