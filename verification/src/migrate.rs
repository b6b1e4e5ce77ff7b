//! Which changes of the storage layout have been made.

use vstd::prelude::*;
use crate::util::{fresh_object_id, ObjectId};

verus! {

/// The version of the storage layout that this service expects.
pub const CURRENT_VERSION: i64 = 1;

/// The record of a change of layout that was made.
#[derive(Clone, Copy, Debug)]
pub struct MigrateModel {
    pub id: ObjectId,
    pub version: i64,
}

/// The versions that a list of records holds.
pub open spec fn versions(applied: Seq<MigrateModel>) -> Set<i64> {
    Set::new(|v: i64| exists|i: int| 0 <= i < applied.len() && (#[trigger] applied[i]).version == v)
}

/// Whether the change to `version` is still to be made: no record holds it.
pub fn pending(applied: &Vec<MigrateModel>, version: i64) -> (r: bool)
    ensures
        r == !versions(applied@).contains(version),
{
    let mut i: usize = 0;
    while i < applied.len()
        invariant
            i <= applied.len(),
            forall|k: int| 0 <= k < i ==> (#[trigger] applied[k]).version != version,
        decreases applied.len() - i,
    {
        if applied[i].version == version {
            return false;
        }
        i += 1;
    }
    true
}

/// The record that the change to `version` was made, under a fresh
/// identifier.
pub fn record(version: i64) -> (model: MigrateModel)
    ensures
        model.version == version,
{
    MigrateModel { id: fresh_object_id(), version }
}

} // verus!
