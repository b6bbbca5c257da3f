//! What a write statement reports back, and the kinds of write the
//! create-update-delete endpoints choose between.

use vstd::prelude::*;

verus! {

/// What the database reports of an executed write statement.
#[derive(Debug, Clone, Copy, PartialEq, Eq)]
pub struct WriteOutcome {
    pub rows_affected: u64,
    pub last_insert_rowid: i64,
}

/// The kind of write an endpoint chose: a request with an id and state 0
/// removes the record, one with an id and another state updates it, one
/// without an id creates a record.
#[derive(Debug, Clone, Copy, PartialEq, Eq)]
pub enum WriteKind {
    Remove { id: i64 },
    Update { id: i64 },
    Create,
}

/// The kind of write for a request's id and state.
pub open spec fn spec_write_kind(id: Option<i64>, state_is_zero: bool) -> WriteKind {
    match id {
        Some(i) => if state_is_zero { WriteKind::Remove { id: i } } else { WriteKind::Update { id: i } },
        None => WriteKind::Create,
    }
}

/// Chooses the kind of write for a request's id and state.
pub fn write_kind(id: Option<i64>, state_is_zero: bool) -> (k: WriteKind)
    ensures
        k == spec_write_kind(id, state_is_zero),
{
    match id {
        Some(i) => if state_is_zero { WriteKind::Remove { id: i } } else { WriteKind::Update { id: i } },
        None => WriteKind::Create,
    }
}

} // verus!
