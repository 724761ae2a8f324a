//! A thin owner of an in-memory cursor.

use std::io::Cursor;
use vstd::prelude::*;

verus! {

#[verifier::external_type_specification]
#[verifier::external_body]
#[verifier::reject_recursive_types(T)]
pub struct ExCursor<T>(Cursor<T>);

/// A cursor that wraps an in-memory buffer.
#[verifier::reject_recursive_types(T)]
pub struct Seeker<T> {
    inner: Cursor<T>,
}

impl<T> Seeker<T> {
    /// The cursor held.
    pub closed spec fn cursor(&self) -> Cursor<T> {
        self.inner
    }

    /// Create a new instance holding `cursor`.
    pub fn new(cursor: Cursor<T>) -> (r: Self)
        ensures
            r.cursor() == cursor,
    {
        Self { inner: cursor }
    }
}

} // verus!
