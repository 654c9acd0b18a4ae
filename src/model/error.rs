use vstd::prelude::*;

use crate::text::{decimal_text, i64_text};

verus! {

/// What the store reported when a statement failed.
#[derive(Debug)]
pub enum StoreError {
    /// A statement expected to return a row returned none.
    RowNotFound,
    /// Any other failure (constraint, connectivity, pool timeout), with its
    /// description for diagnostics.
    Other(String),
}

/// Why a record access failed.
#[derive(Debug)]
pub enum Error2 {
    /// A single-row statement on the table found no row with the id.
    EntityNotFound(&'static str, String),
    /// Any other failure of the store, with its description for diagnostics.
    StoreFailure(String),
}

impl Error2 {
    /// The failure that a store error on a statement that is not addressed
    /// to one row stands for: it is kept as a store failure.
    pub fn from_store(e: StoreError) -> (r: Error2)
        ensures
            e matches StoreError::Other(m) ==> r == Error2::StoreFailure(m),
            e is RowNotFound ==> r matches Error2::StoreFailure(_),
    {
        match e {
            StoreError::RowNotFound => Error2::StoreFailure(String::from_str(
                "no rows returned by a query that expected to return at least one row",
            )),
            StoreError::Other(m) => Error2::StoreFailure(m),
        }
    }
}

/// Interprets the store's answer to a single-row statement against `typ`
/// for `id`: a row passes through, a missing row becomes `EntityNotFound`
/// naming the table and the id, any other error is kept as a store failure.
pub fn handle_fetch_one_result<T>(result: Result<T, StoreError>, typ: &'static str, id: i64) -> (r:
    Result<T, Error2>)
    ensures
        result matches Ok(v) ==> r == Ok::<T, Error2>(v),
        result matches Err(StoreError::RowNotFound) ==> r matches Err(Error2::EntityNotFound(t, s))
            && t == typ && s@ == decimal_text(id as int),
        result matches Err(StoreError::Other(m)) ==> r == Err::<T, Error2>(Error2::StoreFailure(m)),
{
    match result {
        Ok(v) => Ok(v),
        Err(StoreError::RowNotFound) => Err(Error2::EntityNotFound(typ, i64_text(id))),
        Err(StoreError::Other(m)) => Err(Error2::StoreFailure(m)),
    }
}

} // verus!
