use vstd::prelude::*;

use crate::quote::Quote;

verus! {

/// Status code of a successful request.
pub const OK: u16 = 200;

/// Status code of a successful create.
pub const CREATED: u16 = 201;

/// Status code of an update or delete that matched no record.
pub const NOT_FOUND: u16 = 404;

/// Status code of any failure of the data store.
pub const INTERNAL_SERVER_ERROR: u16 = 500;

/// A failure reported by the data store. Its cause is deliberately not kept:
/// callers learn only that the store failed.
#[derive(Clone, Copy, Debug, PartialEq, Eq, Structural)]
pub struct StoreError;

/// The status of an update or delete, from the number of rows that its
/// statement affected, or from the store's failure.
pub open spec fn rows_status(res: Result<u64, StoreError>) -> u16 {
    match res {
        Ok(n) => if n == 0 { NOT_FOUND } else { OK },
        Err(_) => INTERNAL_SERVER_ERROR,
    }
}

/// Health check: the service answers, and says it is well.
pub fn health() -> (r: u16)
    ensures
        r == OK,
{
    OK
}

/// The response to a create, given the record that was built and the
/// store's answer to its insertion: the record with `CREATED` when the
/// insertion succeeded, else `INTERNAL_SERVER_ERROR`.
pub fn create_quote(quote: Quote, inserted: Result<u64, StoreError>) -> (r: Result<(u16, Quote), u16>)
    ensures
        inserted is Ok ==> r is Ok && r->Ok_0.0 == CREATED && r->Ok_0.1@ == quote@,
        inserted is Err ==> r == Err::<(u16, Quote), u16>(INTERNAL_SERVER_ERROR),
{
    match inserted {
        Ok(_) => Ok((CREATED, quote)),
        Err(_) => Err(INTERNAL_SERVER_ERROR),
    }
}

/// The response to a listing, given the store's answer to the query: every
/// record it returned, unchanged and in its order, or `INTERNAL_SERVER_ERROR`.
pub fn read_quotes(fetched: Result<Vec<Quote>, StoreError>) -> (r: Result<Vec<Quote>, u16>)
    ensures
        fetched is Ok ==> r is Ok && r->Ok_0@ == fetched->Ok_0@,
        fetched is Err ==> r == Err::<Vec<Quote>, u16>(INTERNAL_SERVER_ERROR),
{
    match fetched {
        Ok(quotes) => Ok(quotes),
        Err(_) => Err(INTERNAL_SERVER_ERROR),
    }
}

/// The status of an update, given the number of rows that the update
/// statement affected: `NOT_FOUND` for none, `OK` otherwise.
pub fn update_quote(updated: Result<u64, StoreError>) -> (r: u16)
    ensures
        r == rows_status(updated),
{
    status_of_rows(updated)
}

/// The status of a delete, given the number of rows that the delete
/// statement removed: `NOT_FOUND` for none, `OK` otherwise.
pub fn delete_quote(deleted: Result<u64, StoreError>) -> (r: u16)
    ensures
        r == rows_status(deleted),
{
    status_of_rows(deleted)
}

fn status_of_rows(res: Result<u64, StoreError>) -> (r: u16)
    ensures
        r == rows_status(res),
{
    match res {
        Ok(n) => if n == 0 { NOT_FOUND } else { OK },
        Err(_) => INTERNAL_SERVER_ERROR,
    }
}

} // verus!
