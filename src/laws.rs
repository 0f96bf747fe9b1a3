use vstd::prelude::*;

use crate::handlers::{rows_status, StoreError, NOT_FOUND, OK};
use crate::quote::QuoteView;
use crate::table::{
    after_delete, after_insert, after_update, has_id, ids_distinct, index_of, insert_result,
    lemma_index_of, rows_matching,
};

verus! {

/// A record whose insertion succeeds has an identifier that no earlier
/// record holds, and identifiers stay unique afterwards.
pub proof fn lemma_created_id_is_fresh(rows: Seq<QuoteView>, q: QuoteView)
    requires
        ids_distinct(rows),
    ensures
        insert_result(rows, q) is Ok ==> forall|i: int| 0 <= i < rows.len() ==> rows[i].id != q.id,
        ids_distinct(after_insert(rows, q)),
{
}

/// After a successful insertion the listing holds the new record, unchanged,
/// after the earlier ones; listing a table that was empty gives that record
/// alone.
pub proof fn lemma_create_then_list(rows: Seq<QuoteView>, q: QuoteView)
    requires
        insert_result(rows, q) is Ok,
    ensures
        after_insert(rows, q) == rows.push(q),
        after_insert(rows, q).contains(q),
        rows.len() == 0 ==> after_insert(rows, q) == seq![q],
{
    assert(rows.push(q)[rows.len() as int] == q);
    if rows.len() == 0 {
        assert(rows.push(q) =~= seq![q]);
    }
}

/// Deleting an identifier that no record holds reports not-found and
/// changes nothing; deleting one that a record holds reports success, and
/// deleting it again reports not-found.
pub proof fn lemma_delete_twice(rows: Seq<QuoteView>, id: u128)
    requires
        ids_distinct(rows),
    ensures
        !has_id(rows, id) ==> rows_status(Ok::<u64, StoreError>(rows_matching(rows, id))) == NOT_FOUND
            && after_delete(rows, id) == rows,
        has_id(rows, id) ==> rows_status(Ok::<u64, StoreError>(rows_matching(rows, id))) == OK
            && rows_status(Ok::<u64, StoreError>(rows_matching(after_delete(rows, id), id)))
            == NOT_FOUND,
{
    if has_id(rows, id) {
        let i = index_of(rows, id);
        let rest = after_delete(rows, id);
        assert forall|k: int| 0 <= k < rest.len() implies rest[k].id != id by {
            if k < i {
                assert(rest[k] == rows[k]);
            } else {
                assert(rest[k] == rows[k + 1]);
            }
        }
    }
}

/// Updating an identifier that no record holds reports not-found and
/// creates nothing.
pub proof fn lemma_update_missing(
    rows: Seq<QuoteView>,
    id: u128,
    book: Seq<char>,
    quote: Seq<char>,
    now: i64,
)
    requires
        !has_id(rows, id),
    ensures
        rows_status(Ok::<u64, StoreError>(rows_matching(rows, id))) == NOT_FOUND,
        after_update(rows, id, book, quote, now) == rows,
        !has_id(after_update(rows, id, book, quote, now), id),
{
}

/// Updating a record at a time later than its last update reports success,
/// sets its book, quote and update time, moves its update time forward, and
/// keeps its identifier, its creation time and every other record.
pub proof fn lemma_update_existing(
    rows: Seq<QuoteView>,
    id: u128,
    book: Seq<char>,
    quote: Seq<char>,
    now: i64,
)
    requires
        ids_distinct(rows),
        has_id(rows, id),
        now > rows[index_of(rows, id)].updated_at,
    ensures
        rows_status(Ok::<u64, StoreError>(rows_matching(rows, id))) == OK,
        ({
            let i = index_of(rows, id);
            let after = after_update(rows, id, book, quote, now);
            &&& 0 <= i < rows.len()
            &&& after.len() == rows.len()
            &&& after[i].id == rows[i].id
            &&& after[i].inserted_at == rows[i].inserted_at
            &&& after[i].book == book
            &&& after[i].quote == quote
            &&& after[i].updated_at == now
            &&& after[i].updated_at > rows[i].updated_at
            &&& forall|j: int| 0 <= j < rows.len() && j != i ==> after[j] == rows[j]
            &&& ids_distinct(after)
        }),
{
    let i = index_of(rows, id);
    lemma_index_of(rows, id, i);
}

} // verus!
