use vstd::prelude::*;

use crate::handlers::StoreError;
use crate::quote::{views, Quote, QuoteUpdate, QuoteView};

verus! {

/// Whether some row of `rows` has identifier `id`.
pub open spec fn has_id(rows: Seq<QuoteView>, id: u128) -> bool {
    exists|i: int| 0 <= i < rows.len() && rows[i].id == id
}

/// No two rows share an identifier.
pub open spec fn ids_distinct(rows: Seq<QuoteView>) -> bool {
    forall|i: int, j: int|
        0 <= i < rows.len() && 0 <= j < rows.len() && i != j ==> rows[i].id != rows[j].id
}

/// The position of the row with identifier `id`, where there is one.
pub open spec fn index_of(rows: Seq<QuoteView>, id: u128) -> int {
    choose|i: int| 0 <= i < rows.len() && rows[i].id == id
}

/// What inserting `q` reports: a key violation where its identifier is
/// taken, else one row.
pub open spec fn insert_result(rows: Seq<QuoteView>, q: QuoteView) -> Result<u64, StoreError> {
    if has_id(rows, q.id) {
        Err(StoreError)
    } else {
        Ok(1)
    }
}

/// The rows after inserting `q`: appended where its identifier is free.
pub open spec fn after_insert(rows: Seq<QuoteView>, q: QuoteView) -> Seq<QuoteView> {
    if has_id(rows, q.id) {
        rows
    } else {
        rows.push(q)
    }
}

/// How many rows an update or delete of `id` affects.
pub open spec fn rows_matching(rows: Seq<QuoteView>, id: u128) -> u64 {
    if has_id(rows, id) {
        1
    } else {
        0
    }
}

/// Record `q` with `book` and `quote` replaced and `updated_at` set to `now`.
pub open spec fn revise(q: QuoteView, book: Seq<char>, quote: Seq<char>, now: i64) -> QuoteView {
    QuoteView { book, quote, updated_at: now, ..q }
}

/// The rows after updating the record under `id`; unchanged where there is
/// none.
pub open spec fn after_update(
    rows: Seq<QuoteView>,
    id: u128,
    book: Seq<char>,
    quote: Seq<char>,
    now: i64,
) -> Seq<QuoteView> {
    if has_id(rows, id) {
        let i = index_of(rows, id);
        rows.update(i, revise(rows[i], book, quote, now))
    } else {
        rows
    }
}

/// The rows after deleting the record under `id`; unchanged where there is
/// none.
pub open spec fn after_delete(rows: Seq<QuoteView>, id: u128) -> Seq<QuoteView> {
    if has_id(rows, id) {
        rows.remove(index_of(rows, id))
    } else {
        rows
    }
}

/// Where `rows[i]` has identifier `id` and identifiers are distinct, `i` is
/// the position of `id`.
pub proof fn lemma_index_of(rows: Seq<QuoteView>, id: u128, i: int)
    requires
        ids_distinct(rows),
        0 <= i < rows.len(),
        rows[i].id == id,
    ensures
        has_id(rows, id),
        index_of(rows, id) == i,
{
    assert(has_id(rows, id));
}

/// The quotes table held in memory: each statement of the service has here
/// the effect that it has on the persisted table, keyed by identifier.
pub struct QuoteTable {
    rows: Vec<Quote>,
}

impl View for QuoteTable {
    type V = Seq<QuoteView>;

    closed spec fn view(&self) -> Seq<QuoteView> {
        views(self.rows@)
    }
}

impl QuoteTable {
    /// The table is well formed: identifiers are unique.
    pub open spec fn wf(&self) -> bool {
        ids_distinct(self@)
    }

    /// An empty table.
    pub fn new() -> (r: QuoteTable)
        ensures
            r.wf(),
            r@ == Seq::<QuoteView>::empty(),
    {
        let r = QuoteTable { rows: Vec::new() };
        assert(r@ =~= Seq::<QuoteView>::empty());
        r
    }

    /// The number of records.
    pub fn len(&self) -> (r: usize)
        ensures
            r == self@.len(),
    {
        self.rows.len()
    }

    fn find(&self, id: u128) -> (r: Option<usize>)
        ensures
            match r {
                Some(i) => i < self@.len() && self@[i as int].id == id,
                None => !has_id(self@, id),
            },
    {
        let mut i: usize = 0;
        while i < self.rows.len()
            invariant
                i <= self@.len(),
                self@.len() == self.rows@.len(),
                forall|k: int| 0 <= k < i ==> self@[k].id != id,
            decreases self.rows@.len() - i,
        {
            if self.rows[i].id() == id {
                return Some(i);
            }
            i = i + 1;
        }
        None
    }

    /// Inserts `q`; refused, with the table unchanged, where its identifier
    /// is already taken.
    pub fn insert(&mut self, q: Quote) -> (r: Result<u64, StoreError>)
        requires
            old(self).wf(),
        ensures
            final(self).wf(),
            r == insert_result(old(self)@, q@),
            final(self)@ == after_insert(old(self)@, q@),
            has_id(final(self)@, q@.id),
    {
        match self.find(q.id()) {
            Some(_) => Err(StoreError),
            None => {
                let ghost before = self@;
                let ghost qv = q@;
                self.rows.push(q);
                assert(self@ =~= before.push(qv));
                assert(self@[before.len() as int].id == qv.id);
                Ok(1)
            },
        }
    }

    /// Every record, in the table's order.
    pub fn select_all(&self) -> (r: Result<Vec<Quote>, StoreError>)
        ensures
            r is Ok,
            views(r->Ok_0@) == self@,
    {
        let mut out: Vec<Quote> = Vec::new();
        let mut i: usize = 0;
        while i < self.rows.len()
            invariant
                i <= self.rows@.len(),
                self@.len() == self.rows@.len(),
                views(out@) =~= self@.subrange(0, i as int),
            decreases self.rows@.len() - i,
        {
            let c = self.rows[i].duplicate();
            let ghost prev = out@;
            let ghost cv = c@;
            out.push(c);
            proof {
                assert(views(prev).len() == i);
                assert(prev.len() == i);
                assert(cv == self@[i as int]);
                assert forall|k: int| 0 <= k <= i implies views(out@)[k] == self@[k] by {
                    if k < i {
                        assert(views(prev)[k] == self@.subrange(0, i as int)[k]);
                    }
                }
            }
            i = i + 1;
            assert(views(out@) =~= self@.subrange(0, i as int));
        }
        assert(self@.subrange(0, self@.len() as int) =~= self@);
        Ok(out)
    }

    /// Updates the record under `u.id` to `u`'s book, quote and time;
    /// reports how many rows were affected.
    pub fn update(&mut self, u: QuoteUpdate) -> (r: Result<u64, StoreError>)
        requires
            old(self).wf(),
        ensures
            final(self).wf(),
            r == Ok::<u64, StoreError>(rows_matching(old(self)@, u.id)),
            final(self)@ == after_update(old(self)@, u.id, u.book@, u.quote@, u.updated_at),
    {
        match self.find(u.id) {
            Some(i) => {
                let ghost before = self@;
                proof {
                    lemma_index_of(before, u.id, i as int);
                }
                let inserted_at = self.rows[i].inserted_at();
                let q = Quote::from_parts(u.id, u.book, u.quote, inserted_at, u.updated_at);
                self.rows.set(i, q);
                assert(self@ =~= before.update(i as int, revise(before[i as int], u.book@, u.quote@, u.updated_at)));
                Ok(1)
            },
            None => Ok(0),
        }
    }

    /// Deletes the record under `id`; reports how many rows were removed.
    pub fn delete(&mut self, id: u128) -> (r: Result<u64, StoreError>)
        requires
            old(self).wf(),
        ensures
            final(self).wf(),
            r == Ok::<u64, StoreError>(rows_matching(old(self)@, id)),
            final(self)@ == after_delete(old(self)@, id),
    {
        match self.find(id) {
            Some(i) => {
                let ghost before = self@;
                proof {
                    lemma_index_of(before, id, i as int);
                }
                let _removed = self.rows.remove(i);
                assert(self@ =~= before.remove(i as int));
                Ok(1)
            },
            None => Ok(0),
        }
    }
}

} // verus!
