use vstd::prelude::*;

verus! {

/// The mathematical value of a quote record.
pub ghost struct QuoteView {
    pub id: u128,
    pub book: Seq<char>,
    pub quote: Seq<char>,
    pub inserted_at: i64,
    pub updated_at: i64,
}

/// One quote record. Timestamps are microseconds since the Unix epoch (UTC);
/// the identifier is the 128-bit value of a UUID.
#[derive(Clone, Debug)]
pub struct Quote {
    id: u128,
    book: String,
    quote: String,
    inserted_at: i64,
    updated_at: i64,
}

/// The body of a create or update request.
#[derive(Clone, Debug)]
pub struct CreateQuote {
    pub book: String,
    pub quote: String,
}

impl View for Quote {
    type V = QuoteView;

    closed spec fn view(&self) -> QuoteView {
        QuoteView {
            id: self.id,
            book: self.book@,
            quote: self.quote@,
            inserted_at: self.inserted_at,
            updated_at: self.updated_at,
        }
    }
}

/// The values of a sequence of records.
pub open spec fn views(s: Seq<Quote>) -> Seq<QuoteView> {
    s.map_values(|q: Quote| q@)
}

/// Relies on uuid::Uuid::new_v4 (read back with Uuid::as_u128): a random
/// identifier whose version nibble reads 4.
#[verifier::external_body]
fn fresh_id() -> (r: u128)
    ensures
        uuid_version(r) == 4,
{
    uuid::Uuid::new_v4().as_u128()
}

/// Relies on chrono::Utc::now (read back with DateTime::timestamp_micros): the
/// current time in microseconds since the Unix epoch.
#[verifier::external_body]
fn now_micros() -> (r: i64) {
    chrono::Utc::now().timestamp_micros()
}

/// The version field of a UUID given as its 128-bit big-endian value.
pub open spec fn uuid_version(id: u128) -> u128 {
    (id >> 76u128) & 0xfu128
}

impl Quote {
    /// A record built from all of its fields, as a stored row holds them.
    pub fn from_parts(id: u128, book: String, quote: String, inserted_at: i64, updated_at: i64) -> (r: Quote)
        ensures
            r@ == (QuoteView { id, book: book@, quote: quote@, inserted_at, updated_at }),
    {
        Quote { id, book, quote, inserted_at, updated_at }
    }

    /// A new record for `book` and `quote`, created at `now` under `id`:
    /// both timestamps are `now`.
    pub fn created(id: u128, book: String, quote: String, now: i64) -> (r: Quote)
        ensures
            r@ == (QuoteView { id, book: book@, quote: quote@, inserted_at: now, updated_at: now }),
    {
        Quote { id, book, quote, inserted_at: now, updated_at: now }
    }

    /// A new record for `book` and `quote` under a freshly drawn identifier,
    /// stamped with the current time.
    pub fn new(book: String, quote: String) -> (r: Quote)
        ensures
            r@.book == book@,
            r@.quote == quote@,
            r@.inserted_at == r@.updated_at,
            uuid_version(r@.id) == 4,
    {
        let now = now_micros();
        let id = fresh_id();
        Quote::created(id, book, quote, now)
    }

    /// A copy of this record, field for field.
    pub fn duplicate(&self) -> (r: Quote)
        ensures
            r@ == self@,
    {
        Quote {
            id: self.id,
            book: self.book.clone(),
            quote: self.quote.clone(),
            inserted_at: self.inserted_at,
            updated_at: self.updated_at,
        }
    }

    pub fn id(&self) -> (r: u128)
        ensures
            r == self@.id,
    {
        self.id
    }

    pub fn book(&self) -> (r: &String)
        ensures
            r@ == self@.book,
    {
        &self.book
    }

    pub fn quote(&self) -> (r: &String)
        ensures
            r@ == self@.quote,
    {
        &self.quote
    }

    pub fn inserted_at(&self) -> (r: i64)
        ensures
            r == self@.inserted_at,
    {
        self.inserted_at
    }

    pub fn updated_at(&self) -> (r: i64)
        ensures
            r == self@.updated_at,
    {
        self.updated_at
    }
}

/// The change that an update request makes to the record under `id`.
#[derive(Clone, Debug)]
pub struct QuoteUpdate {
    pub id: u128,
    pub book: String,
    pub quote: String,
    pub updated_at: i64,
}

impl QuoteUpdate {
    /// The update of the record under `id` to `payload`, stamped at `now`.
    pub fn stamped(id: u128, payload: CreateQuote, now: i64) -> (r: QuoteUpdate)
        ensures
            r.id == id,
            r.book@ == payload.book@,
            r.quote@ == payload.quote@,
            r.updated_at == now,
    {
        QuoteUpdate { id, book: payload.book, quote: payload.quote, updated_at: now }
    }

    /// The update of the record under `id` to `payload`, stamped with the
    /// current time.
    pub fn new(id: u128, payload: CreateQuote) -> (r: QuoteUpdate)
        ensures
            r.id == id,
            r.book@ == payload.book@,
            r.quote@ == payload.quote@,
    {
        let now = now_micros();
        QuoteUpdate::stamped(id, payload, now)
    }
}

impl CreateQuote {
    pub fn new(book: String, quote: String) -> (r: CreateQuote)
        ensures
            r.book@ == book@,
            r.quote@ == quote@,
    {
        CreateQuote { book, quote }
    }
}

} // verus!
