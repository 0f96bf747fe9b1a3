use quotes::handlers::{
    create_quote, delete_quote, health, read_quotes, update_quote, StoreError, CREATED,
    INTERNAL_SERVER_ERROR, NOT_FOUND, OK,
};
use quotes::quote::{CreateQuote, Quote, QuoteUpdate};
use quotes::table::QuoteTable;

// 2020-01-01T00:00:00Z in microseconds since the Unix epoch.
const JAN_2020: i64 = 1_577_836_800_000_000;

fn post(table: &mut QuoteTable, payload: CreateQuote) -> Result<(u16, Quote), u16> {
    let q = Quote::new(payload.book, payload.quote);
    let inserted = table.insert(q.clone());
    create_quote(q, inserted)
}

#[test]
fn health_is_ok() {
    assert_eq!(health(), 200);
}

#[test]
fn post_dune_returns_created_record() {
    let mut table = QuoteTable::new();
    let payload = CreateQuote::new("Dune".to_string(), "Fear is the mind-killer".to_string());
    let (status, q) = post(&mut table, payload).unwrap();
    assert_eq!(status, 201);
    assert_eq!(q.book(), "Dune");
    assert_eq!(q.quote(), "Fear is the mind-killer");
    assert_eq!(q.inserted_at(), q.updated_at());
    assert_ne!(q.id(), 0);
}

#[test]
fn list_of_empty_table_is_empty() {
    let table = QuoteTable::new();
    let listed = read_quotes(table.select_all()).unwrap();
    assert!(listed.is_empty());
}

#[test]
fn put_to_unknown_id_is_not_found() {
    let mut table = QuoteTable::new();
    let u = QuoteUpdate::new(42, CreateQuote::new("X".to_string(), "Y".to_string()));
    assert_eq!(update_quote(table.update(u)), 404);
    assert_eq!(table.len(), 0);
}

#[test]
fn delete_just_created_then_again() {
    let mut table = QuoteTable::new();
    let (_, q) = post(&mut table, CreateQuote::new("a".to_string(), "b".to_string())).unwrap();
    assert_eq!(delete_quote(table.delete(q.id())), 200);
    assert_eq!(delete_quote(table.delete(q.id())), 404);
    assert_eq!(table.len(), 0);
}

#[test]
fn delete_unknown_id_is_not_found() {
    let mut table = QuoteTable::new();
    post(&mut table, CreateQuote::new("a".to_string(), "b".to_string())).unwrap();
    assert_eq!(delete_quote(table.delete(7)), NOT_FOUND);
    assert_eq!(table.len(), 1);
}

#[test]
fn created_ids_are_distinct() {
    let mut table = QuoteTable::new();
    let (_, a) = post(&mut table, CreateQuote::new("a".to_string(), "1".to_string())).unwrap();
    let (_, b) = post(&mut table, CreateQuote::new("b".to_string(), "2".to_string())).unwrap();
    assert_ne!(a.id(), b.id());
    assert_eq!(table.len(), 2);
}

#[test]
fn insert_under_taken_id_fails_with_server_error() {
    let mut table = QuoteTable::new();
    let first = Quote::created(5, "a".to_string(), "1".to_string(), 10);
    assert_eq!(table.insert(first), Ok(1));
    let second = Quote::created(5, "b".to_string(), "2".to_string(), 20);
    let inserted = table.insert(second.clone());
    assert_eq!(inserted, Err(StoreError));
    assert_eq!(create_quote(second, inserted).unwrap_err(), INTERNAL_SERVER_ERROR);
    let listed = table.select_all().unwrap();
    assert_eq!(listed.len(), 1);
    assert_eq!(listed[0].book(), "a");
}

#[test]
fn create_then_list_gives_that_record() {
    let mut table = QuoteTable::new();
    let (_, q) = post(&mut table, CreateQuote::new("Emma".to_string(), "Badly done".to_string())).unwrap();
    let listed = read_quotes(table.select_all()).unwrap();
    assert_eq!(listed.len(), 1);
    assert_eq!(listed[0].id(), q.id());
    assert_eq!(listed[0].book(), "Emma");
    assert_eq!(listed[0].quote(), "Badly done");
    assert_eq!(listed[0].inserted_at(), q.inserted_at());
    assert_eq!(listed[0].updated_at(), q.updated_at());
}

#[test]
fn update_changes_book_quote_and_time_only() {
    let mut table = QuoteTable::new();
    assert_eq!(table.insert(Quote::created(1, "a".to_string(), "1".to_string(), 100)), Ok(1));
    assert_eq!(table.insert(Quote::created(2, "b".to_string(), "2".to_string(), 150)), Ok(1));
    let u = QuoteUpdate::stamped(1, CreateQuote::new("c".to_string(), "3".to_string()), 200);
    assert_eq!(update_quote(table.update(u)), OK);
    let listed = table.select_all().unwrap();
    assert_eq!(listed.len(), 2);
    assert_eq!(listed[0].id(), 1);
    assert_eq!(listed[0].book(), "c");
    assert_eq!(listed[0].quote(), "3");
    assert_eq!(listed[0].inserted_at(), 100);
    assert_eq!(listed[0].updated_at(), 200);
    assert_eq!(listed[1].id(), 2);
    assert_eq!(listed[1].book(), "b");
    assert_eq!(listed[1].quote(), "2");
    assert_eq!(listed[1].updated_at(), 150);
}

#[test]
fn update_stamps_a_later_time() {
    let mut table = QuoteTable::new();
    let (_, q) = post(&mut table, CreateQuote::new("a".to_string(), "b".to_string())).unwrap();
    let u = QuoteUpdate::stamped(q.id(), CreateQuote::new("c".to_string(), "d".to_string()), q.updated_at() + 1);
    assert_eq!(update_quote(table.update(u)), 200);
    let listed = table.select_all().unwrap();
    assert!(listed[0].updated_at() > q.updated_at());
    assert_eq!(listed[0].inserted_at(), q.inserted_at());
}

#[test]
fn store_failures_give_server_error() {
    assert_eq!(update_quote(Err(StoreError)), 500);
    assert_eq!(delete_quote(Err(StoreError)), 500);
    assert_eq!(read_quotes(Err(StoreError)).unwrap_err(), 500);
    let q = Quote::created(1, "a".to_string(), "b".to_string(), 0);
    assert_eq!(create_quote(q, Err(StoreError)).unwrap_err(), 500);
}

#[test]
fn row_counts_map_to_statuses() {
    assert_eq!(update_quote(Ok(0)), NOT_FOUND);
    assert_eq!(update_quote(Ok(1)), OK);
    assert_eq!(delete_quote(Ok(0)), NOT_FOUND);
    assert_eq!(delete_quote(Ok(3)), OK);
    let q = Quote::created(9, "a".to_string(), "b".to_string(), 5);
    let (status, back) = create_quote(q, Ok(1)).unwrap();
    assert_eq!(status, CREATED);
    assert_eq!(back.id(), 9);
    assert_eq!(back.updated_at(), 5);
}

#[test]
fn fresh_ids_are_version_four_uuids() {
    let q = Quote::new("a".to_string(), "b".to_string());
    assert_eq!((q.id() >> 76) & 0xf, 4);
    assert_eq!((q.id() >> 62) & 0x3, 2);
}

#[test]
fn new_records_carry_the_current_time() {
    let q = Quote::new("a".to_string(), "b".to_string());
    assert!(q.inserted_at() > JAN_2020);
    let u = QuoteUpdate::new(q.id(), CreateQuote::new("c".to_string(), "d".to_string()));
    assert!(u.updated_at >= q.updated_at());
    assert_eq!(u.book, "c");
}

#[test]
fn duplicate_and_from_parts_keep_every_field() {
    let q = Quote::from_parts(3, "a".to_string(), "b".to_string(), 10, 20);
    let r = q.duplicate();
    assert_eq!(r.id(), 3);
    assert_eq!(r.book(), "a");
    assert_eq!(r.quote(), "b");
    assert_eq!(r.inserted_at(), 10);
    assert_eq!(r.updated_at(), 20);
}
