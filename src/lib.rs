//! A quote service: records of a book and a quote, created, listed, updated
//! and deleted against a table keyed by identifier.

pub mod handlers;
pub mod laws;
pub mod quote;
pub mod table;
