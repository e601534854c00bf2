//! Metadata store for resumable uploads on PostgreSQL.
//!
//! The store keeps one row per upload. This library holds everything of it
//! that decides or computes, and nothing that waits:
//!
//! - [`record`] is the upload record in memory, [`row`] the row that stores
//!   it, and [`value`] the SQL values of a row's columns;
//! - [`codec`] converts between record and row, with [`json`] for the
//!   metadata column;
//! - [`statement`] builds the five SQL statements and their parameters;
//! - [`storage`] is the store itself: each of its operations begins a
//!   [`call`], which tells its caller when to take a connection and which
//!   statement to run, and turns what came of it into a reply or a typed
//!   error of [`error`];
//! - [`driver`] is what the store takes from the PostgreSQL driver without
//!   talking to a server;
//! - [`table`] states, against a table modelled as a map, what the
//!   operations amount to.
//!
//! The caller owns the pool of connections and does the I/O.

pub mod call;
pub mod codec;
pub mod driver;
pub mod error;
pub mod json;
pub mod record;
pub mod row;
pub mod statement;
pub mod storage;
pub mod table;
pub mod value;
