//! Paging, selection and mutation helpers for SQLite statements with
//! dynamically typed parameters.
//!
//! The crate performs no I/O. It decides what has to be sent to the store and
//! what a call yields once the store has answered; running a statement is left
//! to the caller.

pub mod sqlite;
