//! Helpers for SQLite statements.

pub mod bind;
pub mod execute;
pub mod model;
pub mod pages;
pub mod sql;
pub mod value;
