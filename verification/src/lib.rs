//! Core of a netstat-style socket listing tool.
//!
//! The library takes a point-in-time snapshot of socket records (obtained by
//! the surrounding binary from the operating system), joins each record to the
//! name of its owning process, filters the records against a user-chosen
//! configuration, and turns the survivors into numbered display rows that are
//! rendered as a table.

pub mod model;
pub mod text;
pub mod names;
pub mod filter;
pub mod rows;
pub mod render;
