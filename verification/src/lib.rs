//! Request validation for a cell-based execution runtime.
//!
//! Untrusted request messages arrive with every field optional. Before any
//! lifecycle action (allocate, free, start, stop) may proceed, a request is
//! converted into a validated counterpart whose fields are non-optional and
//! satisfy their domain rules. Validation is fail-fast: fields are checked in
//! declaration order and the first failure aborts the whole message, carrying
//! a field path (such as `cell.cpu_quota` or `executables[1].command`) that
//! locates the offending field.

pub mod cell;
pub mod cell_name;
pub mod command;
pub mod cpu_cpus;
pub mod cpu_quota;
pub mod executable;
pub mod executable_name;
pub mod path;
pub mod requests;
pub mod validation;
