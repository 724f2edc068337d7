//! A store of named connection contexts.
//!
//! A context directory holds one JSON document per named context and one
//! index document that names the default context. This library holds the
//! rules of that store: which directory entries are contexts, how a name
//! maps to a file, how a context is selected, and what each command decides
//! to do and to report. Reading and writing the directory is left to the
//! caller, who hands the library plain values and carries out what it plans.

pub mod context;
pub mod error;
pub mod names;
pub mod sanitize;
pub mod select;
pub mod commands;
pub mod laws;
