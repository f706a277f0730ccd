//! Persistent metadata store at the core of a C/C++ binding generator.
//!
//! The store accumulates declaration facts discovered by independent
//! producers (a header parser and several synthesizers), merges repeated
//! runs into one deduplicated, append-only record per logical declaration,
//! records per-environment checker outcomes for generated wrapper
//! functions, and renders a diagnostic report of the accumulated state.

pub mod checker;
pub mod database;
pub mod facts;
pub mod laws;
pub mod report;
pub mod text;
