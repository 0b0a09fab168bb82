//! PADA: a diagnosis library for Rust programming assignments.
//!
//! The library parses compiler output, classifies errors, maps them to Rust
//! knowledge points and renders layered hints and reports.
use vstd::prelude::*;

pub mod agent;
pub mod analysis;
pub mod config;
pub mod error;
pub mod history;
pub mod memory;
pub mod models;
pub mod path;
pub mod report;
pub mod storage;
pub mod telemetry;
pub mod text;
pub mod tools;

verus! {
}
