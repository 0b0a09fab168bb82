//! Error analysis: compiler output parsing, classification and hints.
pub mod classifier;
pub mod error_parser;
pub mod hint;
