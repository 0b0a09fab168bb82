//! Deterministic tools: compiler command lines, and judging test runs.
pub mod compiler;
pub mod process;
pub mod runner;
pub mod test_gen;
