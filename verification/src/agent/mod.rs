//! The agent: interaction, progress, model prompts and model output handling.
pub mod context;
pub mod export;
pub mod interaction;
pub mod llm;
pub mod model_task;
pub mod plan;
pub mod progress;
pub mod solution;
pub mod sse;
pub mod stream;
pub mod test_analysis;
pub mod verification;
