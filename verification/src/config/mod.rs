//! Model configuration and effort policies.
pub mod effort;
pub mod model;
pub mod wizard;
