//! Batch install and removal of packages through an external package manager:
//! the progress model, the decisions of the runner, the orchestrator and the
//! renderer, and the reports built from a finished batch.

pub mod models;
pub mod orchestrator;
pub mod progress;
pub mod renderer;
pub mod runner;
pub mod store;
pub mod text;
pub mod urls;
pub mod webhook;
