//! Engine of a runtime-version manager: release catalog filtering, local
//! install scanning, active-version tracking, download progress and
//! removal decisions, each stated over plain values.

pub mod active;
pub mod config;
pub mod error;
pub mod install;
pub mod node;
pub mod remove;
pub mod state;
pub mod status;
pub mod text;
pub mod version;
