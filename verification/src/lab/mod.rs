//! The training lab: headless self-play bookkeeping.
//!
//! A lab worker holds no database connection and cannot begin a transaction;
//! every write goes through the writer's channel.

pub mod runner;
pub mod sampling;

pub use runner::{BatchHandle, BatchProgress, BatchRequest, LabRunner};
pub use sampling::Sampler;
