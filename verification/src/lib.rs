//! Telemetry pipeline for pointer and touch input: event records, the bounded
//! buffer that batches them, and the numbered submissions it hands out.

pub mod collector;
pub mod config;
pub mod devices;
pub mod event;
pub mod input;
pub mod laws;
pub mod metadata;
pub mod parse;
pub mod pipeline;
pub mod status;
pub mod utils;
