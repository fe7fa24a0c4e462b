//! A concurrent file-processing pipeline.
//!
//! The pipeline detects newly created files in a watched directory, transforms
//! each file's content through a pluggable strategy, writes the result to an
//! output location, and removes the original. This crate holds the verified
//! core: the configuration model, the availability gate with exponential
//! backoff, the bounded hand-off queue, the per-file worker lifecycle, the
//! pluggable content-transform strategies, and the pure path and formatting
//! helpers. The surrounding process (filesystem notification, timers, async
//! task plumbing) drives these components and performs the actual I/O.

pub mod config;
pub mod dispatcher;
pub mod error;
pub mod gate;
pub mod logging;
pub mod processor;
pub mod text;
pub mod utils;
pub mod watcher;
pub mod worker;
