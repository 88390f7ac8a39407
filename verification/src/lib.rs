//! Planning and bookkeeping for bulk generation of random-content files and
//! for relocating directories.
//!
//! The crate holds the rules: which files a run creates and how they are
//! named, how a file's bytes are produced chunk by chunk, how results are
//! totalled, and what a move reports. Touching the file system and the clock
//! is left to the caller.

pub mod naming;
pub mod entropy;
pub mod task;
pub mod report;
pub mod relocate;
