//! A CPU-load generator: a configurable number of worker threads each keep
//! one logical core busy with a tight, non-yielding arithmetic loop until the
//! process is terminated from outside.
//!
//! The crate holds the two components that carry the program's logic: the
//! worker's busy loop ([`worker`]) and the coordinator that decides how many
//! workers to spawn, when to join them, and what to do when a spawn fails
//! ([`coordinator`]). Thread creation, joining and the command line are left
//! to the surrounding binary, which drives the coordinator step by step.

pub mod coordinator;
pub mod worker;
