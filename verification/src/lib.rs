//! Counts the tokens that a text tokenizer assigns to the files matched by a
//! glob pattern, and aggregates per-file counts into a reported total.
//!
//! The pipeline is: pattern expansion, per-file tokenization, aggregation.
//! File reading and the printed report live with the caller; this crate holds
//! the verified logic on plain values.

pub mod engine;
pub mod pattern;
pub mod summary;
pub mod tokenizer;
