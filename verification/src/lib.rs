//! Epoch backfill and persistence pipeline for validator classification
//! snapshots.
//!
//! The crate holds the decisions of the pipeline: extracting structured
//! fields from free-text notes, merging self-reported metrics into a
//! snapshot, walking the snapshot chain backwards, projecting per-validator
//! statistics, and planning idempotent upserts against a relational store.
//! Every operation that touches a store, a network or a clock is left to the
//! caller, which hands plain values in and carries the returned actions out.

pub mod keys;
pub mod snapshot;
pub mod stats;
pub mod assoc;
pub mod notes;
pub mod rules;
pub mod table;
pub mod persist;
pub mod names;
pub mod metrics;
pub mod backfill;
pub mod export;
