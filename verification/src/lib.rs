//! Per-contributor productivity metrics over a repository's pull-request
//! history.
//!
//! The crate has two halves:
//!
//! - a retriever ([`api`]) that models exhaustive, rate-limit-aware
//!   pagination over a remote collection endpoint and assembles the complete
//!   in-memory dataset, and
//! - an aggregator ([`metrics`]) of pure functions over that dataset:
//!   filtering by author and terminal state, and count / mean / median
//!   statistics whose "no applicable data" outcome is kept distinct from a
//!   computed zero.
//!
//! Network access, logging, argument parsing and report formatting are left
//! to the surrounding program; the library works on plain values.

pub mod api;
pub mod cli;
pub mod error;
pub mod metrics;
