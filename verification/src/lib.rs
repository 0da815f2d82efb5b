//! A compliance scanner's engine: benchmarks made of audit commands are
//! judged from the outcomes of those commands, grouped under an all-or-any
//! policy, and turned into an ordered report with an overall verdict.
//!
//! The engine performs no input or output itself. [`scan::run_scan`] is a
//! transition function: the caller performs the action that a
//! [`scan::Scan`] is waiting for and hands back the event.

use vstd::prelude::*;

pub mod benchmark;
pub mod error;
pub mod model;
pub mod outside;
pub mod report;
pub mod scan;
pub mod success;

verus! {

/// The version of this library.
pub const VERSION: &'static str = "0.1.0";

} // verus!
