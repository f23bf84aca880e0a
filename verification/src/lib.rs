//! Core of a blockchain data-ingestion and serving node.
//!
//! The library models the canonical chain, assigns output sequence numbers to
//! inputs from many streams, drives the ingestion and compaction state
//! machines, and compiles and evaluates block filters.

use vstd::prelude::*;

pub mod chain;
pub mod filter;
pub mod ingestion;
pub mod inspect;
pub mod query;
pub mod segment;
pub mod sequencer;
pub mod stream;

verus! {

} // verus!
