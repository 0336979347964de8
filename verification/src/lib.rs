//! Verified core of a configurable bit-width serial transfer engine.
//!
//! A dedicated sequencer drives a clock line and shifts data on two
//! independent lines (data-out and data-in) to perform synchronous serial
//! transfers of 16 to 60 bits.  The host feeds it through two bounded
//! queues of 32-bit words: an outbound fill queue and an inbound drain
//! queue.  This crate holds the host-side orchestration (configuration
//! validation, word splitting and recombination) together with a word- and
//! bit-exact model of the sequencer itself, and proves the protocol laws
//! over them: word counts, masking, clock-edge counts and the loopback
//! round trip.
use vstd::prelude::*;

pub mod config;
pub mod engine;
pub mod master;
pub mod words;

verus! {

/// Narrowest supported transfer, in bits.
pub const MIN_BIT_WIDTH: usize = 16;

/// Widest supported transfer, in bits.
pub const MAX_BIT_WIDTH: usize = 60;

/// Depth of each hardware word queue.
pub const QUEUE_DEPTH: usize = 4;

} // verus!
