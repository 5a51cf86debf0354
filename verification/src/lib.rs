//! In-memory state-coordination core for a chat-based planting game.
//!
//! The library keeps per-community and per-member state warm in memory,
//! lazily populated from a persistent store, and arbitrates
//! economically-significant actions (planting, purchases) against that
//! state under channel rules, rate limits and interactive confirmation.
//! All store and chat-network I/O lives outside this crate; the core
//! emits durable-write instructions for the surrounding process to run.

use vstd::prelude::*;

pub mod cache;
pub mod cooldown;
pub mod models;
pub mod parse;
pub mod resolver;
pub mod rules;
pub mod server;
pub mod trigger;
pub mod workflow;

verus! {

/// Seconds in eight hours: the largest accepted planting cooldown.
pub const MAX_PLANT_COOLDOWN: i16 = 28800;

} // verus!
