//! A verified rules engine for a two-party, turn-based pebble game.
//!
//! A shared pile of pebbles shrinks each turn as each party removes between
//! one and a configured maximum; the party that removes the last pebble wins.
//! The engine validates configurations, picks the first mover from an
//! externally supplied entropy value, executes user turns, computes the
//! automated opponent's answer under one of two difficulty policies, and
//! detects the winner. All message transport and entropy gathering live
//! outside this crate: every function here is deterministic in its arguments.

pub mod game;
pub mod laws;
pub mod types;
