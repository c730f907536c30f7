//! Detection-and-presence monitor for an emulator game.
//!
//! The crate watches the OS process table for a known emulator, decides on a
//! fixed cadence whether the game is running (with start/stop cooldowns that
//! absorb scan flicker), and mirrors that state to a chat-presence service.
//! The detection policy, the observation record with its bounded log ring,
//! and the presence-client bookkeeping are verified; OS queries, the IPC
//! transport and the clock are reached through narrow trusted wrappers.

pub mod config;
pub mod text;
pub mod app;
pub mod scan;
pub mod presence;
pub mod engine;
