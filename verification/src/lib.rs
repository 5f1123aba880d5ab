//! Lifecycle governor for applications on a resource-constrained host.
//!
//! The library decides when a process is suspended, resumed or terminated,
//! which reclaim score a background process gets, and whether one
//! application may launch another. It performs no I/O: every handler takes
//! what was read from the outside world as plain values and returns the
//! list of effects that the caller has to carry out.
//!
//! - `state_store`: the runtime state of each tracked package.
//! - `recency`: the order in which packages went to the background.
//! - `priority`: the reclaim score of a background process.
//! - `policy`: the launch and freeze decisions.
//! - `execution_manager`: the signal that freezes or resumes a process.
//! - `logic_controller`: the governor itself.
//! - `model`: the governor as a state machine over mathematical values.
//! - `laws`: what holds of the governor whatever the events are.
//! - `config`, `events`, `effects`: what goes in and what comes out.

pub mod config;
pub mod effects;
pub mod events;
pub mod execution_manager;
pub mod laws;
pub mod logic_controller;
pub mod model;
pub mod policy;
pub mod priority;
pub mod recency;
pub mod state_store;
