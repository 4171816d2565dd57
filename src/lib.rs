//! Input-binding and action-resolution engine: raw per-tick input readings are
//! turned into actions with a lifecycle (idle, building up, firing) and the
//! lifecycle events that each transition produces.

pub mod state;
pub mod events;
pub mod condition;
pub mod action;
pub mod input;
pub mod context;
pub mod schedule;
