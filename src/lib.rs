//! Per-account decision logic for an agent that keeps a game account parked
//! at, or travelling back to, a chosen island.
//!
//! Every module is pure: events come in as values, and what the agent should
//! do next comes out as values. Sending commands, reading inventories and
//! talking to the server is left to the caller.
pub mod account;
pub mod decision;
pub mod inventory;
pub mod label;
pub mod laws;
pub mod swarm;
pub mod text;
