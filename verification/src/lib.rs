//! Core of a multi-floor parking garage: sensor fusion on the floor units,
//! corridor transit resolution, and the coordinator's authoritative occupancy
//! ledger with capacity-driven open/close policy and broadcast planning.
//!
//! The surrounding hardware and network plumbing (GPIO, sockets, persistence,
//! terminal rendering) lives outside this crate; everything here works on
//! plain values and is verified.

pub mod client;
pub mod coordinator;
pub mod corridor;
pub mod floor_unit;
pub mod ledger;
pub mod parking_lot;
pub mod payloads;
pub mod protocol;
pub mod registry;
pub mod scanner;
pub mod standalone;

pub use client::ClientId;
