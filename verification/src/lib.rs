//! Core logic of a portable IoT hub module.
//!
//! The hub discovers nearby sensor devices over a short-range radio, keeps a
//! bounded registry of known devices in sync with a backend server, rotates
//! connection batches over the known devices, and relays the consolidated
//! device list to peer hubs.  All hardware and transport primitives sit behind
//! the [`system::Ffi`] capability trait; everything on this side of that
//! boundary is verified.

pub mod address;
pub mod constants;
pub mod controller;
pub mod device;
pub mod mutex;
pub mod queue;
pub mod registry;
pub mod sleep;
pub mod system;
pub mod time;
pub mod wire;
