//! Control core of a deterministic simulation game client.
//!
//! The crate drives the replay of a previously recorded simulation at a
//! controllable rate, samples per-subsystem state hashes so that networked
//! replicas can be checked for divergence, tracks the networking session
//! role, and carries the window and translation state that sits around
//! those mechanisms.

pub mod consistency;
pub mod i18n;
pub mod replay;
pub mod session;
pub mod sim;
pub mod text;
pub mod ui;
