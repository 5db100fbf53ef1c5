//! The logic of two status-line blocks: one that reports the active input-method
//! engine of a running IBus daemon, and one that reports a keyboard backlight.
//!
//! Everything here works on plain values. Reading the environment and files,
//! talking to the bus, threads and channels are left to the caller, which hands
//! in what it read and carries out what these functions decide.

pub mod error;
pub mod text;
pub mod address;
pub mod block;
pub mod bus;
pub mod store;
pub mod ibus;
pub mod keylight;
