//! Controller core for a secondary hardware display strip ("touch bar").
//!
//! The crate holds the verified logic of the controller: device-name
//! matching and the discovery retry policy, the brightness-over-time
//! state machine driven by activity and lid events, the layered
//! configuration merge with its defaulting rules, the key-layout
//! construction, and the edge-triggered watch bookkeeping.  All file,
//! device and notification I/O stays with the caller, which hands the
//! library plain values and carries out the writes it decides on.

pub mod backlight;
pub mod cfgmap;
pub mod config;
pub mod strutil;
pub mod watch;

use vstd::prelude::*;

verus! {

/// Base poll interval of the caller's event loop, in milliseconds.
/// The idle thresholds of the backlight state machine are fixed
/// multiples of it.
pub const TIMEOUT_MS: u64 = 30_000;

} // verus!
