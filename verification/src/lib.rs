//! Peer-location state, time-division radio access and LED projection for a
//! GPS- and radio-equipped wearable compass.
use vstd::prelude::*;

pub mod arduino;
pub mod battery;
pub mod lights;
pub mod location;
pub mod mutex;
pub mod network;
pub mod timers;
pub mod tdma;

verus! {

/// Capacity of the peer table, and the exclusive upper bound of peer ids.
pub const MAX_PEERS: usize = 5;

/// Number of LEDs on the display.
pub const NUM_LEDS: usize = 256;

} // verus!
