//! Real-time command bytes. Each is sent alone, unframed, and acted on at once
//! by the firmware, which answers none of them with a line.

use vstd::prelude::*;

verus! {

/// Status report query (`?`).
pub const STATUS_QUERY: u8 = 0x3F;

/// Feed hold, pause (`!`).
pub const FEED_HOLD: u8 = 0x21;

/// Cycle start, resume (`~`).
pub const CYCLE_START: u8 = 0x7E;

/// Soft reset (ctrl-x).
pub const SOFT_RESET: u8 = 0x18;

/// Safety door.
pub const SAFETY_DOOR: u8 = 0x84;

/// Jog cancel.
pub const JOG_CANCEL: u8 = 0x85;

/// Feed override: set to 100%.
pub const FEED_OVR_RESET: u8 = 0x90;

/// Feed override: +10%.
pub const FEED_OVR_COARSE_PLUS: u8 = 0x91;

/// Feed override: -10%.
pub const FEED_OVR_COARSE_MINUS: u8 = 0x92;

/// Feed override: +1%.
pub const FEED_OVR_FINE_PLUS: u8 = 0x93;

/// Feed override: -1%.
pub const FEED_OVR_FINE_MINUS: u8 = 0x94;

/// Rapid override: set to 100%.
pub const RAPID_OVR_RESET: u8 = 0x95;

/// Rapid override: set to 50%.
pub const RAPID_OVR_HALF: u8 = 0x96;

/// Rapid override: set to 25%.
pub const RAPID_OVR_QUARTER: u8 = 0x97;

/// Spindle override: set to 100%.
pub const SPINDLE_OVR_RESET: u8 = 0x99;

/// Spindle override: +10%.
pub const SPINDLE_OVR_COARSE_PLUS: u8 = 0x9A;

/// Spindle override: -10%.
pub const SPINDLE_OVR_COARSE_MINUS: u8 = 0x9B;

/// Spindle override: +1%.
pub const SPINDLE_OVR_FINE_PLUS: u8 = 0x9C;

/// Spindle override: -1%.
pub const SPINDLE_OVR_FINE_MINUS: u8 = 0x9D;

/// Toggle spindle stop.
pub const SPINDLE_STOP_TOGGLE: u8 = 0x9E;

/// Toggle flood coolant.
pub const COOLANT_FLOOD_TOGGLE: u8 = 0xA0;

/// Toggle mist coolant.
pub const COOLANT_MIST_TOGGLE: u8 = 0xA1;

} // verus!
