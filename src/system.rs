//! System commands: `$`-prefixed lines, answered with `ok` or `error:<n>`.

use vstd::prelude::*;

verus! {

/// Homing cycle.
pub const HOME: &'static str = "$H";

/// Unlock after an alarm.
pub const UNLOCK: &'static str = "$X";

/// View settings.
pub const VIEW_SETTINGS: &'static str = "$$";

/// View the G-code parser state.
pub const VIEW_GCODE_STATE: &'static str = "$G";

/// View build info.
pub const VIEW_BUILD_INFO: &'static str = "$I";

/// View startup blocks.
pub const VIEW_STARTUP_BLOCKS: &'static str = "$N";

/// Toggle G-code check mode (dry run).
pub const CHECK_MODE: &'static str = "$C";

} // verus!
