//! What is known of a serial port found on the machine.

use vstd::prelude::*;

verus! {

/// An available serial port.
#[derive(Debug, Clone, PartialEq)]
pub struct PortInfo {
    /// Port path, such as `/dev/ttyUSB0` or `COM3`.
    pub path: String,
    /// `USB`, `PCI`, `Bluetooth` or `Unknown`.
    pub port_type: String,
    pub manufacturer: Option<String>,
    pub product: Option<String>,
    pub serial_number: Option<String>,
}

} // verus!
