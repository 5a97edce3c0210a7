//! The fixed 128-bit UUIDs of the serial-emulation GATT service: one
//! characteristic the client writes to and one the device notifies on.

use vstd::prelude::*;

verus! {

/// UUID of the service itself.
pub const NUS_SVC_UUID: u128 = 0x6E400001_B5A3_F393_E0A9_E50E24DCCA9E;

/// UUID of the characteristic the client writes to ("RX" from the
/// device's point of view).
pub const NUS_RX_CHAR_UUID: u128 = 0x6E400002_B5A3_F393_E0A9_E50E24DCCA9E;

/// UUID of the characteristic the device notifies on ("TX" from the
/// device's point of view).
pub const NUS_TX_CHAR_UUID: u128 = 0x6E400003_B5A3_F393_E0A9_E50E24DCCA9E;

} // verus!
