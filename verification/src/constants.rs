//! Fixed sizing limits of the hub.

use vstd::prelude::*;

verus! {

/// The longest name a short-range radio device can carry, in bytes.
pub const MAX_BLE_SIZE_IN_BYTES: usize = 29;

/// Capacity of the device registry.
pub const MAX_DEVICES: usize = 64;

/// Capacity of the found-address set of one discovery session.
pub const MAX_FOUND_DEVICES: usize = 64;

/// Hard limit on the number of devices connected to in one batch cycle.
pub const MAX_CONNECTED_DEVICES: usize = 4;

} // verus!
