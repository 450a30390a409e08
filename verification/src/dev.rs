//! The device as a whole.

use vstd::prelude::*;
use crate::battery::Battery;
use crate::gps::NEO7M;

verus! {

/// A device: one positioning unit and one battery, each owned outright.
pub struct Device {
    /// The positioning unit, which draws on a battery of its own.
    pub gps_unit: NEO7M,
    /// The battery of the device itself.
    pub battery: Battery,
}

} // verus!
