//! The driver's error taxonomy.
use vstd::prelude::*;
use crate::bus::BusError;

verus! {

/// Everything a driver call can fail with.
#[derive(Clone, Copy, Debug)]
pub enum SoilSensErr {
    /// The capacitance register never returned a ready value within the
    /// retry budget.  The sensor handle stays valid; later calls may succeed.
    MoistureReadErr,
    /// No candidate address in the scan range yielded a verified device.
    HwNotFound,
    /// A device answered, but its identity byte (second field) did not match
    /// the expected code (first field).
    HardwareMismatch(u8, u8),
    /// The transport layer rejected the requested bus address.
    InvalidSlaveAddress(u16),
    /// An underlying bus failure, propagated unchanged.
    I2C(BusError),
}

} // verus!
