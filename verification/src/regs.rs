//! Register addresses and protocol constants of the seesaw soil-moisture chip.
//!
//! A register is addressed by a two-byte selector `[base, function]`: the
//! module base address followed by the function address inside that module.
use vstd::prelude::*;

verus! {

/// Identity byte that the hardware-id register must report.
pub const SEESAW_HW_ID_CODE: u8 = 0x55;

/// Module base address of the status module.
pub const SEESAW_STATUS_BASE: u8 = 0x00;

/// Function address of the hardware-id register (1 byte wide).
pub const SEESAW_STATUS_HW_ID: u8 = 0x01;

/// Function address of the temperature register (4 bytes wide, big endian).
pub const SEESAW_STATUS_TEMP: u8 = 0x04;

/// Module base address of the touch module.
pub const SEESAW_TOUCH_BASE: u8 = 0x0F;

/// Function address of the capacitance register (2 bytes wide, big endian).
pub const SEESAW_TOUCH_CHANNEL_OFFSET: u8 = 0x10;

/// First bus address the chip may answer on.
pub const SENSOR_START_ADDR: u16 = 0x36;

/// Last bus address the chip may answer on.
pub const SENSOR_END_ADDR: u16 = 0x39;

/// Settle delay, in microseconds, that ordinary register reads give the chip
/// to latch the selected register.
pub const STD_PROCESSING_DELAY_MICROS: u16 = 125;

/// Unconditional scheduling delay, in microseconds, before every capacitance
/// probe.  It is deliberately issued as a plain delay, not as the settle
/// delay of the register read.
pub const TOUCH_PRE_DELAY_MICROS: u16 = 1000;

/// Settle delay, in microseconds, of the capacitance register, which needs a
/// longer internal conversion time than the other registers.
pub const TOUCH_SETTLE_DELAY_MICROS: u16 = 5000;

/// Number of capacitance read attempts before giving up.
pub const TOUCH_READ_ATTEMPTS: u32 = 3;

/// Reading reported by the capacitance register while a conversion is still
/// running; never a genuine reading.
pub const TOUCH_NOT_READY: u16 = 0xFFFF;

} // verus!
