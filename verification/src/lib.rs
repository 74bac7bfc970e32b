//! Verified driver core for a capacitive soil-moisture sensor chip spoken to
//! over a two-wire serial bus.
//!
//! The crate covers the device discovery handshake, the register read
//! protocol with its settle delays, the temperature conversion, and the
//! bounded retry loop around the noisy capacitance register.  The bus
//! transport and the microsecond delay are capability interfaces
//! ([`Transport`], [`Delay`]); every contract is stated over the ghost trace
//! of transactions they record, so each reading is pinned down as a function
//! of what the bus replied.
use vstd::prelude::*;

pub mod bus;
pub mod error;
pub mod laws;
pub mod model;
pub mod regs;
pub mod script;
pub mod sensor;

verus! {

pub use crate::bus::BusError;
pub use crate::bus::Delay;
pub use crate::bus::Event;
pub use crate::bus::Transport;
pub use crate::error::SoilSensErr;
pub use crate::regs::SEESAW_HW_ID_CODE;
pub use crate::script::ScriptedTransport;
pub use crate::script::StubDelay;
pub use crate::sensor::SoilSensor;
pub use crate::sensor::channel_init;

} // verus!
