//! The two capability interfaces the driver core is built against: an
//! addressed byte-buffer bus transport and a blocking microsecond delay.
//!
//! Each handle carries a ghost trace of everything that has been asked of it.
//! The driver's contracts are stated over these traces, so both the traffic a
//! call issues and how its result follows from the bus's replies are pinned
//! down, whatever the replies are.
use vstd::prelude::*;

verus! {

/// A failure reported by the underlying bus transport.
#[derive(Clone, Copy, Debug)]
pub enum BusError {
    /// The transport rejected the requested device address.
    InvalidAddress(u16),
    /// Any other bus-level fault: NACK, busy bus, generic I/O error.
    Fault,
}

/// One completed transaction of a bus transport, oldest first in the trace.
pub enum Event {
    /// The transport was pointed at device `addr`; `None` means the address
    /// was accepted, `Some` carries the failure.
    SetAddr(u16, Option<BusError>),
    /// The given bytes were written to the addressed device; `None` means
    /// the write was accepted.
    Write(Seq<u8>, Option<BusError>),
    /// A read of the given width was issued to the addressed device; on
    /// success the bytes that came back are recorded.
    Read(int, Result<Seq<u8>, BusError>),
}

/// The trace view of an acknowledgement-only result: `None` for success,
/// the failure otherwise.
pub open spec fn ack(r: Result<(), BusError>) -> Option<BusError> {
    match r {
        Ok(_) => None,
        Err(e) => Some(e),
    }
}

/// An addressed byte-buffer bus transport (two-wire, I2C style).
///
/// `events` is the ghost trace of every transaction issued through the
/// handle; each method appends exactly one entry.  Nothing is promised about
/// the replies themselves: the bus decides, and the driver is verified for
/// every outcome.
pub trait Transport: Sized {
    /// Ghost trace of all transactions issued so far.  Implementations
    /// outside the verifier's reach leave it at the default, about which
    /// nothing is known.
    open spec fn events(&self) -> Seq<Event> {
        arbitrary()
    }

    /// Point the transport at the device with bus address `addr`.
    fn set_address(&mut self, addr: u16) -> (r: Result<(), BusError>)
        ensures
            final(self).events() == old(self).events().push(Event::SetAddr(addr, ack(r))),
    ;

    /// Write all of `bytes` to the currently addressed device.
    fn write(&mut self, bytes: &[u8]) -> (r: Result<(), BusError>)
        ensures
            final(self).events() == old(self).events().push(Event::Write(bytes@, ack(r))),
    ;

    /// Read exactly `len` bytes from the currently addressed device.
    fn read(&mut self, len: usize) -> (r: Result<Vec<u8>, BusError>)
        ensures
            match r {
                Ok(bytes) => bytes@.len() == len && final(self).events() == old(self).events().push(
                    Event::Read(len as int, Ok(bytes@)),
                ),
                Err(e) => final(self).events() == old(self).events().push(
                    Event::Read(len as int, Err(e)),
                ),
            },
    ;
}

/// A blocking microsecond-granularity delay provider.  It cannot fail; the
/// ghost trace records every delay issued, in order.
pub trait Delay: Sized {
    /// Ghost trace of every delay issued so far, in microseconds.
    /// Implementations outside the verifier's reach leave it at the
    /// default, about which nothing is known.
    open spec fn delays(&self) -> Seq<u16> {
        arbitrary()
    }

    /// Block the calling thread for `us` microseconds.
    fn delay_us(&mut self, us: u16)
        ensures
            final(self).delays() == old(self).delays().push(us),
    ;
}

} // verus!
