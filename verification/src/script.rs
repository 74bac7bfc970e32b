//! In-memory implementations of the two capability interfaces, for driving
//! the core without hardware: a transport that answers from fixed scripts
//! and a delay provider that only records.
use vstd::prelude::*;
use crate::bus::BusError;
use crate::bus::Delay;
use crate::bus::Event;
use crate::bus::Transport;

verus! {

/// A bus transport that answers from fixed reply scripts.
///
/// The i-th addressing, write, or read call is answered by the i-th entry of
/// the matching script (`None` means accept, for addressing and writes).
/// When a script runs out, addressing and writes are accepted and reads fail
/// with [`BusError::Fault`].  Scripted read bytes are truncated or padded
/// with zeros to the requested width.  The public counters say how often
/// each operation was called.
pub struct ScriptedTransport {
    addr_script: Vec<Option<BusError>>,
    write_script: Vec<Option<BusError>>,
    read_script: Vec<Result<Vec<u8>, BusError>>,
    n_addr: usize,
    n_write: usize,
    n_read: usize,
    history: Ghost<Seq<Event>>,
}

/// Reverse a vector (so scripts can be consumed from the back).
fn reversed<V>(v: Vec<V>) -> (r: Vec<V>)
    ensures
        r@.len() == v@.len(),
        forall|j: int| 0 <= j < v@.len() ==> r@[j] == v@[v@.len() - 1 - j],
{
    let mut src = v;
    let ghost init = src@;
    let mut out: Vec<V> = Vec::new();
    while src.len() > 0
        invariant
            src@ == init.subrange(0, src@.len() as int),
            out@.len() + src@.len() == init.len(),
            forall|j: int| 0 <= j < out@.len() ==> out@[j] == init[init.len() - 1 - j],
        decreases src.len(),
    {
        let x = src.pop().unwrap();
        out.push(x);
        proof {
            assert(src@ =~= init.subrange(0, src@.len() as int));
        }
    }
    out
}

impl ScriptedTransport {
    /// Build a transport from the three reply scripts, given in call order.
    pub fn new(
        addr_replies: Vec<Option<BusError>>,
        write_replies: Vec<Option<BusError>>,
        read_replies: Vec<Result<Vec<u8>, BusError>>,
    ) -> (t: ScriptedTransport)
        ensures
            t.events() == Seq::<Event>::empty(),
            t.addr_call_count() == 0,
            t.write_call_count() == 0,
            t.read_call_count() == 0,
    {
        ScriptedTransport {
            addr_script: reversed(addr_replies),
            write_script: reversed(write_replies),
            read_script: reversed(read_replies),
            n_addr: 0,
            n_write: 0,
            n_read: 0,
            history: Ghost(Seq::empty()),
        }
    }

    /// How many addressing calls have been made.
    pub closed spec fn addr_call_count(&self) -> int {
        self.n_addr as int
    }

    /// How many write calls have been made.
    pub closed spec fn write_call_count(&self) -> int {
        self.n_write as int
    }

    /// How many read calls have been made.
    pub closed spec fn read_call_count(&self) -> int {
        self.n_read as int
    }

    /// Number of addressing calls made so far.
    pub fn addr_calls(&self) -> (r: usize)
        ensures
            r == self.addr_call_count(),
    {
        self.n_addr
    }

    /// Number of write calls made so far.
    pub fn write_calls(&self) -> (r: usize)
        ensures
            r == self.write_call_count(),
    {
        self.n_write
    }

    /// Number of read calls made so far.
    pub fn read_calls(&self) -> (r: usize)
        ensures
            r == self.read_call_count(),
    {
        self.n_read
    }
}

impl Transport for ScriptedTransport {
    closed spec fn events(&self) -> Seq<Event> {
        self.history@
    }

    fn set_address(&mut self, addr: u16) -> (r: Result<(), BusError>) {
        if self.n_addr < usize::MAX {
            self.n_addr = self.n_addr + 1;
        }
        let r: Result<(), BusError> = match self.addr_script.pop() {
            Some(Some(e)) => Err(e),
            _ => Ok(()),
        };
        self.history = Ghost(self.history@.push(Event::SetAddr(addr, crate::bus::ack(r))));
        r
    }

    fn write(&mut self, bytes: &[u8]) -> (r: Result<(), BusError>) {
        if self.n_write < usize::MAX {
            self.n_write = self.n_write + 1;
        }
        let r: Result<(), BusError> = match self.write_script.pop() {
            Some(Some(e)) => Err(e),
            _ => Ok(()),
        };
        self.history = Ghost(self.history@.push(Event::Write(bytes@, crate::bus::ack(r))));
        r
    }

    fn read(&mut self, len: usize) -> (r: Result<Vec<u8>, BusError>) {
        if self.n_read < usize::MAX {
            self.n_read = self.n_read + 1;
        }
        match self.read_script.pop() {
            None => {
                self.history = Ghost(
                    self.history@.push(Event::Read(len as int, Err(BusError::Fault))),
                );
                Err(BusError::Fault)
            },
            Some(Err(e)) => {
                self.history = Ghost(self.history@.push(Event::Read(len as int, Err(e))));
                Err(e)
            },
            Some(Ok(scripted)) => {
                let mut bytes = scripted;
                while bytes.len() > len
                    decreases bytes.len(),
                {
                    let _ = bytes.pop();
                }
                while bytes.len() < len
                    invariant
                        bytes.len() <= len,
                    decreases len - bytes.len(),
                {
                    bytes.push(0u8);
                }
                self.history = Ghost(self.history@.push(Event::Read(len as int, Ok(bytes@))));
                Ok(bytes)
            },
        }
    }
}

/// A delay provider that records the requested delays and does not sleep:
/// for scripted runs, where there is no hardware to wait for.
pub struct StubDelay {
    n_calls: usize,
    history: Ghost<Seq<u16>>,
}

impl StubDelay {
    /// A fresh recording delay provider.
    pub fn new() -> (d: StubDelay)
        ensures
            d.delays() == Seq::<u16>::empty(),
            d.call_count() == 0,
    {
        StubDelay { n_calls: 0, history: Ghost(Seq::empty()) }
    }

    /// How many delay calls have been made.
    pub closed spec fn call_count(&self) -> int {
        self.n_calls as int
    }

    /// Number of delay calls made so far.
    pub fn calls(&self) -> (r: usize)
        ensures
            r == self.call_count(),
    {
        self.n_calls
    }
}

impl Delay for StubDelay {
    closed spec fn delays(&self) -> Seq<u16> {
        self.history@
    }

    fn delay_us(&mut self, us: u16) {
        if self.n_calls < usize::MAX {
            self.n_calls = self.n_calls + 1;
        }
        self.history = Ghost(self.history@.push(us));
    }
}

} // verus!
