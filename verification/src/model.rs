//! The mathematical model of the wire protocol: what one register read, one
//! discovery probe, and one capacitance attempt look like on the bus trace,
//! and what result each of them owes the caller.
use vstd::prelude::*;
use crate::bus::BusError;
use crate::bus::Event;
use crate::error::SoilSensErr;
use crate::regs::SEESAW_HW_ID_CODE;
use crate::regs::SEESAW_STATUS_BASE;
use crate::regs::SEESAW_STATUS_HW_ID;
use crate::regs::SEESAW_STATUS_TEMP;
use crate::regs::SEESAW_TOUCH_BASE;
use crate::regs::SEESAW_TOUCH_CHANNEL_OFFSET;
use crate::regs::SENSOR_START_ADDR;
use crate::regs::SENSOR_END_ADDR;
use crate::regs::STD_PROCESSING_DELAY_MICROS;
use crate::regs::TOUCH_NOT_READY;
use crate::regs::TOUCH_PRE_DELAY_MICROS;
use crate::regs::TOUCH_READ_ATTEMPTS;
use crate::regs::TOUCH_SETTLE_DELAY_MICROS;

verus! {

/// How one register read went: which step of write-then-wait-then-read
/// failed, if any, and otherwise the bytes the chip answered with.
pub enum ReadOutcome {
    /// The transport rejected the candidate address, so the register was
    /// never selected.  Only discovery probes can take this outcome.
    AddrRejected(BusError),
    /// The two-byte register selector could not be written.
    WriteFailed(BusError),
    /// The selector was written, but reading the register failed.
    ReadFailed(BusError),
    /// The register was read; these are its bytes.
    Answered(Seq<u8>),
}

/// The bytes of an `Answered` outcome.
pub open spec fn answered_bytes(o: ReadOutcome) -> Seq<u8> {
    match o {
        ReadOutcome::Answered(bytes) => bytes,
        _ => arbitrary(),
    }
}

/// Big-endian value of two bytes.
pub open spec fn be_u16(b: Seq<u8>) -> int
    recommends
        b.len() == 2,
{
    b[0] * 0x100 + b[1]
}

/// Big-endian value of four bytes, read unsigned.
pub open spec fn be_u32(b: Seq<u8>) -> int
    recommends
        b.len() == 4,
{
    b[0] * 0x100_0000 + b[1] * 0x1_0000 + b[2] * 0x100 + b[3]
}

/// Big-endian value of four bytes, read as a two's-complement 32-bit integer.
pub open spec fn be_i32(b: Seq<u8>) -> int
    recommends
        b.len() == 4,
{
    if be_u32(b) < 0x8000_0000 {
        be_u32(b)
    } else {
        be_u32(b) - 0x1_0000_0000
    }
}

/// The bytes-level view of a register read result.
pub open spec fn bytes_result(r: Result<Vec<u8>, SoilSensErr>) -> Result<Seq<u8>, SoilSensErr> {
    match r {
        Ok(v) => Ok(v@),
        Err(e) => Err(e),
    }
}

/// The bytes-level view of a single-byte register read result.
pub open spec fn byte_result(r: Result<u8, SoilSensErr>) -> Result<Seq<u8>, SoilSensErr> {
    match r {
        Ok(b) => Ok(seq![b]),
        Err(e) => Err(e),
    }
}

/// The two-byte register selector `[base, function]`.
pub open spec fn selector(reg_low: u8, reg_high: u8) -> Seq<u8> {
    seq![reg_low, reg_high]
}

/// A well-formed outcome of a plain register read of width `len`: the
/// addressing step is not part of a plain read, and an answer has exactly the
/// requested width.
pub open spec fn plain_outcome(len: int, o: ReadOutcome) -> bool {
    match o {
        ReadOutcome::AddrRejected(_) => false,
        ReadOutcome::WriteFailed(_) => true,
        ReadOutcome::ReadFailed(_) => true,
        ReadOutcome::Answered(bytes) => bytes.len() == len,
    }
}

/// The bus transactions of one register read of width `len` that went as `o`
/// says: the selector write, then, if the write was accepted, the read.
pub open spec fn outcome_events(reg_low: u8, reg_high: u8, len: int, o: ReadOutcome) -> Seq<Event> {
    match o {
        ReadOutcome::AddrRejected(_) => Seq::empty(),
        ReadOutcome::WriteFailed(e) => seq![Event::Write(selector(reg_low, reg_high), Some(e))],
        ReadOutcome::ReadFailed(e) => seq![
            Event::Write(selector(reg_low, reg_high), None),
            Event::Read(len, Err(e)),
        ],
        ReadOutcome::Answered(bytes) => seq![
            Event::Write(selector(reg_low, reg_high), None),
            Event::Read(len, Ok(bytes)),
        ],
    }
}

/// The settle delays of one register read that went as `o` says: the settle
/// delay is issued exactly when the selector write was accepted.
pub open spec fn outcome_delays(settle_us: u16, o: ReadOutcome) -> Seq<u16> {
    match o {
        ReadOutcome::AddrRejected(_) => Seq::empty(),
        ReadOutcome::WriteFailed(_) => Seq::empty(),
        ReadOutcome::ReadFailed(_) => seq![settle_us],
        ReadOutcome::Answered(_) => seq![settle_us],
    }
}

/// Full contract of one register read: how the bus and delay traces grew,
/// and that the result is the answered bytes, or the bus error wrapped
/// unchanged, with no retry at this layer.
pub open spec fn reg_read_post(
    pre: Seq<Event>,
    post: Seq<Event>,
    dpre: Seq<u16>,
    dpost: Seq<u16>,
    reg_low: u8,
    reg_high: u8,
    len: int,
    settle_us: u16,
    o: ReadOutcome,
    r: Result<Seq<u8>, SoilSensErr>,
) -> bool {
    &&& plain_outcome(len, o)
    &&& post == pre + outcome_events(reg_low, reg_high, len, o)
    &&& dpost == dpre + outcome_delays(settle_us, o)
    &&& match o {
        ReadOutcome::Answered(bytes) => r == Ok::<Seq<u8>, SoilSensErr>(bytes),
        ReadOutcome::WriteFailed(e) => r == Err::<Seq<u8>, SoilSensErr>(SoilSensErr::I2C(e)),
        ReadOutcome::ReadFailed(e) => r == Err::<Seq<u8>, SoilSensErr>(SoilSensErr::I2C(e)),
        ReadOutcome::AddrRejected(_) => false,
    }
}

/// How a bus error found while probing the identity register is classified:
/// a rejected address is its own kind, everything else stays a bus error.
pub open spec fn classify_bus_error(e: BusError) -> SoilSensErr {
    match e {
        BusError::InvalidAddress(a) => SoilSensErr::InvalidSlaveAddress(a),
        BusError::Fault => SoilSensErr::I2C(BusError::Fault),
    }
}

/// What verifying the hardware identity returns for each probe outcome: an
/// answer equal to the identity code succeeds, any other answer is a
/// hardware mismatch, and a bus failure is classified.
pub open spec fn verify_result(o: ReadOutcome) -> Result<(), SoilSensErr> {
    match o {
        ReadOutcome::Answered(bytes) => if bytes[0] == SEESAW_HW_ID_CODE {
            Ok(())
        } else {
            Err(SoilSensErr::HardwareMismatch(SEESAW_HW_ID_CODE, bytes[0]))
        },
        ReadOutcome::WriteFailed(e) => Err(classify_bus_error(e)),
        ReadOutcome::ReadFailed(e) => Err(classify_bus_error(e)),
        ReadOutcome::AddrRejected(_) => arbitrary(),
    }
}

/// Full contract of the single-address identity check: one 1-byte read of
/// the hardware-id register with the standard settle delay, and the
/// classification `verify_result` gives.
pub open spec fn channel_init_post(
    pre: Seq<Event>,
    post: Seq<Event>,
    dpre: Seq<u16>,
    dpost: Seq<u16>,
    o: ReadOutcome,
    r: Result<(), SoilSensErr>,
) -> bool {
    &&& plain_outcome(1, o)
    &&& post == pre + outcome_events(SEESAW_STATUS_BASE, SEESAW_STATUS_HW_ID, 1, o)
    &&& dpost == dpre + outcome_delays(STD_PROCESSING_DELAY_MICROS, o)
    &&& r == verify_result(o)
}

/// A well-formed outcome of one discovery probe; here the addressing step
/// may itself be rejected.
pub open spec fn probe_wf(o: ReadOutcome) -> bool {
    match o {
        ReadOutcome::Answered(bytes) => bytes.len() == 1,
        _ => true,
    }
}

/// The bus transactions of one discovery probe of candidate address `addr`:
/// the addressing step and, where it was accepted, the identity read.
pub open spec fn probe_events(addr: u16, o: ReadOutcome) -> Seq<Event> {
    match o {
        ReadOutcome::AddrRejected(e) => seq![Event::SetAddr(addr, Some(e))],
        _ => seq![Event::SetAddr(addr, None)] + outcome_events(
            SEESAW_STATUS_BASE,
            SEESAW_STATUS_HW_ID,
            1,
            o,
        ),
    }
}

/// The delays of one discovery probe.
pub open spec fn probe_delays(o: ReadOutcome) -> Seq<u16> {
    match o {
        ReadOutcome::AddrRejected(_) => Seq::empty(),
        _ => outcome_delays(STD_PROCESSING_DELAY_MICROS, o),
    }
}

/// A probe finds the device exactly when the identity register answered with
/// the identity code.
pub open spec fn probe_ok(o: ReadOutcome) -> bool {
    match o {
        ReadOutcome::Answered(bytes) => bytes.len() == 1 && bytes[0] == SEESAW_HW_ID_CODE,
        _ => false,
    }
}

/// The bus transactions of a run of probes on consecutive candidate
/// addresses starting at `first`.
pub open spec fn probes_events(first: int, os: Seq<ReadOutcome>) -> Seq<Event>
    decreases os.len(),
{
    if os.len() == 0 {
        Seq::empty()
    } else {
        probe_events(first as u16, os[0]) + probes_events(first + 1, os.drop_first())
    }
}

/// The delays of a run of probes.
pub open spec fn probes_delays(os: Seq<ReadOutcome>) -> Seq<u16>
    decreases os.len(),
{
    if os.len() == 0 {
        Seq::empty()
    } else {
        probe_delays(os[0]) + probes_delays(os.drop_first())
    }
}

/// All outcomes of a run of probes are well formed.
pub open spec fn probes_wf(os: Seq<ReadOutcome>) -> bool {
    forall|j: int| 0 <= j < os.len() ==> probe_wf(#[trigger] os[j])
}

/// Number of candidate addresses in the scan range.
pub open spec fn candidate_count() -> int {
    SENSOR_END_ADDR - SENSOR_START_ADDR + 1
}

/// Full contract of discovery: candidates are probed in ascending order from
/// `SENSOR_START_ADDR`, each at most once; the first probe that answers with
/// the identity code wins and its address is returned, later candidates are
/// never touched; if every candidate fails, all of them were probed exactly
/// once and the scan fails with `HwNotFound`.
pub open spec fn discovery_post(
    pre: Seq<Event>,
    post: Seq<Event>,
    dpre: Seq<u16>,
    dpost: Seq<u16>,
    os: Seq<ReadOutcome>,
    r: Result<u16, SoilSensErr>,
) -> bool {
    &&& probes_wf(os)
    &&& post == pre + probes_events(SENSOR_START_ADDR as int, os)
    &&& dpost == dpre + probes_delays(os)
    &&& match r {
        Ok(addr) => {
            &&& 1 <= os.len() <= candidate_count()
            &&& probe_ok(os.last())
            &&& forall|j: int| 0 <= j < os.len() - 1 ==> !probe_ok(#[trigger] os[j])
            &&& addr == SENSOR_START_ADDR + os.len() - 1
        },
        Err(e) => {
            &&& e == SoilSensErr::HwNotFound
            &&& os.len() == candidate_count()
            &&& forall|j: int| 0 <= j < os.len() ==> !probe_ok(#[trigger] os[j])
        },
    }
}

/// Discovery succeeded: some run of probes, the last one answering with the
/// identity code, took the trace from `pre` to `post` and bound an address.
pub open spec fn discovery_ok(
    pre: Seq<Event>,
    post: Seq<Event>,
    dpre: Seq<u16>,
    dpost: Seq<u16>,
) -> bool {
    exists|os: Seq<ReadOutcome>, a: u16| discovery_post(pre, post, dpre, dpost, os, Ok(a))
}

/// The identity check succeeded: one probe answering with the identity code
/// took the trace from `pre` to `post`.
pub open spec fn identity_ok(
    pre: Seq<Event>,
    post: Seq<Event>,
    dpre: Seq<u16>,
    dpost: Seq<u16>,
) -> bool {
    exists|o: ReadOutcome| channel_init_post(pre, post, dpre, dpost, o, Ok(()))
}

/// Full contract of the temperature read: one 4-byte read of the temperature
/// register with the standard settle delay, no retry, and on success the
/// big-endian two's-complement value of the four bytes.
pub open spec fn temperature_post(
    pre: Seq<Event>,
    post: Seq<Event>,
    dpre: Seq<u16>,
    dpost: Seq<u16>,
    o: ReadOutcome,
    r: Result<i32, SoilSensErr>,
) -> bool {
    &&& plain_outcome(4, o)
    &&& post == pre + outcome_events(SEESAW_STATUS_BASE, SEESAW_STATUS_TEMP, 4, o)
    &&& dpost == dpre + outcome_delays(STD_PROCESSING_DELAY_MICROS, o)
    &&& match o {
        ReadOutcome::Answered(bytes) => r matches Ok(v) && v == be_i32(bytes),
        ReadOutcome::WriteFailed(e) => r == Err::<i32, SoilSensErr>(SoilSensErr::I2C(e)),
        ReadOutcome::ReadFailed(e) => r == Err::<i32, SoilSensErr>(SoilSensErr::I2C(e)),
        ReadOutcome::AddrRejected(_) => false,
    }
}

/// The bus transactions of one capacitance attempt: a 2-byte read of the
/// capacitance register.
pub open spec fn attempt_events(o: ReadOutcome) -> Seq<Event> {
    outcome_events(SEESAW_TOUCH_BASE, SEESAW_TOUCH_CHANNEL_OFFSET, 2, o)
}

/// The delays of one capacitance attempt: the unconditional pre-delay, then
/// the long settle delay where the selector write was accepted.
pub open spec fn attempt_delays(o: ReadOutcome) -> Seq<u16> {
    seq![TOUCH_PRE_DELAY_MICROS] + outcome_delays(TOUCH_SETTLE_DELAY_MICROS, o)
}

/// An attempt yields a genuine reading exactly when the register answered
/// with a value strictly below the not-ready sentinel.
pub open spec fn attempt_good(o: ReadOutcome) -> bool {
    match o {
        ReadOutcome::Answered(bytes) => bytes.len() == 2 && be_u16(bytes) < TOUCH_NOT_READY,
        _ => false,
    }
}

/// The bus transactions of a run of capacitance attempts.
pub open spec fn attempts_events(os: Seq<ReadOutcome>) -> Seq<Event>
    decreases os.len(),
{
    if os.len() == 0 {
        Seq::empty()
    } else {
        attempt_events(os[0]) + attempts_events(os.drop_first())
    }
}

/// The delays of a run of capacitance attempts.
pub open spec fn attempts_delays(os: Seq<ReadOutcome>) -> Seq<u16>
    decreases os.len(),
{
    if os.len() == 0 {
        Seq::empty()
    } else {
        attempt_delays(os[0]) + attempts_delays(os.drop_first())
    }
}

/// All outcomes of a run of capacitance attempts are well formed.
pub open spec fn attempts_wf(os: Seq<ReadOutcome>) -> bool {
    forall|j: int| 0 <= j < os.len() ==> plain_outcome(2, #[trigger] os[j])
}

/// Full contract of the capacitance read: a bounded run of attempts, each
/// preceded by the pre-delay; a bus failure or a not-ready sentinel consumes
/// one attempt and the loop goes on; the first genuine reading is returned
/// at once; after `TOUCH_READ_ATTEMPTS` fruitless attempts the read fails
/// with `MoistureReadErr`.
pub open spec fn capacitance_post(
    pre: Seq<Event>,
    post: Seq<Event>,
    dpre: Seq<u16>,
    dpost: Seq<u16>,
    os: Seq<ReadOutcome>,
    r: Result<u16, SoilSensErr>,
) -> bool {
    &&& attempts_wf(os)
    &&& post == pre + attempts_events(os)
    &&& dpost == dpre + attempts_delays(os)
    &&& match r {
        Ok(v) => {
            &&& 1 <= os.len() <= TOUCH_READ_ATTEMPTS
            &&& attempt_good(os.last())
            &&& v == be_u16(answered_bytes(os.last()))
            &&& forall|j: int| 0 <= j < os.len() - 1 ==> !attempt_good(#[trigger] os[j])
        },
        Err(e) => {
            &&& e == SoilSensErr::MoistureReadErr
            &&& os.len() == TOUCH_READ_ATTEMPTS
            &&& forall|j: int| 0 <= j < os.len() ==> !attempt_good(#[trigger] os[j])
        },
    }
}

/// Appending one probe to a run extends its bus trace by that probe's
/// transactions, at the next candidate address.
pub proof fn lemma_probes_events_push(first: int, os: Seq<ReadOutcome>, o: ReadOutcome)
    requires
        0 <= first,
        first + os.len() <= u16::MAX,
    ensures
        probes_events(first, os.push(o)) == probes_events(first, os) + probe_events(
            (first + os.len()) as u16,
            o,
        ),
    decreases os.len(),
{
    let target = (first + os.len()) as u16;
    if os.len() == 0 {
        assert(os.push(o).drop_first() =~= Seq::<ReadOutcome>::empty());
        assert(probes_events(first + 1, os.push(o).drop_first()) == Seq::<Event>::empty());
        assert(os.push(o)[0] == o);
        assert(probes_events(first, os.push(o)) =~= probes_events(first, os) + probe_events(
            target,
            o,
        ));
    } else {
        assert(os.push(o).drop_first() =~= os.drop_first().push(o));
        lemma_probes_events_push(first + 1, os.drop_first(), o);
        assert(probes_events(first + 1, os.push(o).drop_first()) == probes_events(
            first + 1,
            os.drop_first(),
        ) + probe_events(target, o));
        assert(os.push(o)[0] == os[0]);
        assert(probes_events(first, os.push(o)) =~= probes_events(first, os) + probe_events(
            target,
            o,
        ));
    }
}

/// Appending one probe to a run extends its delay trace by that probe's
/// delays.
pub proof fn lemma_probes_delays_push(os: Seq<ReadOutcome>, o: ReadOutcome)
    ensures
        probes_delays(os.push(o)) == probes_delays(os) + probe_delays(o),
    decreases os.len(),
{
    if os.len() == 0 {
        assert(os.push(o).drop_first() =~= Seq::<ReadOutcome>::empty());
        assert(probes_delays(os.push(o).drop_first()) == Seq::<u16>::empty());
        assert(os.push(o)[0] == o);
        assert(probes_delays(os.push(o)) =~= probes_delays(os) + probe_delays(o));
    } else {
        assert(os.push(o).drop_first() =~= os.drop_first().push(o));
        lemma_probes_delays_push(os.drop_first(), o);
        assert(probes_delays(os.push(o).drop_first()) == probes_delays(os.drop_first())
            + probe_delays(o));
        assert(os.push(o)[0] == os[0]);
        assert(probes_delays(os.push(o)) =~= probes_delays(os) + probe_delays(o));
    }
}

/// Appending one attempt to a run extends its bus trace by that attempt's
/// transactions.
pub proof fn lemma_attempts_events_push(os: Seq<ReadOutcome>, o: ReadOutcome)
    ensures
        attempts_events(os.push(o)) == attempts_events(os) + attempt_events(o),
    decreases os.len(),
{
    if os.len() == 0 {
        assert(os.push(o).drop_first() =~= Seq::<ReadOutcome>::empty());
        assert(attempts_events(os.push(o).drop_first()) == Seq::<Event>::empty());
        assert(os.push(o)[0] == o);
        assert(attempts_events(os.push(o)) =~= attempts_events(os) + attempt_events(o));
    } else {
        assert(os.push(o).drop_first() =~= os.drop_first().push(o));
        lemma_attempts_events_push(os.drop_first(), o);
        assert(attempts_events(os.push(o).drop_first()) == attempts_events(os.drop_first())
            + attempt_events(o));
        assert(os.push(o)[0] == os[0]);
        assert(attempts_events(os.push(o)) =~= attempts_events(os) + attempt_events(o));
    }
}

/// Appending one attempt to a run extends its delay trace by that attempt's
/// delays.
pub proof fn lemma_attempts_delays_push(os: Seq<ReadOutcome>, o: ReadOutcome)
    ensures
        attempts_delays(os.push(o)) == attempts_delays(os) + attempt_delays(o),
    decreases os.len(),
{
    if os.len() == 0 {
        assert(os.push(o).drop_first() =~= Seq::<ReadOutcome>::empty());
        assert(attempts_delays(os.push(o).drop_first()) == Seq::<u16>::empty());
        assert(os.push(o)[0] == o);
        assert(attempts_delays(os.push(o)) =~= attempts_delays(os) + attempt_delays(o));
    } else {
        assert(os.push(o).drop_first() =~= os.drop_first().push(o));
        lemma_attempts_delays_push(os.drop_first(), o);
        assert(attempts_delays(os.push(o).drop_first()) == attempts_delays(os.drop_first())
            + attempt_delays(o));
        assert(os.push(o)[0] == os[0]);
        assert(attempts_delays(os.push(o)) =~= attempts_delays(os) + attempt_delays(o));
    }
}

} // verus!
