//! The driver core: the register read primitive, device discovery, and the
//! temperature and capacitance readers.
use vstd::prelude::*;
use crate::bus::BusError;
use crate::bus::Delay;
use crate::bus::Event;
use crate::bus::Transport;
use crate::error::SoilSensErr;
use crate::model::ReadOutcome;
use crate::model::answered_bytes;
use crate::model::attempt_delays;
use crate::model::attempt_events;
use crate::model::attempt_good;
use crate::model::attempts_delays;
use crate::model::attempts_events;
use crate::model::attempts_wf;
use crate::model::be_i32;
use crate::model::byte_result;
use crate::model::bytes_result;
use crate::model::be_u16;
use crate::model::be_u32;
use crate::model::candidate_count;
use crate::model::capacitance_post;
use crate::model::channel_init_post;
use crate::model::discovery_ok;
use crate::model::discovery_post;
use crate::model::identity_ok;
use crate::model::lemma_attempts_delays_push;
use crate::model::lemma_attempts_events_push;
use crate::model::lemma_probes_delays_push;
use crate::model::lemma_probes_events_push;
use crate::model::outcome_delays;
use crate::model::outcome_events;
use crate::model::plain_outcome;
use crate::model::probe_delays;
use crate::model::probe_events;
use crate::model::probe_ok;
use crate::model::probes_delays;
use crate::model::probes_events;
use crate::model::probes_wf;
use crate::model::reg_read_post;
use crate::model::selector;
use crate::model::temperature_post;
use crate::model::verify_result;
use crate::regs::SEESAW_HW_ID_CODE;
use crate::regs::SEESAW_STATUS_BASE;
use crate::regs::SEESAW_STATUS_HW_ID;
use crate::regs::SEESAW_STATUS_TEMP;
use crate::regs::SEESAW_TOUCH_BASE;
use crate::regs::SEESAW_TOUCH_CHANNEL_OFFSET;
use crate::regs::SENSOR_START_ADDR;
use crate::regs::SENSOR_END_ADDR;
use crate::regs::STD_PROCESSING_DELAY_MICROS;
use crate::regs::TOUCH_NOT_READY;
use crate::regs::TOUCH_PRE_DELAY_MICROS;
use crate::regs::TOUCH_READ_ATTEMPTS;
use crate::regs::TOUCH_SETTLE_DELAY_MICROS;

verus! {

/// The register read primitive every reader shares: write the two-byte
/// selector `[reg_low, reg_high]`, block for `settle_us` microseconds so the
/// chip can latch the register, then read `len` bytes.  A bus error from
/// either step aborts the read and is propagated unchanged; there is no
/// retry at this layer.
fn reg_read<T: Transport, D: Delay>(
    chan: &mut T,
    delay: &mut D,
    reg_low: u8,
    reg_high: u8,
    len: usize,
    settle_us: u16,
) -> (r: Result<Vec<u8>, SoilSensErr>)
    ensures
        exists|o: ReadOutcome|
            reg_read_post(
                old(chan).events(),
                final(chan).events(),
                old(delay).delays(),
                final(delay).delays(),
                reg_low,
                reg_high,
                len as int,
                settle_us,
                o,
                bytes_result(r),
            ),
{
    let sel: [u8; 2] = [reg_low, reg_high];
    proof {
        assert(sel@ =~= selector(reg_low, reg_high));
    }
    match chan.write(sel.as_slice()) {
        Err(e) => {
            proof {
                let o = ReadOutcome::WriteFailed(e);
                assert(chan.events() =~= old(chan).events() + outcome_events(
                    reg_low,
                    reg_high,
                    len as int,
                    o,
                ));
                assert(delay.delays() =~= old(delay).delays() + outcome_delays(settle_us, o));
                assert(reg_read_post(
                    old(chan).events(),
                    chan.events(),
                    old(delay).delays(),
                    delay.delays(),
                    reg_low,
                    reg_high,
                    len as int,
                    settle_us,
                    o,
                    Err(SoilSensErr::I2C(e)),
                ));
            }
            return Err(SoilSensErr::I2C(e));
        },
        Ok(()) => {},
    }
    let ghost es_mid = chan.events();
    proof {
        assert(es_mid == old(chan).events().push(Event::Write(sel@, None)));
    }
    delay.delay_us(settle_us);
    match chan.read(len) {
        Err(e) => {
            proof {
                let o = ReadOutcome::ReadFailed(e);
                assert(chan.events() =~= old(chan).events() + outcome_events(
                    reg_low,
                    reg_high,
                    len as int,
                    o,
                ));
                assert(delay.delays() =~= old(delay).delays() + outcome_delays(settle_us, o));
                assert(reg_read_post(
                    old(chan).events(),
                    chan.events(),
                    old(delay).delays(),
                    delay.delays(),
                    reg_low,
                    reg_high,
                    len as int,
                    settle_us,
                    o,
                    Err(SoilSensErr::I2C(e)),
                ));
            }
            Err(SoilSensErr::I2C(e))
        },
        Ok(bytes) => {
            proof {
                let o = ReadOutcome::Answered(bytes@);
                assert(chan.events() =~= old(chan).events() + outcome_events(
                    reg_low,
                    reg_high,
                    len as int,
                    o,
                ));
                assert(delay.delays() =~= old(delay).delays() + outcome_delays(settle_us, o));
                assert(reg_read_post(
                    old(chan).events(),
                    chan.events(),
                    old(delay).delays(),
                    delay.delays(),
                    reg_low,
                    reg_high,
                    len as int,
                    settle_us,
                    o,
                    Ok(bytes@),
                ));
            }
            Ok(bytes)
        },
    }
}

/// Probe the hardware-id register of the currently addressed device and
/// return the identity byte it answers with.
fn try_read_chan<T: Transport, D: Delay>(chan: &mut T, delay: &mut D) -> (r: Result<
    u8,
    SoilSensErr,
>)
    ensures
        exists|o: ReadOutcome|
            reg_read_post(
                old(chan).events(),
                final(chan).events(),
                old(delay).delays(),
                final(delay).delays(),
                SEESAW_STATUS_BASE,
                SEESAW_STATUS_HW_ID,
                1,
                STD_PROCESSING_DELAY_MICROS,
                o,
                byte_result(r),
            ),
{
    match reg_read(
        chan,
        delay,
        SEESAW_STATUS_BASE,
        SEESAW_STATUS_HW_ID,
        1,
        STD_PROCESSING_DELAY_MICROS,
    ) {
        Ok(buffer) => {
            proof {
                let o = choose|o: ReadOutcome|
                    reg_read_post(
                        old(chan).events(),
                        chan.events(),
                        old(delay).delays(),
                        delay.delays(),
                        SEESAW_STATUS_BASE,
                        SEESAW_STATUS_HW_ID,
                        1,
                        STD_PROCESSING_DELAY_MICROS,
                        o,
                        Ok(buffer@),
                    );
                assert(buffer@.len() == 1);
            }
            let b = buffer[0];
            proof {
                assert(buffer@ =~= seq![b]);
            }
            Ok(b)
        },
        Err(e) => Err(e),
    }
}

/// Check that the device the transport is currently addressed to is the
/// expected chip: read its identity byte once and classify the answer.
/// An identity byte equal to [`SEESAW_HW_ID_CODE`] succeeds; any other byte
/// is a [`SoilSensErr::HardwareMismatch`]; a rejected address is surfaced as
/// [`SoilSensErr::InvalidSlaveAddress`]; any other bus failure stays a
/// [`SoilSensErr::I2C`].
pub fn channel_init<D: Delay, T: Transport>(delay: &mut D, chan: &mut T) -> (r: Result<
    (),
    SoilSensErr,
>)
    ensures
        exists|o: ReadOutcome|
            channel_init_post(
                old(chan).events(),
                final(chan).events(),
                old(delay).delays(),
                final(delay).delays(),
                o,
                r,
            ),
{
    match try_read_chan(chan, delay) {
        Ok(resp) => {
            let ghost o = choose|o: ReadOutcome|
                reg_read_post(
                    old(chan).events(),
                    chan.events(),
                    old(delay).delays(),
                    delay.delays(),
                    SEESAW_STATUS_BASE,
                    SEESAW_STATUS_HW_ID,
                    1,
                    STD_PROCESSING_DELAY_MICROS,
                    o,
                    Ok(seq![resp]),
                );
            proof {
                assert(o matches ReadOutcome::Answered(bytes) && bytes == seq![resp]);
                assert(answered_bytes(o)[0] == resp);
            }
            if resp != SEESAW_HW_ID_CODE {
                proof {
                    assert(channel_init_post(
                        old(chan).events(),
                        chan.events(),
                        old(delay).delays(),
                        delay.delays(),
                        o,
                        Err(SoilSensErr::HardwareMismatch(SEESAW_HW_ID_CODE, resp)),
                    ));
                }
                Err(SoilSensErr::HardwareMismatch(SEESAW_HW_ID_CODE, resp))
            } else {
                proof {
                    assert(channel_init_post(
                        old(chan).events(),
                        chan.events(),
                        old(delay).delays(),
                        delay.delays(),
                        o,
                        Ok(()),
                    ));
                }
                Ok(())
            }
        },
        Err(e) => {
            let r = match e {
                SoilSensErr::I2C(BusError::InvalidAddress(adr)) => Err(
                    SoilSensErr::InvalidSlaveAddress(adr),
                ),
                _ => Err(e),
            };
            proof {
                let o = choose|o: ReadOutcome|
                    reg_read_post(
                        old(chan).events(),
                        chan.events(),
                        old(delay).delays(),
                        delay.delays(),
                        SEESAW_STATUS_BASE,
                        SEESAW_STATUS_HW_ID,
                        1,
                        STD_PROCESSING_DELAY_MICROS,
                        o,
                        Err(e),
                    );
                assert(channel_init_post(
                    old(chan).events(),
                    chan.events(),
                    old(delay).delays(),
                    delay.delays(),
                    o,
                    r,
                ));
            }
            r
        },
    }
}

/// A soil-moisture sensor bound to one verified bus address.  It exclusively
/// owns its transport and its delay provider; the only operations it exposes
/// are the two readers.
pub struct SoilSensor<T: Transport, D: Delay> {
    channel: T,
    delay: D,
}

impl<T: Transport, D: Delay> SoilSensor<T, D> {
    /// The ghost trace of every bus transaction this sensor's transport has
    /// ever carried, discovery included.
    pub closed spec fn events(&self) -> Seq<Event> {
        self.channel.events()
    }

    /// The ghost trace of every delay this sensor's delay provider has
    /// issued.
    pub closed spec fn delays(&self) -> Seq<u16> {
        self.delay.delays()
    }

    /// The discovery scan: probe each candidate address in ascending order
    /// over `[SENSOR_START_ADDR, SENSOR_END_ADDR]`; the first candidate
    /// whose identity byte matches wins and no further candidate is probed;
    /// every per-candidate failure moves on to the next candidate; when the
    /// range is exhausted the scan fails with [`SoilSensErr::HwNotFound`].
    pub fn scan(delay: &mut D, channel: &mut T) -> (r: Result<u16, SoilSensErr>)
        ensures
            exists|os: Seq<ReadOutcome>|
                discovery_post(
                    old(channel).events(),
                    final(channel).events(),
                    old(delay).delays(),
                    final(delay).delays(),
                    os,
                    r,
                ),
    {
        let mut adr: u16 = SENSOR_START_ADDR;
        let ghost mut os: Seq<ReadOutcome> = Seq::empty();
        proof {
            assert(channel.events() =~= old(channel).events() + probes_events(
                SENSOR_START_ADDR as int,
                os,
            ));
            assert(delay.delays() =~= old(delay).delays() + probes_delays(os));
        }
        while adr <= SENSOR_END_ADDR
            invariant
                SENSOR_START_ADDR <= adr <= SENSOR_END_ADDR + 1,
                os.len() == adr - SENSOR_START_ADDR,
                probes_wf(os),
                forall|j: int| 0 <= j < os.len() ==> !probe_ok(#[trigger] os[j]),
                channel.events() == old(channel).events() + probes_events(
                    SENSOR_START_ADDR as int,
                    os,
                ),
                delay.delays() == old(delay).delays() + probes_delays(os),
            decreases SENSOR_END_ADDR + 1 - adr,
        {
            let ghost pre_es = channel.events();
            let ghost pre_ds = delay.delays();
            let ghost prev_os = os;
            match channel.set_address(adr) {
                Err(e) => {
                    proof {
                        let o = ReadOutcome::AddrRejected(e);
                        lemma_probes_events_push(SENSOR_START_ADDR as int, os, o);
                        lemma_probes_delays_push(os, o);
                        assert(probe_events(adr, o) =~= seq![Event::SetAddr(adr, Some(e))]);
                        assert(channel.events() =~= pre_es + probe_events(adr, o));
                        assert(delay.delays() =~= pre_ds + probe_delays(o));
                        os = os.push(o);
                        assert(forall|j: int|
                            0 <= j < prev_os.len() ==> #[trigger] os[j] == prev_os[j]);
                        assert(channel.events() =~= old(channel).events() + probes_events(
                            SENSOR_START_ADDR as int,
                            os,
                        ));
                        assert(delay.delays() =~= old(delay).delays() + probes_delays(os));
                    }
                },
                Ok(_) => {
                    let ghost mid_es = channel.events();
                    let cr = channel_init(delay, channel);
                    proof {
                        let o = choose|o: ReadOutcome|
                            channel_init_post(
                                mid_es,
                                channel.events(),
                                pre_ds,
                                delay.delays(),
                                o,
                                cr,
                            );
                        lemma_probes_events_push(SENSOR_START_ADDR as int, os, o);
                        lemma_probes_delays_push(os, o);
                        assert(probe_events(adr, o) =~= seq![Event::SetAddr(adr, None)]
                            + outcome_events(SEESAW_STATUS_BASE, SEESAW_STATUS_HW_ID, 1, o));
                        assert(channel.events() =~= pre_es + probe_events(adr, o));
                        assert(delay.delays() =~= pre_ds + probe_delays(o));
                        os = os.push(o);
                        assert(forall|j: int|
                            0 <= j < prev_os.len() ==> #[trigger] os[j] == prev_os[j]);
                        assert(channel.events() =~= old(channel).events() + probes_events(
                            SENSOR_START_ADDR as int,
                            os,
                        ));
                        assert(delay.delays() =~= old(delay).delays() + probes_delays(os));
                        assert(os.last() == o);
                        if cr is Ok {
                            assert(probe_ok(o));
                        } else {
                            assert(!probe_ok(o));
                        }
                    }
                    if cr.is_ok() {
                        proof {
                            assert(probes_wf(os));
                            assert(forall|j: int|
                                0 <= j < os.len() - 1 ==> !probe_ok(#[trigger] os[j]));
                            assert(adr == SENSOR_START_ADDR + os.len() - 1);
                            assert(discovery_post(
                                old(channel).events(),
                                channel.events(),
                                old(delay).delays(),
                                delay.delays(),
                                os,
                                Ok(adr),
                            ));
                        }
                        return Ok(adr);
                    }
                },
            }
            adr = adr + 1;
        }
        proof {
            assert(os.len() == candidate_count());
            assert(discovery_post(
                old(channel).events(),
                channel.events(),
                old(delay).delays(),
                delay.delays(),
                os,
                Err(SoilSensErr::HwNotFound),
            ));
        }
        Err(SoilSensErr::HwNotFound)
    }

    /// Discover the sensor: run the scan and, on the single success path,
    /// bind the transport and the delay provider into a sensor handle.  On
    /// failure nothing is partially bound; discovery is one-shot.
    pub fn init(delay: D, channel: T) -> (r: Result<Self, SoilSensErr>)
        ensures
            r matches Ok(s) ==> discovery_ok(
                channel.events(),
                s.events(),
                delay.delays(),
                s.delays(),
            ),
            r matches Err(e) ==> e == SoilSensErr::HwNotFound,
    {
        let ghost es0 = channel.events();
        let ghost ds0 = delay.delays();
        let mut chan = channel;
        let mut del = delay;
        let r = Self::scan(&mut del, &mut chan);
        let ghost es1 = chan.events();
        let ghost ds1 = del.delays();
        let ghost os = choose|os: Seq<ReadOutcome>| discovery_post(es0, es1, ds0, ds1, os, r);
        match r {
            Ok(adr) => {
                let s = SoilSensor { channel: chan, delay: del };
                proof {
                    assert(s.events() == es1 && s.delays() == ds1);
                    assert(discovery_post(es0, s.events(), ds0, s.delays(), os, Ok(adr)));
                    assert(discovery_ok(es0, s.events(), ds0, s.delays()));
                }
                Ok(s)
            },
            Err(e) => {
                proof {
                    assert(e == SoilSensErr::HwNotFound);
                }
                Err(e)
            },
        }
    }

    /// Create a sensor from an already addressed transport (for callers
    /// behind a bus multiplexer): run only the identity check, with the
    /// same classification as one discovery probe, and surface its failure
    /// directly instead of scanning on.
    pub fn init_with_channel(delay: D, channel: T) -> (r: Result<Self, SoilSensErr>)
        ensures
            r matches Ok(s) ==> identity_ok(
                channel.events(),
                s.events(),
                delay.delays(),
                s.delays(),
            ),
            r matches Err(e) ==> exists|o: ReadOutcome|
                plain_outcome(1, o) && verify_result(o) == Err::<(), SoilSensErr>(e),
    {
        let ghost es0 = channel.events();
        let ghost ds0 = delay.delays();
        let mut chan = channel;
        let mut del = delay;
        let r = channel_init(&mut del, &mut chan);
        let ghost es1 = chan.events();
        let ghost ds1 = del.delays();
        let ghost o = choose|o: ReadOutcome| channel_init_post(es0, es1, ds0, ds1, o, r);
        proof {
            assert(plain_outcome(1, o));
        }
        match r {
            Ok(_) => {
                let s = SoilSensor { channel: chan, delay: del };
                proof {
                    assert(s.events() == es1 && s.delays() == ds1);
                    assert(verify_result(o) == Ok::<(), SoilSensErr>(()));
                    assert(channel_init_post(es0, s.events(), ds0, s.delays(), o, Ok(())));
                    assert(identity_ok(es0, s.events(), ds0, s.delays()));
                }
                Ok(s)
            },
            Err(e) => {
                proof {
                    assert(verify_result(o) == Err::<(), SoilSensErr>(e));
                }
                Err(e)
            },
        }
    }

    /// Read an arbitrary register range on the device, with the settle
    /// delay the chip needs to process the request.
    fn read(&mut self, reg_low: u8, reg_high: u8, len: usize, delay_us: u16) -> (r: Result<
        Vec<u8>,
        SoilSensErr,
    >)
        ensures
            exists|o: ReadOutcome|
                reg_read_post(
                    old(self).events(),
                    final(self).events(),
                    old(self).delays(),
                    final(self).delays(),
                    reg_low,
                    reg_high,
                    len as int,
                    delay_us,
                    o,
                    bytes_result(r),
                ),
    {
        let r = reg_read(&mut self.channel, &mut self.delay, reg_low, reg_high, len, delay_us);
        proof {
            let o = choose|o: ReadOutcome|
                reg_read_post(
                    old(self).channel.events(),
                    self.channel.events(),
                    old(self).delay.delays(),
                    self.delay.delays(),
                    reg_low,
                    reg_high,
                    len as int,
                    delay_us,
                    o,
                    bytes_result(r),
                );
            assert(reg_read_post(
                old(self).events(),
                self.events(),
                old(self).delays(),
                self.delays(),
                reg_low,
                reg_high,
                len as int,
                delay_us,
                o,
                bytes_result(r),
            ));
        }
        r
    }

    /// Read the temperature register once and return the raw big-endian
    /// two's-complement value.  It is a fixed-point Celsius reading with 16
    /// fractional bits: dividing by 2^16 gives degrees Celsius, sign
    /// included.  A bus error propagates directly; there is no retry and no
    /// bounds validation.
    pub fn get_temp_raw(&mut self) -> (r: Result<i32, SoilSensErr>)
        ensures
            exists|o: ReadOutcome|
                temperature_post(
                    old(self).events(),
                    final(self).events(),
                    old(self).delays(),
                    final(self).delays(),
                    o,
                    r,
                ),
    {
        let rr = self.read(SEESAW_STATUS_BASE, SEESAW_STATUS_TEMP, 4, STD_PROCESSING_DELAY_MICROS);
        match rr {
            Err(e) => {
                proof {
                    let o = choose|o: ReadOutcome|
                        reg_read_post(
                            old(self).events(),
                            self.events(),
                            old(self).delays(),
                            self.delays(),
                            SEESAW_STATUS_BASE,
                            SEESAW_STATUS_TEMP,
                            4,
                            STD_PROCESSING_DELAY_MICROS,
                            o,
                            Err(e),
                        );
                    assert(temperature_post(
                        old(self).events(),
                        self.events(),
                        old(self).delays(),
                        self.delays(),
                        o,
                        Err::<i32, SoilSensErr>(e),
                    ));
                }
                Err(e)
            },
            Ok(buffer) => {
                let ghost o = choose|o: ReadOutcome|
                    reg_read_post(
                        old(self).events(),
                        self.events(),
                        old(self).delays(),
                        self.delays(),
                        SEESAW_STATUS_BASE,
                        SEESAW_STATUS_TEMP,
                        4,
                        STD_PROCESSING_DELAY_MICROS,
                        o,
                        Ok(buffer@),
                    );
                proof {
                    assert(o matches ReadOutcome::Answered(bytes) && bytes == buffer@);
                    assert(buffer@.len() == 4);
                }
                let unsigned: u32 = (buffer[0] as u32) * 0x100_0000 + (buffer[1] as u32) * 0x1_0000
                    + (buffer[2] as u32) * 0x100 + (buffer[3] as u32);
                proof {
                    assert(unsigned == be_u32(buffer@));
                }
                let value: i32 = if unsigned >= 0x8000_0000u32 {
                    let below: i64 = (unsigned as i64) - 0x1_0000_0000i64;
                    below as i32
                } else {
                    unsigned as i32
                };
                proof {
                    assert(value == be_i32(buffer@));
                    assert(temperature_post(
                        old(self).events(),
                        self.events(),
                        old(self).delays(),
                        self.delays(),
                        o,
                        Ok(value),
                    ));
                }
                Ok(value)
            },
        }
    }

    /// Read the capacitance register with a bounded retry loop.  Each
    /// attempt waits the unconditional pre-delay, then reads two bytes with
    /// the long settle delay.  A bus failure or the not-ready sentinel
    /// `0xFFFF` consumes one attempt; a value strictly below the sentinel is
    /// the genuine reading and is returned at once.  After
    /// [`TOUCH_READ_ATTEMPTS`] fruitless attempts the read fails with
    /// [`SoilSensErr::MoistureReadErr`]; the sensor stays usable.
    pub fn get_capacitance(&mut self) -> (r: Result<u16, SoilSensErr>)
        ensures
            exists|os: Seq<ReadOutcome>|
                capacitance_post(
                    old(self).events(),
                    final(self).events(),
                    old(self).delays(),
                    final(self).delays(),
                    os,
                    r,
                ),
    {
        let mut retry_counter: u32 = 0;
        let ghost mut os: Seq<ReadOutcome> = Seq::empty();
        proof {
            assert(self.events() =~= old(self).events() + attempts_events(os));
            assert(self.delays() =~= old(self).delays() + attempts_delays(os));
        }
        while retry_counter < TOUCH_READ_ATTEMPTS
            invariant
                retry_counter <= TOUCH_READ_ATTEMPTS,
                os.len() == retry_counter,
                attempts_wf(os),
                forall|j: int| 0 <= j < os.len() ==> !attempt_good(#[trigger] os[j]),
                self.events() == old(self).events() + attempts_events(os),
                self.delays() == old(self).delays() + attempts_delays(os),
            decreases TOUCH_READ_ATTEMPTS - retry_counter,
        {
            let ghost pre_es = self.events();
            let ghost pre_ds = self.delays();
            let ghost prev_os = os;
            self.delay.delay_us(TOUCH_PRE_DELAY_MICROS);
            let ghost mid_es = self.events();
            let ghost mid_ds = self.delays();
            let rr = self.read(
                SEESAW_TOUCH_BASE,
                SEESAW_TOUCH_CHANNEL_OFFSET,
                2,
                TOUCH_SETTLE_DELAY_MICROS,
            );
            match rr {
                Err(_) => {
                    proof {
                        let o = choose|o: ReadOutcome|
                            reg_read_post(
                                mid_es,
                                self.events(),
                                mid_ds,
                                self.delays(),
                                SEESAW_TOUCH_BASE,
                                SEESAW_TOUCH_CHANNEL_OFFSET,
                                2,
                                TOUCH_SETTLE_DELAY_MICROS,
                                o,
                                bytes_result(rr),
                            );
                        lemma_attempts_events_push(os, o);
                        lemma_attempts_delays_push(os, o);
                        assert(self.events() =~= pre_es + attempt_events(o));
                        assert(self.delays() =~= pre_ds + attempt_delays(o));
                        os = os.push(o);
                        assert(forall|j: int|
                            0 <= j < prev_os.len() ==> #[trigger] os[j] == prev_os[j]);
                        assert(!attempt_good(o));
                        assert(self.events() =~= old(self).events() + attempts_events(os));
                        assert(self.delays() =~= old(self).delays() + attempts_delays(os));
                    }
                    retry_counter = retry_counter + 1;
                },
                Ok(buffer) => {
                    let ghost o = choose|o: ReadOutcome|
                        reg_read_post(
                            mid_es,
                            self.events(),
                            mid_ds,
                            self.delays(),
                            SEESAW_TOUCH_BASE,
                            SEESAW_TOUCH_CHANNEL_OFFSET,
                            2,
                            TOUCH_SETTLE_DELAY_MICROS,
                            o,
                            Ok(buffer@),
                        );
                    proof {
                        assert(o matches ReadOutcome::Answered(bytes) && bytes == buffer@);
                        assert(buffer@.len() == 2);
                        lemma_attempts_events_push(os, o);
                        lemma_attempts_delays_push(os, o);
                        assert(self.events() =~= pre_es + attempt_events(o));
                        assert(self.delays() =~= pre_ds + attempt_delays(o));
                        os = os.push(o);
                        assert(forall|j: int|
                            0 <= j < prev_os.len() ==> #[trigger] os[j] == prev_os[j]);
                        assert(self.events() =~= old(self).events() + attempts_events(os));
                        assert(self.delays() =~= old(self).delays() + attempts_delays(os));
                        assert(os.last() == o);
                    }
                    let cap: u16 = (buffer[0] as u16) * 0x100 + (buffer[1] as u16);
                    proof {
                        assert(cap == be_u16(buffer@));
                    }
                    if cap < TOUCH_NOT_READY {
                        proof {
                            assert(attempt_good(os.last()));
                            assert(answered_bytes(os.last()) == buffer@);
                            assert(attempts_wf(os));
                            assert(forall|j: int|
                                0 <= j < os.len() - 1 ==> !attempt_good(#[trigger] os[j]));
                            assert(capacitance_post(
                                old(self).events(),
                                self.events(),
                                old(self).delays(),
                                self.delays(),
                                os,
                                Ok(cap),
                            ));
                        }
                        return Ok(cap);
                    }
                    proof {
                        assert(!attempt_good(o));
                    }
                    // A not-ready sentinel consumes one of the attempts too,
                    // keeping the loop bounded.
                    retry_counter = retry_counter + 1;
                },
            }
        }
        proof {
            assert(capacitance_post(
                old(self).events(),
                self.events(),
                old(self).delays(),
                self.delays(),
                os,
                Err(SoilSensErr::MoistureReadErr),
            ));
        }
        Err(SoilSensErr::MoistureReadErr)
    }
}

} // verus!
