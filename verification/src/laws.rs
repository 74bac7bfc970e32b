//! Protocol-wide laws, proved once over the spec model that the driver's
//! contracts are stated in.
use vstd::prelude::*;
use crate::bus::Event;
use crate::error::SoilSensErr;
use crate::model::ReadOutcome;
use crate::model::answered_bytes;
use crate::model::attempt_good;
use crate::model::be_u16;
use crate::model::capacitance_post;
use crate::model::candidate_count;
use crate::model::discovery_post;
use crate::model::probe_events;
use crate::model::probe_ok;
use crate::model::probes_events;
use crate::model::temperature_post;
use crate::regs::SEESAW_HW_ID_CODE;
use crate::regs::SENSOR_START_ADDR;

verus! {

/// A probe outcome of the kind the exhausted-scan law speaks of: the device
/// answered with a wrong identity byte, or the address was rejected.
pub open spec fn probe_rejected_or_mismatched(o: ReadOutcome) -> bool {
    match o {
        ReadOutcome::Answered(bytes) => bytes.len() == 1 && bytes[0] != SEESAW_HW_ID_CODE,
        ReadOutcome::AddrRejected(_) => true,
        _ => false,
    }
}

/// The value a successful capacitance run returns: the big-endian value of
/// the last attempt's answer.
pub open spec fn be_u16_of_last(os: Seq<ReadOutcome>) -> int {
    be_u16(answered_bytes(os.last()))
}

/// When the first scanned candidate answers with the identity code, the scan
/// returns that candidate's address, and no further candidate is probed: the
/// whole bus trace of discovery is that one probe.
pub proof fn lemma_first_candidate_binds(
    pre: Seq<Event>,
    post: Seq<Event>,
    dpre: Seq<u16>,
    dpost: Seq<u16>,
    os: Seq<ReadOutcome>,
    r: Result<u16, SoilSensErr>,
)
    requires
        discovery_post(pre, post, dpre, dpost, os, r),
        os.len() >= 1,
        probe_ok(os[0]),
    ensures
        r == Ok::<u16, SoilSensErr>(SENSOR_START_ADDR),
        os.len() == 1,
        post == pre + probe_events(SENSOR_START_ADDR, os[0]),
{
    match r {
        Ok(a) => {
            if os.len() > 1 {
                assert(!probe_ok(os[0]));
                assert(false);
            }
            assert(os.last() == os[0]);
            assert(a == SENSOR_START_ADDR);
            assert(os.drop_first() =~= Seq::<ReadOutcome>::empty());
            assert(probes_events(SENSOR_START_ADDR as int + 1, os.drop_first())
                == Seq::<Event>::empty());
            assert(probes_events(SENSOR_START_ADDR as int, os) == probe_events(
                SENSOR_START_ADDR,
                os[0],
            ) + probes_events(SENSOR_START_ADDR as int + 1, os.drop_first()));
            assert(post =~= pre + probe_events(SENSOR_START_ADDR, os[0]));
        },
        Err(_) => {
            assert(!probe_ok(os[0]));
            assert(false);
        },
    }
}

/// When every candidate answers with a wrong identity byte or rejects the
/// address, discovery fails with `HwNotFound`, and every candidate in the
/// scan range was probed exactly once, in ascending address order.
pub proof fn lemma_exhausted_scan(
    pre: Seq<Event>,
    post: Seq<Event>,
    dpre: Seq<u16>,
    dpost: Seq<u16>,
    os: Seq<ReadOutcome>,
    r: Result<u16, SoilSensErr>,
)
    requires
        discovery_post(pre, post, dpre, dpost, os, r),
        forall|j: int| 0 <= j < os.len() ==> probe_rejected_or_mismatched(#[trigger] os[j]),
    ensures
        r == Err::<u16, SoilSensErr>(SoilSensErr::HwNotFound),
        os.len() == candidate_count(),
        post == pre + probe_events(SENSOR_START_ADDR, os[0]) + probe_events(
            (SENSOR_START_ADDR + 1) as u16,
            os[1],
        ) + probe_events((SENSOR_START_ADDR + 2) as u16, os[2]) + probe_events(
            (SENSOR_START_ADDR + 3) as u16,
            os[3],
        ),
{
    assert(forall|j: int| 0 <= j < os.len() ==> !probe_ok(#[trigger] os[j]));
    match r {
        Ok(_) => {
            assert(os.last() == os[os.len() - 1]);
            assert(!probe_ok(os.last()));
            assert(false);
        },
        Err(_) => {},
    }
    let f = SENSOR_START_ADDR as int;
    let s1 = os.drop_first();
    let s2 = s1.drop_first();
    let s3 = s2.drop_first();
    let s4 = s3.drop_first();
    assert(s1[0] == os[1] && s2[0] == os[2] && s3[0] == os[3]);
    assert(s4 =~= Seq::<ReadOutcome>::empty());
    assert(probes_events(f + 4, s4) == Seq::<Event>::empty());
    assert(probes_events(f + 3, s3) == probe_events(((f + 3) as u16), s3[0]) + probes_events(
        f + 4,
        s4,
    ));
    assert(probes_events(f + 2, s2) == probe_events(((f + 2) as u16), s2[0]) + probes_events(
        f + 3,
        s3,
    ));
    assert(probes_events(f + 1, s1) == probe_events(((f + 1) as u16), s1[0]) + probes_events(
        f + 2,
        s2,
    ));
    assert(probes_events(f, os) == probe_events(SENSOR_START_ADDR, os[0]) + probes_events(
        f + 1,
        s1,
    ));
    assert(post =~= pre + probe_events(SENSOR_START_ADDR, os[0]) + probe_events(
        (SENSOR_START_ADDR + 1) as u16,
        os[1],
    ) + probe_events((SENSOR_START_ADDR + 2) as u16, os[2]) + probe_events(
        (SENSOR_START_ADDR + 3) as u16,
        os[3],
    ));
}

/// A temperature reading is a function of the transport's replies alone: the
/// sensor keeps no other state, so two reads whose register read went the
/// same way return the same value and append the same bus transactions and
/// delays to their traces.
pub proof fn lemma_temperature_deterministic(
    pre1: Seq<Event>,
    post1: Seq<Event>,
    dpre1: Seq<u16>,
    dpost1: Seq<u16>,
    o1: ReadOutcome,
    r1: Result<i32, SoilSensErr>,
    pre2: Seq<Event>,
    post2: Seq<Event>,
    dpre2: Seq<u16>,
    dpost2: Seq<u16>,
    o2: ReadOutcome,
    r2: Result<i32, SoilSensErr>,
)
    requires
        temperature_post(pre1, post1, dpre1, dpost1, o1, r1),
        temperature_post(pre2, post2, dpre2, dpost2, o2, r2),
        o1 == o2,
    ensures
        r1 == r2,
        post1.skip(pre1.len() as int) == post2.skip(pre2.len() as int),
        dpost1.skip(dpre1.len() as int) == dpost2.skip(dpre2.len() as int),
{
    match o1 {
        ReadOutcome::Answered(bytes) => {
            assert(r1 matches Ok(v1) && r2 matches Ok(v2) && v1 == v2);
        },
        _ => {},
    }
    assert(post1.skip(pre1.len() as int) =~= post2.skip(pre2.len() as int));
    assert(dpost1.skip(dpre1.len() as int) =~= dpost2.skip(dpre2.len() as int));
}

/// A capacitance reading is a function of the transport's replies alone: two
/// retry runs whose attempts went the same way return the same value and
/// append the same bus transactions and delays to their traces.
pub proof fn lemma_capacitance_deterministic(
    pre1: Seq<Event>,
    post1: Seq<Event>,
    dpre1: Seq<u16>,
    dpost1: Seq<u16>,
    os1: Seq<ReadOutcome>,
    r1: Result<u16, SoilSensErr>,
    pre2: Seq<Event>,
    post2: Seq<Event>,
    dpre2: Seq<u16>,
    dpost2: Seq<u16>,
    os2: Seq<ReadOutcome>,
    r2: Result<u16, SoilSensErr>,
)
    requires
        capacitance_post(pre1, post1, dpre1, dpost1, os1, r1),
        capacitance_post(pre2, post2, dpre2, dpost2, os2, r2),
        os1 == os2,
    ensures
        r1 == r2,
        post1.skip(pre1.len() as int) == post2.skip(pre2.len() as int),
        dpost1.skip(dpre1.len() as int) == dpost2.skip(dpre2.len() as int),
{
    match r1 {
        Ok(v1) => {
            assert(attempt_good(os1.last()));
            match r2 {
                Ok(v2) => {
                    assert(v1 == be_u16_of_last(os1));
                    assert(v2 == be_u16_of_last(os2));
                },
                Err(_) => {
                    assert(os2.last() == os2[os2.len() - 1]);
                    assert(!attempt_good(os2[os2.len() - 1]));
                    assert(false);
                },
            }
        },
        Err(_) => {
            match r2 {
                Ok(_) => {
                    assert(os1.last() == os1[os1.len() - 1]);
                    assert(!attempt_good(os1[os1.len() - 1]));
                    assert(false);
                },
                Err(_) => {},
            }
        },
    }
    assert(post1.skip(pre1.len() as int) =~= post2.skip(pre2.len() as int));
    assert(dpost1.skip(dpre1.len() as int) =~= dpost2.skip(dpre2.len() as int));
}

} // verus!
