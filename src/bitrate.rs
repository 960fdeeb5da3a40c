//! CAN bit timing calculation: from a target bitrate and sample point, or
//! from direct timing values, within an adapter's timing limits.
//!
//! Sample points are in thousandths (875 is 87.5%).
use vstd::prelude::*;

verus! {

pub const CAN_SYNC_SEG: u32 = 1;
/// Largest bitrate error accepted by default, in hundredths of a percent.
pub const CAN_CALC_MAX_ERROR: u32 = 50;
pub const DEFAULT_SAMPLE_POINT_HIGH_BITRATE_THRESHOLD: u32 = 800_000;
pub const DEFAULT_SAMPLE_POINT_MEDIUM_BITRATE_THRESHOLD: u32 = 500_000;
pub const DEFAULT_SAMPLE_POINT_HIGH_BITRATE: u32 = 750;
pub const DEFAULT_SAMPLE_POINT_MEDIUM_BITRATE: u32 = 800;
pub const DEFAULT_SAMPLE_POINT_LOW_BITRATE: u32 = 875;

/// Hardware limits used to calculate and validate CAN bit timing.
#[derive(Debug, Clone, Copy, PartialEq, Eq, Structural)]
pub struct BitTimingConst {
    /// CAN controller input clock in Hz.
    pub clock_hz: u32,
    pub tseg1_min: u32,
    pub tseg1_max: u32,
    pub tseg2_min: u32,
    pub tseg2_max: u32,
    /// Largest synchronization jump width.
    pub sjw_max: u32,
    /// Bitrate prescaler range and step.
    pub brp_min: u32,
    pub brp_max: u32,
    pub brp_inc: u32,
}

/// Adapter timing limits for the nominal phase and, with CAN-FD, the data
/// phase.
#[derive(Debug, Clone, Copy, PartialEq, Eq, Structural)]
pub struct AdapterTimingConst {
    pub nominal: BitTimingConst,
    /// `None` when the adapter cannot set a data bitrate.
    pub data: Option<BitTimingConst>,
}

/// Timing values an adapter driver takes.
#[derive(Debug, Clone, Copy, PartialEq, Eq, Structural)]
pub struct AdapterBitTiming {
    /// Bitrate prescaler.
    pub brp: u32,
    /// Time segment 1 (`prop_seg + phase_seg1`).
    pub tseg1: u32,
    /// Time segment 2 (`phase_seg2`).
    pub tseg2: u32,
    /// Synchronization jump width.
    pub sjw: u32,
}

/// Timing of one phase, with the bitrate and sample point it gives.
#[derive(Debug, Clone, Copy, PartialEq, Eq, Structural)]
pub struct PhaseTiming {
    pub timing: AdapterBitTiming,
    pub bitrate: u32,
    /// Sample point in thousandths.
    pub sample_point: u32,
}

/// Bitrate calculation errors.
#[derive(Debug, Clone, PartialEq, Eq)]
pub enum BitrateError {
    InvalidClock,
    InvalidBitrate,
    InvalidSamplePoint,
    MixedConfiguration,
    SamplePointRequiresBitrate,
    DataSamplePointRequiresDataBitrate,
    DataSjwRequiresDataBitrate,
    MissingConfiguration,
    MissingDirectField(&'static str),
    BrpOutOfRange { brp: u32, min: u32, max: u32 },
    InvalidBrpIncrement { brp: u32, brp_inc: u32 },
    Tseg1OutOfRange { tseg1: u32, min: u32, max: u32 },
    Tseg2OutOfRange { tseg2: u32, min: u32, max: u32 },
    SjwGreaterThanMax { sjw: u32, max_sjw: u32 },
    SjwGreaterThanPhaseSeg1 { sjw: u32, phase_seg1: u32 },
    SjwGreaterThanPhaseSeg2 { sjw: u32, phase_seg2: u32 },
    BitrateErrorTooHigh { error_hundredth_percent: u32, max_hundredth_percent: u32 },
    NoSolution { bitrate: u32 },
    DataBitrateLowerThanNominal { data_bitrate: u32, arbitration_bitrate: u32 },
    DataBitrateNotSupported,
}

/// The clock is running and the prescaler step is not zero.
pub open spec fn timing_const_ok(btc: BitTimingConst) -> bool {
    btc.clock_hz != 0 && btc.brp_inc != 0
}

/// Fails with `InvalidClock` for a zero clock, else with
/// `InvalidBrpIncrement` for a zero prescaler step.
pub fn validate_timing_const(btc: &BitTimingConst) -> (r: Result<(), BitrateError>)
    ensures
        r is Ok <==> timing_const_ok(*btc),
        btc.clock_hz == 0 ==> r == Err::<(), BitrateError>(BitrateError::InvalidClock),
        btc.clock_hz != 0 && btc.brp_inc == 0 ==> r == Err::<(), BitrateError>(
            BitrateError::InvalidBrpIncrement { brp: 0, brp_inc: 0 },
        ),
{
    if btc.clock_hz == 0 {
        return Err(BitrateError::InvalidClock);
    }
    if btc.brp_inc == 0 {
        return Err(BitrateError::InvalidBrpIncrement { brp: 0, brp_inc: 0 });
    }
    Ok(())
}

/// Prescaler and segments within the limits.
pub open spec fn ranges_ok(btc: BitTimingConst, brp: u32, tseg1: u32, tseg2: u32) -> bool {
    &&& btc.brp_min <= brp <= btc.brp_max
    &&& brp % btc.brp_inc == 0
    &&& btc.tseg1_min <= tseg1 <= btc.tseg1_max
    &&& btc.tseg2_min <= tseg2 <= btc.tseg2_max
}

/// Checks prescaler (range, then step), `tseg1` and `tseg2` against the
/// limits, in that order; the error names the first value out of bounds.
pub fn check_ranges(btc: &BitTimingConst, brp: u32, tseg1: u32, tseg2: u32) -> (r: Result<(), BitrateError>)
    requires
        btc.brp_inc != 0,
    ensures
        r is Ok <==> ranges_ok(*btc, brp, tseg1, tseg2),
        !(btc.brp_min <= brp <= btc.brp_max) ==> r == Err::<(), BitrateError>(
            BitrateError::BrpOutOfRange { brp, min: btc.brp_min, max: btc.brp_max },
        ),
        btc.brp_min <= brp <= btc.brp_max && brp % btc.brp_inc != 0 ==> r == Err::<(), BitrateError>(
            BitrateError::InvalidBrpIncrement { brp, brp_inc: btc.brp_inc },
        ),
        btc.brp_min <= brp <= btc.brp_max && brp % btc.brp_inc == 0 && !(btc.tseg1_min <= tseg1
            <= btc.tseg1_max) ==> r == Err::<(), BitrateError>(
            BitrateError::Tseg1OutOfRange { tseg1, min: btc.tseg1_min, max: btc.tseg1_max },
        ),
        btc.brp_min <= brp <= btc.brp_max && brp % btc.brp_inc == 0 && btc.tseg1_min <= tseg1
            <= btc.tseg1_max && !(btc.tseg2_min <= tseg2 <= btc.tseg2_max) ==> r == Err::<
            (),
            BitrateError,
        >(BitrateError::Tseg2OutOfRange { tseg2, min: btc.tseg2_min, max: btc.tseg2_max }),
{
    if brp < btc.brp_min || brp > btc.brp_max {
        return Err(BitrateError::BrpOutOfRange { brp, min: btc.brp_min, max: btc.brp_max });
    }
    if brp % btc.brp_inc != 0 {
        return Err(BitrateError::InvalidBrpIncrement { brp, brp_inc: btc.brp_inc });
    }
    if tseg1 < btc.tseg1_min || tseg1 > btc.tseg1_max {
        return Err(BitrateError::Tseg1OutOfRange { tseg1, min: btc.tseg1_min, max: btc.tseg1_max });
    }
    if tseg2 < btc.tseg2_min || tseg2 > btc.tseg2_max {
        return Err(BitrateError::Tseg2OutOfRange { tseg2, min: btc.tseg2_min, max: btc.tseg2_max });
    }
    Ok(())
}

/// Phase segment 1: the half of `tseg1` that follows the propagation
/// segment.
pub open spec fn phase_seg1(tseg1: u32) -> u32 {
    (tseg1 - tseg1 / 2) as u32
}

/// SJW within the limit and both phase segments.
pub open spec fn sjw_ok(btc: BitTimingConst, sjw: u32, tseg1: u32, tseg2: u32) -> bool {
    sjw <= btc.sjw_max && sjw <= phase_seg1(tseg1) && sjw <= tseg2
}

/// Checks SJW against the limit, phase segment 1 and phase segment 2, in
/// that order.
pub fn check_sjw(btc: &BitTimingConst, sjw: u32, tseg1: u32, tseg2: u32) -> (r: Result<(), BitrateError>)
    ensures
        r is Ok <==> sjw_ok(*btc, sjw, tseg1, tseg2),
        sjw > btc.sjw_max ==> r == Err::<(), BitrateError>(
            BitrateError::SjwGreaterThanMax { sjw, max_sjw: btc.sjw_max },
        ),
        sjw <= btc.sjw_max && sjw > phase_seg1(tseg1) ==> r == Err::<(), BitrateError>(
            BitrateError::SjwGreaterThanPhaseSeg1 { sjw, phase_seg1: phase_seg1(tseg1) },
        ),
        sjw <= btc.sjw_max && sjw <= phase_seg1(tseg1) && sjw > tseg2 ==> r == Err::<(), BitrateError>(
            BitrateError::SjwGreaterThanPhaseSeg2 { sjw, phase_seg2: tseg2 },
        ),
{
    let phase_seg1 = tseg1 - tseg1 / 2;
    if sjw > btc.sjw_max {
        return Err(BitrateError::SjwGreaterThanMax { sjw, max_sjw: btc.sjw_max });
    }
    if sjw > phase_seg1 {
        return Err(BitrateError::SjwGreaterThanPhaseSeg1 { sjw, phase_seg1 });
    }
    if sjw > tseg2 {
        return Err(BitrateError::SjwGreaterThanPhaseSeg2 { sjw, phase_seg2: tseg2 });
    }
    Ok(())
}

/// Default SJW: `max(1, min(phase_seg1, tseg2 / 2))`.
pub open spec fn default_sjw(tseg1: u32, tseg2: u32) -> u32 {
    let m = if phase_seg1(tseg1) <= tseg2 / 2 { phase_seg1(tseg1) } else { (tseg2 / 2) as u32 };
    if m >= 1 { m } else { 1 }
}

/// Default SJW: `max(1, min(phase_seg1, tseg2 / 2))`.
pub fn calc_default_sjw(tseg1: u32, tseg2: u32) -> (r: u32)
    ensures
        r == default_sjw(tseg1, tseg2),
{
    let phase_seg1 = tseg1 - tseg1 / 2;
    let m = if phase_seg1 <= tseg2 / 2 { phase_seg1 } else { tseg2 / 2 };
    if m >= 1 { m } else { 1 }
}

/// Default sample point: 75.0% above 800 kbit/s, 80.0% above 500 kbit/s,
/// else 87.5%.
pub open spec fn default_sample_point(bitrate: u32) -> u32 {
    if bitrate > DEFAULT_SAMPLE_POINT_HIGH_BITRATE_THRESHOLD {
        DEFAULT_SAMPLE_POINT_HIGH_BITRATE
    } else if bitrate > DEFAULT_SAMPLE_POINT_MEDIUM_BITRATE_THRESHOLD {
        DEFAULT_SAMPLE_POINT_MEDIUM_BITRATE
    } else {
        DEFAULT_SAMPLE_POINT_LOW_BITRATE
    }
}

/// Default sample point for a bitrate, in thousandths.
pub fn calc_default_sample_point_nrz(bitrate: u32) -> (r: u32)
    ensures
        r == default_sample_point(bitrate),
{
    if bitrate > DEFAULT_SAMPLE_POINT_HIGH_BITRATE_THRESHOLD {
        DEFAULT_SAMPLE_POINT_HIGH_BITRATE
    } else if bitrate > DEFAULT_SAMPLE_POINT_MEDIUM_BITRATE_THRESHOLD {
        DEFAULT_SAMPLE_POINT_MEDIUM_BITRATE
    } else {
        DEFAULT_SAMPLE_POINT_LOW_BITRATE
    }
}

/// Bitrate of a timing: `clock / (brp * (1 + tseg1 + tseg2))`.
pub open spec fn timing_bitrate(clock: u32, brp: u32, tseg1: u32, tseg2: u32) -> int {
    clock as int / (brp as int * (1 + tseg1 + tseg2))
}

/// Sample point of a timing in thousandths:
/// `1000 * (1 + tseg1) / (1 + tseg1 + tseg2)`.
pub open spec fn timing_sample_point(tseg1: u32, tseg2: u32) -> int {
    1000 * (1 + tseg1 as int) / (1 + tseg1 + tseg2)
}

/// `clock / (brp * bt)` and `1000 * (1 + tseg1) / bt` for `bt = 1 + tseg1 + tseg2`.
fn timing_values(clock: u32, brp: u32, tseg1: u32, tseg2: u32) -> (r: (u32, u32))
    requires
        brp >= 1,
    ensures
        r.0 == timing_bitrate(clock, brp, tseg1, tseg2),
        r.1 == timing_sample_point(tseg1, tseg2),
{
    let bt: u64 = 1 + tseg1 as u64 + tseg2 as u64;
    assert(brp as u128 * bt as u128 <= 0x1_0000_0000 * 0x3_0000_0000) by (nonlinear_arith)
        requires brp <= 0xffff_ffff, bt <= 0x2_0000_0000;
    let d: u128 = brp as u128 * bt as u128;
    assert(d >= 1) by (nonlinear_arith)
        requires brp >= 1, bt >= 1, d == brp * bt;
    let q = clock as u128 / d;
    assert(q <= clock) by (nonlinear_arith)
        requires d >= 1, q == clock as int / d as int;
    let num: u64 = 1000 * (1 + tseg1 as u64);
    let sp = num / bt;
    assert(sp <= 1000) by (nonlinear_arith)
        requires sp == num as int / bt as int, num == 1000 * (1 + tseg1), bt == 1 + tseg1 + tseg2, bt >= 1;
    (q as u32, sp as u32)
}

/// The timing from direct values.
pub open spec fn direct_result(btc: BitTimingConst, brp: u32, tseg1: u32, tseg2: u32, sjw: Option<u32>) -> Result<PhaseTiming, BitrateError> {
    let s = match sjw {
        Some(v) => v,
        None => default_sjw(tseg1, tseg2),
    };
    if brp == 0 {
        Err(BitrateError::BrpOutOfRange { brp, min: btc.brp_min, max: btc.brp_max })
    } else if !ranges_ok(btc, brp, tseg1, tseg2) || !sjw_ok(btc, s, tseg1, tseg2) {
        Err(ranges_sjw_error(btc, brp, tseg1, tseg2, s))
    } else {
        Ok(
            PhaseTiming {
                timing: AdapterBitTiming { brp, tseg1, tseg2, sjw: s },
                bitrate: timing_bitrate(btc.clock_hz, brp, tseg1, tseg2) as u32,
                sample_point: timing_sample_point(tseg1, tseg2) as u32,
            },
        )
    }
}

/// Timing from direct values: the prescaler and segments must be within the
/// limits (a zero prescaler is out of range), SJW defaults as
/// `default_sjw` and must fit.
pub fn solve_direct_mode(btc: &BitTimingConst, brp: u32, tseg1: u32, tseg2: u32, sjw: Option<u32>) -> (r: Result<PhaseTiming, BitrateError>)
    requires
        btc.brp_inc != 0,
    ensures
        r == direct_result(*btc, brp, tseg1, tseg2, sjw),
        r matches Ok(p) ==> phase_ok(*btc, p),
{
    proof {
        lemma_direct_ok(*btc, brp, tseg1, tseg2, sjw);
    }
    if brp == 0 {
        return Err(BitrateError::BrpOutOfRange { brp, min: btc.brp_min, max: btc.brp_max });
    }
    match check_ranges(btc, brp, tseg1, tseg2) {
        Ok(()) => {},
        Err(e) => return Err(e),
    }
    let sjw = match sjw {
        Some(v) => v,
        None => calc_default_sjw(tseg1, tseg2),
    };
    match check_sjw(btc, sjw, tseg1, tseg2) {
        Ok(()) => {},
        Err(e) => return Err(e),
    }
    let (bitrate, sample_point) = timing_values(btc.clock_hz, brp, tseg1, tseg2);
    Ok(PhaseTiming { timing: AdapterBitTiming { brp, tseg1, tseg2, sjw }, bitrate, sample_point })
}

/// A split of `tseg` into `tseg1` and `tseg2` for a sample point.
#[derive(Debug, Clone, Copy, PartialEq, Eq, Structural)]
pub struct SamplePointCandidate {
    /// Sample point in thousandths.
    pub sample_point: u32,
    /// Distance from the sample point asked for.
    pub sample_point_error: u32,
    pub tseg1: u64,
    pub tseg2: u64,
}

pub open spec fn clamp(t: int, lo: int, hi: int) -> int {
    if t < lo {
        lo
    } else if t > hi {
        hi
    } else {
        t
    }
}

pub open spec fn abs_diff(a: int, b: int) -> int {
    if a >= b {
        a - b
    } else {
        b - a
    }
}

/// The split tried in round `i` (0 or 1): `tseg2` from the sample point,
/// less `i`, clamped to its limits; `tseg1` the rest, capped at its limit.
/// `None` when the clamped `tseg2` exceeds `tseg`.
pub open spec fn split_try(btc: BitTimingConst, spr: int, tseg: int, i: int) -> Option<SamplePointCandidate> {
    let t2a = tseg + 1 - (spr * (tseg + 1)) / 1000 - i;
    let t2b = clamp(t2a, btc.tseg2_min as int, btc.tseg2_max as int);
    if t2b > tseg {
        None
    } else {
        let t1a = tseg - t2b;
        let t1 = if t1a > btc.tseg1_max { btc.tseg1_max as int } else { t1a };
        let t2 = if t1a > btc.tseg1_max { tseg - btc.tseg1_max } else { t2b };
        let sp = 1000 * (tseg + 1 - t2) / (tseg + 1);
        Some(
            SamplePointCandidate {
                sample_point: sp as u32,
                sample_point_error: abs_diff(spr, sp) as u32,
                tseg1: t1 as u64,
                tseg2: t2 as u64,
            },
        )
    }
}

/// Keeps `c` over `best` when it samples no later than asked and closer.
pub open spec fn better_split(spr: int, best: SamplePointCandidate, c: Option<SamplePointCandidate>) -> SamplePointCandidate {
    match c {
        Some(c) => if c.sample_point <= spr && c.sample_point_error < best.sample_point_error {
            c
        } else {
            best
        },
        None => best,
    }
}

pub open spec fn no_split() -> SamplePointCandidate {
    SamplePointCandidate { sample_point: 0, sample_point_error: u32::MAX, tseg1: 0, tseg2: 0 }
}

/// The better of the two splits of `tseg` for sample point `spr`.
pub open spec fn best_split(btc: BitTimingConst, spr: int, tseg: int) -> SamplePointCandidate {
    better_split(spr, better_split(spr, no_split(), split_try(btc, spr, tseg, 0)), split_try(btc, spr, tseg, 1))
}

fn try_split(btc: &BitTimingConst, spr: u32, tseg: u64, i: u64) -> (r: Option<SamplePointCandidate>)
    requires
        spr < 1000,
        tseg <= 0x2_0000_0000,
        i <= 1,
    ensures
        r == split_try(*btc, spr as int, tseg as int, i as int),
        r matches Some(c) ==> c.tseg1 <= btc.tseg1_max && c.tseg1 + c.tseg2 == tseg && c.sample_point <= 1000,
        r matches Some(c) ==> (tseg <= btc.tseg1_max + btc.tseg2_max ==> c.tseg2 <= u32::MAX),
{
    let n = tseg + 1;
    assert(spr as u64 * n <= 1000 * 0x2_0000_0001) by (nonlinear_arith)
        requires spr < 1000, n <= 0x2_0000_0001;
    let q = (spr as u64 * n) / 1000;
    assert(q + 1 <= n) by (nonlinear_arith)
        requires q == (spr * n) / 1000, spr < 1000, n >= 1;
    let t2a = n - q - i;
    let t2b = if t2a < btc.tseg2_min as u64 {
        btc.tseg2_min as u64
    } else if t2a > btc.tseg2_max as u64 {
        btc.tseg2_max as u64
    } else {
        t2a
    };
    if t2b > tseg {
        return None;
    }
    let t1a = tseg - t2b;
    let (t1, t2) = if t1a > btc.tseg1_max as u64 {
        (btc.tseg1_max as u64, tseg - btc.tseg1_max as u64)
    } else {
        (t1a, t2b)
    };
    let num = 1000 * (n - t2);
    let sp = num / n;
    assert(sp <= 1000) by (nonlinear_arith)
        requires sp == num / n, num == 1000 * (n - t2), t2 >= 0, n >= 1, t2 <= n;
    let err = if spr as u64 >= sp { spr as u64 - sp } else { sp - spr as u64 };
    Some(SamplePointCandidate { sample_point: sp as u32, sample_point_error: err as u32, tseg1: t1, tseg2: t2 })
}

/// The split of `tseg` whose sample point is the closest to `spr` without
/// being later, of the two that `split_try` offers; `no_split()` if
/// neither qualifies.
pub fn update_sample_point(btc: &BitTimingConst, sample_point_reference: u32, tseg: u64) -> (r: SamplePointCandidate)
    requires
        sample_point_reference < 1000,
        tseg <= 0x2_0000_0000,
    ensures
        r == best_split(*btc, sample_point_reference as int, tseg as int),
        tseg <= btc.tseg1_max + btc.tseg2_max ==> r.tseg1 <= u32::MAX && r.tseg2 <= u32::MAX,
{
    let mut best = SamplePointCandidate { sample_point: 0, sample_point_error: u32::MAX, tseg1: 0, tseg2: 0 };
    let mut i: u64 = 0;
    while i <= 1
        invariant
            i <= 2,
            sample_point_reference < 1000,
            tseg <= 0x2_0000_0000,
            i == 0 ==> best == no_split(),
            i == 1 ==> best == better_split(sample_point_reference as int, no_split(), split_try(*btc, sample_point_reference as int, tseg as int, 0)),
            i == 2 ==> best == best_split(*btc, sample_point_reference as int, tseg as int),
            tseg <= btc.tseg1_max + btc.tseg2_max ==> best.tseg1 <= u32::MAX && best.tseg2 <= u32::MAX,
        decreases 2 - i,
    {
        match try_split(btc, sample_point_reference, tseg, i) {
            Some(c) => {
                if c.sample_point <= sample_point_reference && c.sample_point_error < best.sample_point_error {
                    best = c;
                }
            },
            None => {},
        }
        i += 1;
    }
    best
}

/// Progress of the bitrate-mode search.
#[derive(Debug, Clone, Copy, PartialEq, Eq, Structural)]
pub struct SearchState {
    pub best_bitrate_error: u32,
    pub best_sample_point_error: u32,
    pub best_tseg: u64,
    pub best_brp: u32,
    /// An exact bitrate and sample point were found.
    pub done: bool,
}

pub open spec fn search_start() -> SearchState {
    SearchState {
        best_bitrate_error: u32::MAX,
        best_sample_point_error: u32::MAX,
        best_tseg: 0,
        best_brp: 0,
        done: false,
    }
}

/// Prescaler for `tseg` (twice the segment time, plus a rounding bit):
/// `clock / ((1 + tseg / 2) * bitrate)`, plus the rounding bit, down to a
/// multiple of the prescaler step.
pub open spec fn prescaler(btc: BitTimingConst, bitrate: int, tseg: int) -> int {
    let b = btc.clock_hz as int / ((1 + tseg / 2) * bitrate) + tseg % 2;
    (b / btc.brp_inc as int) * btc.brp_inc as int
}

/// One candidate of the search: a prescaler within limits whose bitrate
/// error is no worse than the best, and whose best split improves the
/// sample point error (which starts over when the bitrate error improves).
pub open spec fn search_step(btc: BitTimingConst, bitrate: int, spr: int, tseg: int, s: SearchState) -> SearchState {
    let tsegall = 1 + tseg / 2;
    let brp = prescaler(btc, bitrate, tseg);
    if brp < btc.brp_min || brp > btc.brp_max || brp == 0 {
        s
    } else {
        let err = abs_diff(bitrate, btc.clock_hz as int / (brp * tsegall));
        if err > s.best_bitrate_error {
            s
        } else {
            let s1 = if err < s.best_bitrate_error {
                SearchState { best_sample_point_error: u32::MAX, ..s }
            } else {
                s
            };
            let c = best_split(btc, spr, tseg / 2);
            if c.sample_point_error >= s1.best_sample_point_error {
                s1
            } else {
                SearchState {
                    best_bitrate_error: err as u32,
                    best_sample_point_error: c.sample_point_error,
                    best_tseg: (tseg / 2) as u64,
                    best_brp: brp as u32,
                    done: err == 0 && c.sample_point_error == 0,
                }
            }
        }
    }
}

/// The search over `tseg` from `hi` down to `lo`, stopping at an exact hit.
pub open spec fn search(btc: BitTimingConst, bitrate: int, spr: int, hi: int, lo: int, s: SearchState) -> SearchState
    decreases hi - lo + 1,
{
    if hi < lo || s.done {
        s
    } else {
        search(btc, bitrate, spr, hi - 1, lo, search_step(btc, bitrate, spr, hi, s))
    }
}

fn step(btc: &BitTimingConst, bitrate: u32, spr: u32, tseg: u64, s: SearchState) -> (r: SearchState)
    requires
        timing_const_ok(*btc),
        bitrate >= 1,
        spr < 1000,
        tseg <= 0x4_0000_0001,
    ensures
        r == search_step(*btc, bitrate as int, spr as int, tseg as int, s),
{
    let tsegall: u64 = 1 + tseg / 2;
    assert(tsegall as u128 * bitrate as u128 <= 0x3_0000_0000 * 0x1_0000_0000) by (nonlinear_arith)
        requires tsegall <= 0x3_0000_0000, bitrate <= 0xffff_ffff;
    let denom: u128 = tsegall as u128 * bitrate as u128;
    assert(denom >= 1) by (nonlinear_arith)
        requires denom == tsegall * bitrate, tsegall >= 1, bitrate >= 1;
    let q = btc.clock_hz as u128 / denom;
    assert(q <= btc.clock_hz) by (nonlinear_arith)
        requires denom >= 1, q == btc.clock_hz as int / denom as int;
    let b = q as u64 + tseg % 2;
    let qb = b / btc.brp_inc as u64;
    assert(qb * btc.brp_inc <= b) by (nonlinear_arith)
        requires qb == b as int / btc.brp_inc as int, btc.brp_inc >= 1, b >= 0;
    let brp64 = qb * btc.brp_inc as u64;
    if brp64 < btc.brp_min as u64 || brp64 > btc.brp_max as u64 || brp64 == 0 {
        return s;
    }
    let brp = brp64 as u32;
    assert(brp as u128 * tsegall as u128 <= 0x1_0000_0000 * 0x3_0000_0000) by (nonlinear_arith)
        requires brp <= 0xffff_ffff, tsegall <= 0x3_0000_0000;
    let d2: u128 = brp as u128 * tsegall as u128;
    assert(d2 >= 1) by (nonlinear_arith)
        requires d2 == brp * tsegall, brp >= 1, tsegall >= 1;
    let calc = btc.clock_hz as u128 / d2;
    assert(calc <= btc.clock_hz) by (nonlinear_arith)
        requires d2 >= 1, calc == btc.clock_hz as int / d2 as int;
    let calc = calc as u32;
    let err = if bitrate >= calc { bitrate - calc } else { calc - bitrate };
    if err > s.best_bitrate_error {
        return s;
    }
    let mut s1 = s;
    if err < s.best_bitrate_error {
        s1.best_sample_point_error = u32::MAX;
    }
    let c = update_sample_point(btc, spr, tseg / 2);
    if c.sample_point_error >= s1.best_sample_point_error {
        return s1;
    }
    SearchState {
        best_bitrate_error: err,
        best_sample_point_error: c.sample_point_error,
        best_tseg: tseg / 2,
        best_brp: brp,
        done: err == 0 && c.sample_point_error == 0,
    }
}

/// Largest and smallest doubled segment time tried.
pub open spec fn tseg_hi(btc: BitTimingConst) -> int {
    (btc.tseg1_max + btc.tseg2_max) * 2 + 1
}

pub open spec fn tseg_lo(btc: BitTimingConst) -> int {
    (btc.tseg1_min + btc.tseg2_min) * 2
}

/// Bitrate error in hundredths of a percent, at least 1, saturating.
pub open spec fn error_hundredths(err: int, bitrate: int) -> int {
    let e = err * 10_000 / bitrate;
    if e < 1 {
        1
    } else if e > u32::MAX {
        u32::MAX as int
    } else {
        e
    }
}

/// What the bitrate mode gives: see `solve_bitrate_mode`.
pub open spec fn bitrate_mode_result(
    btc: BitTimingConst,
    bitrate: u32,
    sample_point: Option<u32>,
    sjw: Option<u32>,
    max_bitrate_error: u32,
) -> Result<PhaseTiming, BitrateError> {
    if bitrate == 0 {
        Err(BitrateError::InvalidBitrate)
    } else if sample_point matches Some(sp) && sp >= 1000 {
        Err(BitrateError::InvalidSamplePoint)
    } else {
        let spr = match sample_point {
            Some(sp) => sp,
            None => default_sample_point(bitrate),
        };
        let s = search(btc, bitrate as int, spr as int, tseg_hi(btc), tseg_lo(btc), search_start());
        if s.best_brp == 0 {
            Err(BitrateError::NoSolution { bitrate })
        } else if s.best_bitrate_error != 0 && error_hundredths(s.best_bitrate_error as int, bitrate as int)
            > max_bitrate_error {
            Err(
                BitrateError::BitrateErrorTooHigh {
                    error_hundredth_percent: error_hundredths(s.best_bitrate_error as int, bitrate as int) as u32,
                    max_hundredth_percent: max_bitrate_error,
                },
            )
        } else {
            let c = best_split(btc, spr as int, s.best_tseg as int);
            let t1 = c.tseg1 as u32;
            let t2 = c.tseg2 as u32;
            let sjw = match sjw {
                Some(v) => v,
                None => default_sjw(t1, t2),
            };
            if !ranges_ok(btc, s.best_brp, t1, t2) || !sjw_ok(btc, sjw, t1, t2) {
                Err(ranges_sjw_error(btc, s.best_brp, t1, t2, sjw))
            } else {
                Ok(
                    PhaseTiming {
                        timing: AdapterBitTiming { brp: s.best_brp, tseg1: t1, tseg2: t2, sjw },
                        bitrate: timing_bitrate(btc.clock_hz, s.best_brp, t1, t2) as u32,
                        sample_point: c.sample_point,
                    },
                )
            }
        }
    }
}

/// The error `check_ranges`, then `check_sjw`, report.
pub open spec fn ranges_sjw_error(btc: BitTimingConst, brp: u32, tseg1: u32, tseg2: u32, sjw: u32) -> BitrateError {
    if !(btc.brp_min <= brp <= btc.brp_max) {
        BitrateError::BrpOutOfRange { brp, min: btc.brp_min, max: btc.brp_max }
    } else if brp % btc.brp_inc != 0 {
        BitrateError::InvalidBrpIncrement { brp, brp_inc: btc.brp_inc }
    } else if !(btc.tseg1_min <= tseg1 <= btc.tseg1_max) {
        BitrateError::Tseg1OutOfRange { tseg1, min: btc.tseg1_min, max: btc.tseg1_max }
    } else if !(btc.tseg2_min <= tseg2 <= btc.tseg2_max) {
        BitrateError::Tseg2OutOfRange { tseg2, min: btc.tseg2_min, max: btc.tseg2_max }
    } else if sjw > btc.sjw_max {
        BitrateError::SjwGreaterThanMax { sjw, max_sjw: btc.sjw_max }
    } else if sjw > phase_seg1(tseg1) {
        BitrateError::SjwGreaterThanPhaseSeg1 { sjw, phase_seg1: phase_seg1(tseg1) }
    } else {
        BitrateError::SjwGreaterThanPhaseSeg2 { sjw, phase_seg2: tseg2 }
    }
}

/// A phase timing within the limits, with the bitrate it gives.
pub open spec fn phase_ok(btc: BitTimingConst, p: PhaseTiming) -> bool {
    &&& ranges_ok(btc, p.timing.brp, p.timing.tseg1, p.timing.tseg2)
    &&& sjw_ok(btc, p.timing.sjw, p.timing.tseg1, p.timing.tseg2)
    &&& p.timing.brp >= 1
    &&& p.bitrate == timing_bitrate(btc.clock_hz, p.timing.brp, p.timing.tseg1, p.timing.tseg2)
}

/// The bitrate error is zero, or at most `max` hundredths of a percent.
pub open spec fn error_within(bitrate: u32, actual: u32, max: u32) -> bool {
    abs_diff(bitrate as int, actual as int) == 0 || error_hundredths(abs_diff(bitrate as int, actual as int), bitrate as int) <= max
}

/// What the search keeps of its best candidate: a real split of its
/// segment time, within the limits, and the bitrate error of its prescaler.
pub open spec fn search_inv(btc: BitTimingConst, bitrate: int, spr: int, s: SearchState) -> bool {
    s.best_brp != 0 ==> {
        &&& best_split(btc, spr, s.best_tseg as int).sample_point_error < u32::MAX
        &&& s.best_tseg <= btc.tseg1_max + btc.tseg2_max
        &&& s.best_bitrate_error == abs_diff(bitrate, btc.clock_hz as int / (s.best_brp as int * (1 + s.best_tseg)))
    }
}

proof fn lemma_div_le(a: int, d: int)
    requires
        a >= 0,
        d >= 1,
    ensures
        a / d <= a,
        a / d >= 0,
{
    assert(a / d <= a) by (nonlinear_arith)
        requires a >= 0, d >= 1;
    assert(a / d >= 0) by (nonlinear_arith)
        requires a >= 0, d >= 1;
}

proof fn lemma_search_inv(btc: BitTimingConst, bitrate: int, spr: int, hi: int, lo: int, s: SearchState)
    requires
        search_inv(btc, bitrate, spr, s),
        hi <= tseg_hi(btc),
        lo >= 0,
        1 <= bitrate <= u32::MAX,
        0 <= spr < 1000,
        timing_const_ok(btc),
    ensures
        search_inv(btc, bitrate, spr, search(btc, bitrate, spr, hi, lo, s)),
    decreases hi - lo + 1,
{
    if !(hi < lo || s.done) {
        let tsegall = 1 + hi / 2;
        let brp = prescaler(btc, bitrate, hi);
        if !(brp < btc.brp_min || brp > btc.brp_max || brp == 0) {
            assert(brp * tsegall >= 1) by (nonlinear_arith)
                requires brp >= 1, tsegall >= 1;
            lemma_div_le(btc.clock_hz as int, brp * tsegall);
        }
        lemma_search_inv(btc, bitrate, spr, hi - 1, lo, search_step(btc, bitrate, spr, hi, s));
    }
}

proof fn lemma_split_sum(btc: BitTimingConst, spr: int, tseg: int)
    requires
        0 <= tseg <= btc.tseg1_max + btc.tseg2_max,
        best_split(btc, spr, tseg).sample_point_error < u32::MAX,
    ensures
        best_split(btc, spr, tseg).tseg1 + best_split(btc, spr, tseg).tseg2 == tseg,
        best_split(btc, spr, tseg).tseg1 <= btc.tseg1_max,
        best_split(btc, spr, tseg).tseg2 <= u32::MAX,
{
}

/// The bitrate mode's timing is within the limits, has the bitrate its
/// prescaler and bit time give, and misses the target by at most the
/// largest error allowed.
pub proof fn lemma_bitrate_mode_ok(
    btc: BitTimingConst,
    bitrate: u32,
    sample_point: Option<u32>,
    sjw: Option<u32>,
    max_bitrate_error: u32,
)
    requires
        timing_const_ok(btc),
    ensures
        bitrate_mode_result(btc, bitrate, sample_point, sjw, max_bitrate_error) matches Ok(p) ==> {
            &&& phase_ok(btc, p)
            &&& error_within(bitrate, p.bitrate, max_bitrate_error)
        },
{
    if bitrate != 0 && !(sample_point matches Some(sp) && sp >= 1000) {
        let spr = match sample_point {
            Some(sp) => sp,
            None => default_sample_point(bitrate),
        };
        let s = search(btc, bitrate as int, spr as int, tseg_hi(btc), tseg_lo(btc), search_start());
        lemma_search_inv(btc, bitrate as int, spr as int, tseg_hi(btc), tseg_lo(btc), search_start());
        if s.best_brp != 0 {
            let c = best_split(btc, spr as int, s.best_tseg as int);
            lemma_split_sum(btc, spr as int, s.best_tseg as int);
            let t1 = c.tseg1 as u32;
            let t2 = c.tseg2 as u32;
            assert(t1 + t2 == s.best_tseg);
            assert(s.best_brp * (1 + t1 + t2) >= 1) by (nonlinear_arith)
                requires s.best_brp >= 1, t1 >= 0, t2 >= 0;
            lemma_div_le(btc.clock_hz as int, s.best_brp * (1 + t1 + t2));
        }
    }
}

/// Timing for a target bitrate: searches the segment times from the
/// longest down for the prescaler with the smallest bitrate error, then the
/// split with the closest sample point not after the one asked for (the
/// default for the bitrate when none is given). Fails with `InvalidBitrate`
/// for a zero bitrate, `InvalidSamplePoint` for a sample point of 1000 or
/// more, `NoSolution` when no prescaler fits, `BitrateErrorTooHigh` when the
/// error exceeds `max_bitrate_error` hundredths of a percent, or when the
/// result breaks the limits.
pub fn solve_bitrate_mode(
    btc: &BitTimingConst,
    bitrate: u32,
    sample_point: Option<u32>,
    sjw: Option<u32>,
    max_bitrate_error: u32,
) -> (r: Result<PhaseTiming, BitrateError>)
    requires
        timing_const_ok(*btc),
    ensures
        r == bitrate_mode_result(*btc, bitrate, sample_point, sjw, max_bitrate_error),
        r matches Ok(p) ==> phase_ok(*btc, p) && error_within(bitrate, p.bitrate, max_bitrate_error),
{
    proof {
        lemma_bitrate_mode_ok(*btc, bitrate, sample_point, sjw, max_bitrate_error);
    }
    if bitrate == 0 {
        return Err(BitrateError::InvalidBitrate);
    }
    let spr = match sample_point {
        Some(sp) => {
            if sp >= 1000 {
                return Err(BitrateError::InvalidSamplePoint);
            }
            sp
        },
        None => calc_default_sample_point_nrz(bitrate),
    };
    let hi: i64 = (btc.tseg1_max as i64 + btc.tseg2_max as i64) * 2 + 1;
    let lo: i64 = (btc.tseg1_min as i64 + btc.tseg2_min as i64) * 2;
    let ghost total = search(*btc, bitrate as int, spr as int, hi as int, lo as int, search_start());
    let mut s = SearchState {
        best_bitrate_error: u32::MAX,
        best_sample_point_error: u32::MAX,
        best_tseg: 0,
        best_brp: 0,
        done: false,
    };
    let mut t: i64 = hi;
    while t >= lo && !s.done
        invariant
            timing_const_ok(*btc),
            bitrate >= 1,
            spr < 1000,
            hi <= 0x4_0000_0001,
            lo >= 0,
            t <= hi,
            t >= lo - 1 || t == hi,
            hi == tseg_hi(*btc),
            s.best_tseg <= 0x2_0000_0000,
            s.best_tseg <= btc.tseg1_max + btc.tseg2_max,
            search(*btc, bitrate as int, spr as int, t as int, lo as int, s) == total,
        decreases t - lo + 1,
    {
        s = step(btc, bitrate, spr, t as u64, s);
        t = t - 1;
    }
    if s.best_brp == 0 {
        return Err(BitrateError::NoSolution { bitrate });
    }
    if s.best_bitrate_error != 0 {
        let e: u64 = s.best_bitrate_error as u64 * 10_000 / bitrate as u64;
        let e = if e < 1 {
            1
        } else if e > u32::MAX as u64 {
            u32::MAX as u64
        } else {
            e
        };
        if e > max_bitrate_error as u64 {
            return Err(BitrateError::BitrateErrorTooHigh {
                error_hundredth_percent: e as u32,
                max_hundredth_percent: max_bitrate_error,
            });
        }
    }
    let c = update_sample_point(btc, spr, s.best_tseg);
    let t1 = c.tseg1 as u32;
    let t2 = c.tseg2 as u32;
    let sjw = match sjw {
        Some(v) => v,
        None => calc_default_sjw(t1, t2),
    };
    match check_ranges(btc, s.best_brp, t1, t2) {
        Ok(()) => {},
        Err(e) => return Err(e),
    }
    match check_sjw(btc, sjw, t1, t2) {
        Ok(()) => {},
        Err(e) => return Err(e),
    }
    let (actual, _) = timing_values(btc.clock_hz, s.best_brp, t1, t2);
    Ok(PhaseTiming {
        timing: AdapterBitTiming { brp: s.best_brp, tseg1: t1, tseg2: t2, sjw },
        bitrate: actual,
        sample_point: c.sample_point,
    })
}

/// Resolved bitrate configuration.
#[derive(Debug, Clone, Copy, PartialEq, Eq, Structural)]
pub struct BitrateConfig {
    /// Adapter timing values of the nominal phase.
    pub timing: AdapterBitTiming,
    /// Actual bitrate in bits per second.
    pub bitrate: u32,
    /// Actual sample point in thousandths.
    pub sample_point: u32,
    /// CAN-FD data phase timing values.
    pub data_timing: Option<AdapterBitTiming>,
    /// CAN-FD data phase bitrate.
    pub data_bitrate: Option<u32>,
    /// CAN-FD data phase sample point in thousandths.
    pub data_sample_point: Option<u32>,
}

pub open spec fn bit_time_spec(t: AdapterBitTiming) -> int {
    CAN_SYNC_SEG + t.tseg1 + t.tseg2
}

impl BitrateConfig {
    /// Duration of one bit in time quanta.
    pub fn bit_time_tq(&self) -> (r: u32)
        requires
            bit_time_spec(self.timing) <= u32::MAX,
        ensures
            r == bit_time_spec(self.timing),
    {
        CAN_SYNC_SEG + self.timing.tseg1 + self.timing.tseg2
    }

    /// Duration of one CAN-FD data phase bit in time quanta.
    pub fn data_bit_time_tq(&self) -> (r: Option<u32>)
        requires
            self.data_timing matches Some(t) ==> bit_time_spec(t) <= u32::MAX,
        ensures
            r == match self.data_timing {
                Some(t) => Some(bit_time_spec(t) as u32),
                None => None,
            },
    {
        match self.data_timing {
            Some(t) => Some(CAN_SYNC_SEG + t.tseg1 + t.tseg2),
            None => None,
        }
    }
}

/// Builder of bitrate settings, in bitrate mode (`bitrate`, optional
/// `sample_point`) or direct mode (`brp`, `tseg1`, `tseg2`), with an
/// optional CAN-FD data phase. Sample points are in thousandths; 1000 or
/// more is invalid.
#[derive(Debug, Clone, Copy, PartialEq, Eq, Structural)]
pub struct BitrateBuilder {
    pub timing_const: AdapterTimingConst,
    pub bitrate: Option<u32>,
    pub sample_point: Option<u32>,
    pub brp: Option<u32>,
    pub tseg1: Option<u32>,
    pub tseg2: Option<u32>,
    pub sjw: Option<u32>,
    pub data_bitrate: Option<u32>,
    pub data_sample_point: Option<u32>,
    pub data_sjw: Option<u32>,
    pub max_bitrate_error: u32,
}

/// The nominal phase in direct mode.
pub open spec fn direct_mode_result(b: BitrateBuilder) -> Result<PhaseTiming, BitrateError> {
    let btc = b.timing_const.nominal;
    if b.sample_point is Some {
        Err(BitrateError::SamplePointRequiresBitrate)
    } else if b.brp is None && b.tseg1 is None && b.tseg2 is None && b.sjw is None {
        Err(BitrateError::MissingConfiguration)
    } else if b.brp is None {
        Err(BitrateError::MissingDirectField("brp"))
    } else if b.tseg1 is None {
        Err(BitrateError::MissingDirectField("tseg1"))
    } else if b.tseg2 is None {
        Err(BitrateError::MissingDirectField("tseg2"))
    } else {
        direct_result(btc, b.brp->0, b.tseg1->0, b.tseg2->0, b.sjw)
    }
}

/// The error `validate_timing_const` reports.
pub open spec fn timing_const_error(btc: BitTimingConst) -> BitrateError {
    if btc.clock_hz == 0 {
        BitrateError::InvalidClock
    } else {
        BitrateError::InvalidBrpIncrement { brp: 0, brp_inc: 0 }
    }
}

/// What `build` gives.
pub open spec fn build_result(b: BitrateBuilder) -> Result<BitrateConfig, BitrateError> {
    let btc = b.timing_const.nominal;
    if !timing_const_ok(btc) {
        Err(timing_const_error(btc))
    } else if b.data_sample_point is Some && b.data_bitrate is None {
        Err(BitrateError::DataSamplePointRequiresDataBitrate)
    } else if b.data_sjw is Some && b.data_bitrate is None {
        Err(BitrateError::DataSjwRequiresDataBitrate)
    } else if b.bitrate is Some && (b.brp is Some || b.tseg1 is Some || b.tseg2 is Some) {
        Err(BitrateError::MixedConfiguration)
    } else {
        let nominal = if b.bitrate is Some {
            bitrate_mode_result(btc, b.bitrate->0, b.sample_point, b.sjw, b.max_bitrate_error)
        } else {
            direct_mode_result(b)
        };
        match nominal {
            Err(e) => Err(e),
            Ok(n) => match b.data_bitrate {
                None => Ok(
                    BitrateConfig {
                        timing: n.timing,
                        bitrate: n.bitrate,
                        sample_point: n.sample_point,
                        data_timing: None,
                        data_bitrate: None,
                        data_sample_point: None,
                    },
                ),
                Some(dbr) => match b.timing_const.data {
                    None => Err(BitrateError::DataBitrateNotSupported),
                    Some(dc) => if !timing_const_ok(dc) {
                        Err(timing_const_error(dc))
                    } else {
                        match bitrate_mode_result(dc, dbr, b.data_sample_point, b.data_sjw, b.max_bitrate_error) {
                            Err(e) => Err(e),
                            Ok(d) => if d.bitrate < n.bitrate {
                                Err(
                                    BitrateError::DataBitrateLowerThanNominal {
                                        data_bitrate: d.bitrate,
                                        arbitration_bitrate: n.bitrate,
                                    },
                                )
                            } else {
                                Ok(
                                    BitrateConfig {
                                        timing: n.timing,
                                        bitrate: n.bitrate,
                                        sample_point: n.sample_point,
                                        data_timing: Some(d.timing),
                                        data_bitrate: Some(d.bitrate),
                                        data_sample_point: Some(d.sample_point),
                                    },
                                )
                            },
                        }
                    },
                },
            },
        }
    }
}

/// The nominal phase of a configuration.
pub open spec fn nominal_phase(c: BitrateConfig) -> PhaseTiming {
    PhaseTiming { timing: c.timing, bitrate: c.bitrate, sample_point: c.sample_point }
}

proof fn lemma_direct_ok(btc: BitTimingConst, brp: u32, tseg1: u32, tseg2: u32, sjw: Option<u32>)
    ensures
        direct_result(btc, brp, tseg1, tseg2, sjw) matches Ok(p) ==> phase_ok(btc, p),
{
    if brp >= 1 {
        assert(brp * (1 + tseg1 + tseg2) >= 1) by (nonlinear_arith)
            requires brp >= 1, tseg1 >= 0, tseg2 >= 0;
        lemma_div_le(btc.clock_hz as int, brp * (1 + tseg1 + tseg2));
    }
}

/// A built configuration is within the adapter's limits: the nominal phase,
/// and the data phase when there is one, whose bitrate is not below the
/// nominal one; each phase solved from a target bitrate misses it by at
/// most the largest error allowed.
pub proof fn lemma_build_ok(b: BitrateBuilder)
    ensures
        build_result(b) matches Ok(c) ==> {
            &&& phase_ok(b.timing_const.nominal, nominal_phase(c))
            &&& b.bitrate matches Some(br) ==> error_within(br, c.bitrate, b.max_bitrate_error)
            &&& (c.data_timing is Some <==> b.data_bitrate is Some)
            &&& c.data_timing matches Some(dt) ==> {
                &&& b.timing_const.data is Some
                &&& c.data_bitrate is Some && c.data_sample_point is Some
                &&& phase_ok(
                    b.timing_const.data->0,
                    PhaseTiming { timing: dt, bitrate: c.data_bitrate->0, sample_point: c.data_sample_point->0 },
                )
                &&& c.data_bitrate->0 >= c.bitrate
                &&& error_within(b.data_bitrate->0, c.data_bitrate->0, b.max_bitrate_error)
            }
        },
{
    let btc = b.timing_const.nominal;
    if timing_const_ok(btc) {
        if b.bitrate is Some {
            lemma_bitrate_mode_ok(btc, b.bitrate->0, b.sample_point, b.sjw, b.max_bitrate_error);
        } else if b.brp is Some && b.tseg1 is Some && b.tseg2 is Some {
            lemma_direct_ok(btc, b.brp->0, b.tseg1->0, b.tseg2->0, b.sjw);
        }
        if let Some(dc) = b.timing_const.data {
            if b.data_bitrate is Some && timing_const_ok(dc) {
                lemma_bitrate_mode_ok(dc, b.data_bitrate->0, b.data_sample_point, b.data_sjw, b.max_bitrate_error);
            }
        }
    }
}

impl BitrateBuilder {
    /// A builder with nothing set, for an adapter with these limits; the
    /// largest bitrate error is 0.50%.
    pub fn new(timing_const: AdapterTimingConst) -> (r: Self)
        ensures
            r == (BitrateBuilder {
                timing_const,
                bitrate: None,
                sample_point: None,
                brp: None,
                tseg1: None,
                tseg2: None,
                sjw: None,
                data_bitrate: None,
                data_sample_point: None,
                data_sjw: None,
                max_bitrate_error: CAN_CALC_MAX_ERROR,
            }),
    {
        BitrateBuilder {
            timing_const,
            bitrate: None,
            sample_point: None,
            brp: None,
            tseg1: None,
            tseg2: None,
            sjw: None,
            data_bitrate: None,
            data_sample_point: None,
            data_sjw: None,
            max_bitrate_error: CAN_CALC_MAX_ERROR,
        }
    }

    /// Target bitrate in bits per second.
    pub fn bitrate(self, bitrate: u32) -> (r: Self)
        ensures
            r == (BitrateBuilder { bitrate: Some(bitrate), ..self }),
    {
        BitrateBuilder { bitrate: Some(bitrate), ..self }
    }

    /// Target sample point in thousandths.
    pub fn sample_point(self, sample_point: u32) -> (r: Self)
        ensures
            r == (BitrateBuilder { sample_point: Some(sample_point), ..self }),
    {
        BitrateBuilder { sample_point: Some(sample_point), ..self }
    }

    /// Direct prescaler.
    pub fn brp(self, brp: u32) -> (r: Self)
        ensures
            r == (BitrateBuilder { brp: Some(brp), ..self }),
    {
        BitrateBuilder { brp: Some(brp), ..self }
    }

    /// Direct `tseg1`.
    pub fn tseg1(self, tseg1: u32) -> (r: Self)
        ensures
            r == (BitrateBuilder { tseg1: Some(tseg1), ..self }),
    {
        BitrateBuilder { tseg1: Some(tseg1), ..self }
    }

    /// Direct `tseg2`.
    pub fn tseg2(self, tseg2: u32) -> (r: Self)
        ensures
            r == (BitrateBuilder { tseg2: Some(tseg2), ..self }),
    {
        BitrateBuilder { tseg2: Some(tseg2), ..self }
    }

    /// SJW of the nominal phase, in either mode.
    pub fn sjw(self, sjw: u32) -> (r: Self)
        ensures
            r == (BitrateBuilder { sjw: Some(sjw), ..self }),
    {
        BitrateBuilder { sjw: Some(sjw), ..self }
    }

    /// Target bitrate of the CAN-FD data phase.
    pub fn data_bitrate(self, bitrate: u32) -> (r: Self)
        ensures
            r == (BitrateBuilder { data_bitrate: Some(bitrate), ..self }),
    {
        BitrateBuilder { data_bitrate: Some(bitrate), ..self }
    }

    /// Target sample point of the data phase, in thousandths.
    pub fn data_sample_point(self, sample_point: u32) -> (r: Self)
        ensures
            r == (BitrateBuilder { data_sample_point: Some(sample_point), ..self }),
    {
        BitrateBuilder { data_sample_point: Some(sample_point), ..self }
    }

    /// SJW of the data phase.
    pub fn data_sjw(self, sjw: u32) -> (r: Self)
        ensures
            r == (BitrateBuilder { data_sjw: Some(sjw), ..self }),
    {
        BitrateBuilder { data_sjw: Some(sjw), ..self }
    }

    /// Largest bitrate error in hundredths of a percent.
    pub fn max_bitrate_error(self, max_bitrate_error: u32) -> (r: Self)
        ensures
            r == (BitrateBuilder { max_bitrate_error, ..self }),
    {
        BitrateBuilder { max_bitrate_error, ..self }
    }

    fn build_from_direct_mode(&self) -> (r: Result<PhaseTiming, BitrateError>)
        requires
            timing_const_ok(self.timing_const.nominal),
        ensures
            r == direct_mode_result(*self),
    {
        if self.sample_point.is_some() {
            return Err(BitrateError::SamplePointRequiresBitrate);
        }
        if self.brp.is_none() && self.tseg1.is_none() && self.tseg2.is_none() && self.sjw.is_none() {
            return Err(BitrateError::MissingConfiguration);
        }
        let brp = match self.brp {
            Some(v) => v,
            None => return Err(BitrateError::MissingDirectField("brp")),
        };
        let tseg1 = match self.tseg1 {
            Some(v) => v,
            None => return Err(BitrateError::MissingDirectField("tseg1")),
        };
        let tseg2 = match self.tseg2 {
            Some(v) => v,
            None => return Err(BitrateError::MissingDirectField("tseg2")),
        };
        solve_direct_mode(&self.timing_const.nominal, brp, tseg1, tseg2, self.sjw)
    }

    /// Resolves the settings: checks the adapter limits and that the options
    /// fit together, then solves the nominal phase (bitrate or direct mode)
    /// and the data phase, whose bitrate may not be below the nominal one.
    pub fn build(self) -> (r: Result<BitrateConfig, BitrateError>)
        ensures
            r == build_result(self),
            r matches Ok(c) ==> phase_ok(self.timing_const.nominal, nominal_phase(c)),
            r matches Ok(c) ==> (c.data_bitrate matches Some(d) ==> d >= c.bitrate),
    {
        proof {
            lemma_build_ok(self);
        }
        match validate_timing_const(&self.timing_const.nominal) {
            Ok(()) => {},
            Err(e) => return Err(e),
        }
        if self.data_sample_point.is_some() && self.data_bitrate.is_none() {
            return Err(BitrateError::DataSamplePointRequiresDataBitrate);
        }
        if self.data_sjw.is_some() && self.data_bitrate.is_none() {
            return Err(BitrateError::DataSjwRequiresDataBitrate);
        }
        let has_bitrate_mode = self.bitrate.is_some();
        let has_direct = self.brp.is_some() || self.tseg1.is_some() || self.tseg2.is_some();
        if has_bitrate_mode && has_direct {
            return Err(BitrateError::MixedConfiguration);
        }
        let nominal = match self.bitrate {
            Some(br) => solve_bitrate_mode(&self.timing_const.nominal, br, self.sample_point, self.sjw, self.max_bitrate_error),
            None => self.build_from_direct_mode(),
        };
        let n = match nominal {
            Ok(n) => n,
            Err(e) => return Err(e),
        };
        match self.data_bitrate {
            None => Ok(BitrateConfig {
                timing: n.timing,
                bitrate: n.bitrate,
                sample_point: n.sample_point,
                data_timing: None,
                data_bitrate: None,
                data_sample_point: None,
            }),
            Some(dbr) => {
                let dc = match self.timing_const.data {
                    Some(dc) => dc,
                    None => return Err(BitrateError::DataBitrateNotSupported),
                };
                match validate_timing_const(&dc) {
                    Ok(()) => {},
                    Err(e) => return Err(e),
                }
                let d = match solve_bitrate_mode(&dc, dbr, self.data_sample_point, self.data_sjw, self.max_bitrate_error) {
                    Ok(d) => d,
                    Err(e) => return Err(e),
                };
                if d.bitrate < n.bitrate {
                    return Err(BitrateError::DataBitrateLowerThanNominal {
                        data_bitrate: d.bitrate,
                        arbitration_bitrate: n.bitrate,
                    });
                }
                Ok(BitrateConfig {
                    timing: n.timing,
                    bitrate: n.bitrate,
                    sample_point: n.sample_point,
                    data_timing: Some(d.timing),
                    data_bitrate: Some(d.bitrate),
                    data_sample_point: Some(d.sample_point),
                })
            },
        }
    }
}

} // verus!
