//! Bit timing parameters for Vector XL interfaces (SJA1000-style registers
//! and CAN-FD timing), with their validation.
use vstd::prelude::*;

verus! {

/// Vector interface error kinds.
#[derive(Debug, Clone, PartialEq)]
pub enum Error {
    DriverError(String),
    BitTimingError(String),
}

/// Classic or CAN-FD bit timing.
pub enum BitTimingKind {
    Standard(BitTiming),
    Extended(BitTimingFd),
}

/// Classic CAN bit timing.
#[derive(Clone, Debug)]
pub struct BitTiming {
    pub f_clock: u32,
    pub brp: u8,
    pub tseg1: u8,
    pub tseg2: u8,
    pub sjw: u8,
    pub nof_sample_points: u32,
    pub strict: bool,
}

/// Bit time in time quanta.
pub open spec fn bit_time(tseg1: int, tseg2: int) -> int {
    1 + tseg1 + tseg2
}

/// Bitrate for a clock, prescaler and bit time.
pub open spec fn bitrate_of(f_clock: int, brp: int, bt: int) -> int {
    f_clock / (brp * bt)
}

/// The sample point, `(1 + tseg1) / (1 + tseg1 + tseg2)`, is at least 50%.
pub open spec fn sample_point_ok(tseg1: int, tseg2: int) -> bool {
    2 * (1 + tseg1) >= bit_time(tseg1, tseg2)
}

/// Limits on classic bit timing; `strict` adds the limits of ISO 11898-1.
pub open spec fn bit_timing_ok(f_clock: u32, brp: u8, tseg1: u8, tseg2: u8, sjw: u8, nof_sample_points: u32, strict: bool) -> bool {
    &&& 1 <= brp <= 64
    &&& 1 <= tseg1 <= 16
    &&& 1 <= tseg2 <= 8
    &&& 1 <= sjw <= 4
    &&& sjw <= tseg2
    &&& sample_point_ok(tseg1 as int, tseg2 as int)
    &&& (nof_sample_points == 1 || nof_sample_points == 3)
    &&& strict ==> {
        &&& 8 <= bit_time(tseg1 as int, tseg2 as int) <= 25
        &&& brp <= 32
        &&& 5_000 <= bitrate_of(f_clock as int, brp as int, bit_time(tseg1 as int, tseg2 as int)) <= 1_000_000
    }
}

fn fail<T>(msg: &str) -> (r: Result<T, Error>)
    ensures
        r matches Err(e) && e is BitTimingError,
{
    Err(Error::BitTimingError(msg.to_owned()))
}

impl BitTiming {
    pub open spec fn wf(&self) -> bool {
        bit_timing_ok(self.f_clock, self.brp, self.tseg1, self.tseg2, self.sjw, self.nof_sample_points, self.strict)
    }

    /// Validated classic bit timing; the error names the limit broken.
    pub fn new(
        f_clock: u32,
        brp: u8,
        tseg1: u8,
        tseg2: u8,
        sjw: u8,
        nof_sample_points: u32,
        strict: bool,
    ) -> (r: Result<Self, Error>)
        ensures
            r is Ok <==> bit_timing_ok(f_clock, brp, tseg1, tseg2, sjw, nof_sample_points, strict),
            r matches Ok(t) ==> t.wf() && t.f_clock == f_clock && t.brp == brp && t.tseg1 == tseg1
                && t.tseg2 == tseg2 && t.sjw == sjw && t.nof_sample_points == nof_sample_points
                && t.strict == strict,
            r matches Err(e) ==> e is BitTimingError,
    {
        if brp < 1 || brp > 64 {
            return fail("BRP must be between 1 and 64");
        }
        if tseg1 < 1 || tseg1 > 16 {
            return fail("TSEG1 must be between 1 and 16");
        }
        if tseg2 < 1 || tseg2 > 8 {
            return fail("TSEG2 must be between 1 and 8");
        }
        if sjw < 1 || sjw > 4 {
            return fail("SJW must be between 1 and 4");
        }
        if sjw > tseg2 {
            return fail("SJW must be less than or equal to TSEG2");
        }
        if 2 * (1 + tseg1 as u32) < 1 + tseg1 as u32 + tseg2 as u32 {
            return fail("Sample point must be greater than or equal to 50%");
        }
        if nof_sample_points != 1 && nof_sample_points != 3 {
            return fail("Number of sample points must be 1 or 3");
        }
        if strict {
            let nbt = 1 + tseg1 as u32 + tseg2 as u32;
            if nbt < 8 || nbt > 25 {
                return fail("NBT must be between 8 and 25");
            }
            if brp > 32 {
                return fail("BRP must be between 1 and 32");
            }
            assert(1 <= brp as u32 * nbt <= 800) by (nonlinear_arith)
                requires 1 <= brp <= 32, 8 <= nbt <= 25;
            let bitrate = f_clock / (brp as u32 * nbt);
            if bitrate < 5_000 || bitrate > 1_000_000 {
                return fail("Bitrate must be between 5_000 and 1_000_000");
            }
        }
        Ok(BitTiming { f_clock, brp, tseg1, tseg2, sjw, nof_sample_points, strict })
    }

    /// Bit timing register 0 of an SJA1000: SJW - 1 in bits 6..7, BRP - 1
    /// in bits 0..5.
    pub fn btr0(&self) -> (r: u8)
        requires
            self.wf(),
        ensures
            r == (self.sjw - 1) * 64 + (self.brp - 1),
    {
        let s = self.sjw - 1;
        let b = self.brp - 1;
        let r = (s << 6u8) | b;
        assert(r == s * 64 + b) by (bit_vector)
            requires s < 4, b < 64, r == (s << 6u8) | b;
        r
    }

    /// Bit timing register 1 of an SJA1000: triple sampling in bit 7,
    /// TSEG2 - 1 in bits 4..6, TSEG1 - 1 in bits 0..3.
    pub fn btr1(&self) -> (r: u8)
        requires
            self.wf(),
        ensures
            r == (if self.nof_sample_points == 3 { 128int } else { 0 }) + (self.tseg2 - 1) * 16 + (self.tseg1 - 1),
    {
        let sam: u8 = if self.nof_sample_points == 3 { 1 } else { 0 };
        let t2 = self.tseg2 - 1;
        let t1 = self.tseg1 - 1;
        let r = (sam << 7u8) | (t2 << 4u8) | t1;
        assert(r == sam * 128 + t2 * 16 + t1) by (bit_vector)
            requires sam < 2, t2 < 8, t1 < 16, r == (sam << 7u8) | (t2 << 4u8) | t1;
        r
    }
}

/// CAN-FD bit timing.
#[derive(Clone, Debug)]
pub struct BitTimingFd {
    pub f_clock: u32,
    pub nom_brp: u32,
    pub nom_tseg1: u32,
    pub nom_tseg2: u32,
    pub nom_sjw: u32,
    pub data_brp: u32,
    pub data_tseg1: u32,
    pub data_tseg2: u32,
    pub data_sjw: u32,
    pub strict: bool,
}

/// Limits on CAN-FD bit timing.
pub open spec fn bit_timing_fd_ok(t: BitTimingFd) -> bool {
    let nbt = bit_time(t.nom_tseg1 as int, t.nom_tseg2 as int);
    let dbt = bit_time(t.data_tseg1 as int, t.data_tseg2 as int);
    &&& t.nom_brp >= 1
    &&& t.data_brp >= 1
    &&& bitrate_of(t.f_clock as int, t.data_brp as int, dbt) >= bitrate_of(t.f_clock as int, t.nom_brp as int, nbt)
    &&& t.nom_sjw <= t.nom_tseg2
    &&& t.data_sjw <= t.data_tseg2
    &&& sample_point_ok(t.nom_tseg1 as int, t.nom_tseg2 as int)
    &&& sample_point_ok(t.data_tseg1 as int, t.data_tseg2 as int)
    &&& t.strict ==> 8 <= nbt <= 80 && 5 <= dbt <= 25
}

/// `f_clock / (brp * (1 + tseg1 + tseg2))`.
fn bitrate(f_clock: u32, brp: u32, tseg1: u32, tseg2: u32) -> (r: u32)
    requires
        brp >= 1,
    ensures
        r == bitrate_of(f_clock as int, brp as int, bit_time(tseg1 as int, tseg2 as int)),
{
    let bt: u128 = 1 + tseg1 as u128 + tseg2 as u128;
    assert(brp as u128 * bt <= 0x1_0000_0000 * 0x3_0000_0000) by (nonlinear_arith)
        requires brp <= 0xffff_ffff, bt <= 0x2_0000_0000;
    let d: u128 = brp as u128 * bt;
    assert(d >= 1) by (nonlinear_arith)
        requires brp >= 1, bt >= 1, d == brp * bt;
    let q = f_clock as u128 / d;
    assert(q <= f_clock) by (nonlinear_arith)
        requires d >= 1, q == f_clock as int / d as int, f_clock >= 0;
    q as u32
}

impl BitTimingFd {
    pub open spec fn wf(&self) -> bool {
        bit_timing_fd_ok(*self)
    }

    /// Validated CAN-FD bit timing; the error names the limit broken.
    pub fn new(
        f_clock: u32,
        nom_brp: u32,
        nom_tseg1: u32,
        nom_tseg2: u32,
        nom_sjw: u32,
        data_brp: u32,
        data_tseg1: u32,
        data_tseg2: u32,
        data_sjw: u32,
        strict: bool,
    ) -> (r: Result<Self, Error>)
        ensures
            ({
                let t = BitTimingFd {
                    f_clock,
                    nom_brp,
                    nom_tseg1,
                    nom_tseg2,
                    nom_sjw,
                    data_brp,
                    data_tseg1,
                    data_tseg2,
                    data_sjw,
                    strict,
                };
                &&& r is Ok <==> bit_timing_fd_ok(t)
                &&& r matches Ok(v) ==> v == t
                &&& r matches Err(e) ==> e is BitTimingError
            }),
    {
        if nom_brp < 1 {
            return fail("Nominal BRP must be at least 1");
        }
        if data_brp < 1 {
            return fail("Data BRP must be at least 1");
        }
        if bitrate(f_clock, data_brp, data_tseg1, data_tseg2) < bitrate(f_clock, nom_brp, nom_tseg1, nom_tseg2) {
            return fail("Data bitrate must be greater than or equal to nominal bitrate");
        }
        if nom_sjw > nom_tseg2 {
            return fail("Nominal SJW must be less than or equal to Nominal TSEG2");
        }
        if data_sjw > data_tseg2 {
            return fail("Data SJW must be less than or equal to Data TSEG2");
        }
        if 2 * (1 + nom_tseg1 as u64) < 1 + nom_tseg1 as u64 + nom_tseg2 as u64 {
            return fail("Nominal sample point must be greater than or equal to 50%");
        }
        if 2 * (1 + data_tseg1 as u64) < 1 + data_tseg1 as u64 + data_tseg2 as u64 {
            return fail("Data sample point must be greater than or equal to 50%");
        }
        if strict {
            let nbt = 1 + nom_tseg1 as u64 + nom_tseg2 as u64;
            let dbt = 1 + data_tseg1 as u64 + data_tseg2 as u64;
            if nbt < 8 || nbt > 80 {
                return fail("NBT must be between 8 and 80");
            }
            if dbt < 5 || dbt > 25 {
                return fail("DBT must be between 5 and 25");
            }
        }
        Ok(BitTimingFd {
            f_clock,
            nom_brp,
            nom_tseg1,
            nom_tseg2,
            nom_sjw,
            data_brp,
            data_tseg1,
            data_tseg2,
            data_sjw,
            strict,
        })
    }

    /// Nominal (arbitration phase) bitrate.
    pub fn nom_bitrate(&self) -> (r: u32)
        requires
            self.nom_brp >= 1,
        ensures
            r == bitrate_of(self.f_clock as int, self.nom_brp as int, bit_time(self.nom_tseg1 as int, self.nom_tseg2 as int)),
    {
        bitrate(self.f_clock, self.nom_brp, self.nom_tseg1, self.nom_tseg2)
    }

    /// Data phase bitrate.
    pub fn data_bitrate(&self) -> (r: u32)
        requires
            self.data_brp >= 1,
        ensures
            r == bitrate_of(self.f_clock as int, self.data_brp as int, bit_time(self.data_tseg1 as int, self.data_tseg2 as int)),
    {
        bitrate(self.f_clock, self.data_brp, self.data_tseg1, self.data_tseg2)
    }
}

/// A Vector channel: by global index, or by application name and the
/// application's channel index.
#[derive(Debug, Clone, PartialEq)]
pub enum VectorChannel {
    ChannelIndex(u32),
    Application(String, u32),
}

/// Event tags of received XL CAN events.
#[allow(non_camel_case_types)]
#[derive(Debug, Clone, Copy, PartialEq, Eq, Structural)]
pub enum RxTags {
    XL_CAN_EV_TAG_RX_OK,
    XL_CAN_EV_TAG_RX_ERROR,
    XL_CAN_EV_TAG_TX_ERROR,
    XL_CAN_EV_TAG_TX_REQUEST,
    XL_CAN_EV_TAG_TX_OK,
    XL_CAN_EV_TAG_CHIP_STATE,
}

pub open spec fn rx_tag_spec(v: u16) -> Option<RxTags> {
    if v == 0x0400 {
        Some(RxTags::XL_CAN_EV_TAG_RX_OK)
    } else if v == 0x0401 {
        Some(RxTags::XL_CAN_EV_TAG_RX_ERROR)
    } else if v == 0x0402 {
        Some(RxTags::XL_CAN_EV_TAG_TX_ERROR)
    } else if v == 0x0403 {
        Some(RxTags::XL_CAN_EV_TAG_TX_REQUEST)
    } else if v == 0x0404 {
        Some(RxTags::XL_CAN_EV_TAG_TX_OK)
    } else if v == 0x0409 {
        Some(RxTags::XL_CAN_EV_TAG_CHIP_STATE)
    } else {
        None
    }
}

impl RxTags {
    /// The tag with this value.
    pub fn from_repr(v: u16) -> (r: Option<RxTags>)
        ensures
            r == rx_tag_spec(v),
    {
        if v == 0x0400 {
            Some(RxTags::XL_CAN_EV_TAG_RX_OK)
        } else if v == 0x0401 {
            Some(RxTags::XL_CAN_EV_TAG_RX_ERROR)
        } else if v == 0x0402 {
            Some(RxTags::XL_CAN_EV_TAG_TX_ERROR)
        } else if v == 0x0403 {
            Some(RxTags::XL_CAN_EV_TAG_TX_REQUEST)
        } else if v == 0x0404 {
            Some(RxTags::XL_CAN_EV_TAG_TX_OK)
        } else if v == 0x0409 {
            Some(RxTags::XL_CAN_EV_TAG_CHIP_STATE)
        } else {
            None
        }
    }
}

} // verus!
