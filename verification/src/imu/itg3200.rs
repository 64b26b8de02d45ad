//! Register-level rules and calibration state of the ITG3200 gyroscope:
//! register field edits, big-endian sample decoding, offset and polarity
//! correction, and zero-rate calibration by averaging samples.

use vstd::prelude::*;
use crate::imu::adxl345::{combine_le, i16_from_bytes};
use crate::imu::itg3200_registers::{
    DLPFFS_DLPF_CFG, DLPFFS_FS_SEL, INTCFG_ITG_RDY_EN, INTCFG_RAW_RDY_EN, INTSTATUS_ITG_RDY,
    INTSTATUS_RAW_DATA_RDY, ITG3200_ADDR,
};

verus! {

/// `value` with the bits of `mask` set when `state` holds and cleared otherwise.
pub open spec fn spec_with_flag(value: u8, mask: u8, state: bool) -> u8 {
    if state {
        value | mask
    } else {
        value & !mask
    }
}

/// Combines a big-endian byte pair (high byte first) into a signed sample.
pub fn combine_be(hi: u8, lo: u8) -> (v: i16)
    ensures
        v == i16_from_bytes(hi, lo),
{
    combine_le(lo, hi)
}

/// Decodes the six bytes read from `GYRO_XOUT` onwards into the X, Y and Z
/// rates (each axis big-endian).
pub fn decode_gyro(buffer: &[u8; 6]) -> (r: (i16, i16, i16))
    ensures
        r.0 == i16_from_bytes(buffer[0], buffer[1]),
        r.1 == i16_from_bytes(buffer[2], buffer[3]),
        r.2 == i16_from_bytes(buffer[4], buffer[5]),
{
    (combine_be(buffer[0], buffer[1]), combine_be(buffer[2], buffer[3]), combine_be(buffer[4], buffer[5]))
}

/// Decodes the two bytes read from `TEMP_OUT` (big-endian) into the raw temperature.
pub fn decode_temp(buffer: &[u8; 2]) -> (r: i16)
    ensures
        r == i16_from_bytes(buffer[0], buffer[1]),
{
    combine_be(buffer[0], buffer[1])
}

/// The low-pass/full-scale register with its full-scale field replaced by
/// `range` (masked to the field), every other bit kept.
pub fn format_with_full_scale(current: u8, range: u8) -> (r: u8)
    ensures
        r == (current & !DLPFFS_FS_SEL) | ((range << 3u8) & DLPFFS_FS_SEL),
        r & !DLPFFS_FS_SEL == current & !DLPFFS_FS_SEL,
        (r & DLPFFS_FS_SEL) >> 3u8 == range & 0x03,
{
    let r = (current & !DLPFFS_FS_SEL) | ((range << 3u8) & DLPFFS_FS_SEL);
    assert(((current & !0x18u8) | ((range << 3u8) & 0x18u8)) & !0x18u8 == current & !0x18u8
        && (((current & !0x18u8) | ((range << 3u8) & 0x18u8)) & 0x18u8) >> 3u8 == range & 0x03u8)
        by (bit_vector);
    r
}

/// The full-scale setting held in a low-pass/full-scale register value.
pub fn full_scale_of(value: u8) -> (r: u8)
    ensures
        r == (value & DLPFFS_FS_SEL) >> 3u8,
        r <= 3,
{
    assert((value & 0x18u8) >> 3u8 <= 3) by (bit_vector);
    (value & DLPFFS_FS_SEL) >> 3u8
}

/// The low-pass/full-scale register with its filter field replaced by `bw`
/// (masked to the field), every other bit kept.
pub fn format_with_filter(current: u8, bw: u8) -> (r: u8)
    ensures
        r == (current & !DLPFFS_DLPF_CFG) | (bw & DLPFFS_DLPF_CFG),
        r & !DLPFFS_DLPF_CFG == current & !DLPFFS_DLPF_CFG,
        r & DLPFFS_DLPF_CFG == bw & DLPFFS_DLPF_CFG,
{
    let r = (current & !DLPFFS_DLPF_CFG) | (bw & DLPFFS_DLPF_CFG);
    assert(((current & !0x07u8) | (bw & 0x07u8)) & !0x07u8 == current & !0x07u8
        && ((current & !0x07u8) | (bw & 0x07u8)) & 0x07u8 == bw & 0x07u8) by (bit_vector);
    r
}

/// The filter setting held in a low-pass/full-scale register value.
pub fn filter_of(value: u8) -> (r: u8)
    ensures
        r == value & DLPFFS_DLPF_CFG,
        r <= 7,
{
    assert(value & 0x07u8 <= 7) by (bit_vector);
    value & DLPFFS_DLPF_CFG
}

/// The power management register with its clock source field (bits 0-2)
/// replaced by `source` (masked to the field), every other bit kept.
pub fn format_with_clock_source(current: u8, source: u8) -> (r: u8)
    ensures
        r == (current & 0xF8) | (source & 0x07),
        r & 0xF8 == current & 0xF8,
        r & 0x07 == source & 0x07,
{
    let r = (current & 0xF8) | (source & 0x07);
    assert(((current & 0xF8u8) | (source & 0x07u8)) & 0xF8u8 == current & 0xF8u8
        && ((current & 0xF8u8) | (source & 0x07u8)) & 0x07u8 == source & 0x07u8) by (bit_vector);
    r
}

/// The clock source held in a power management register value.
pub fn clock_source_of(value: u8) -> (r: u8)
    ensures
        r == value & 0x07,
        r <= 7,
{
    assert(value & 0x07u8 <= 7) by (bit_vector);
    value & 0x07
}

/// `value` with the bits of `mask` set or cleared; no other bit changes.
fn with_flag(value: u8, mask: u8, state: bool) -> (r: u8)
    requires
        mask == 0x01 || mask == 0x04,
    ensures
        r == spec_with_flag(value, mask, state),
        (r & mask != 0) == state,
        r & !mask == value & !mask,
{
    if state {
        assert((mask == 0x01u8 || mask == 0x04u8) ==> ((value | mask) & mask != 0
            && (value | mask) & !mask == value & !mask)) by (bit_vector);
        value | mask
    } else {
        assert((mask == 0x01u8 || mask == 0x04u8) ==> ((value & !mask) & mask == 0
            && (value & !mask) & !mask == value & !mask)) by (bit_vector);
        value & !mask
    }
}

/// The interrupt configuration register with the device-ready interrupt
/// enabled or disabled, every other bit kept.
pub fn int_cfg_with_itg_ready(current: u8, state: bool) -> (r: u8)
    ensures
        r == spec_with_flag(current, INTCFG_ITG_RDY_EN, state),
        (r & INTCFG_ITG_RDY_EN != 0) == state,
        r & !INTCFG_ITG_RDY_EN == current & !INTCFG_ITG_RDY_EN,
{
    with_flag(current, INTCFG_ITG_RDY_EN, state)
}

/// The interrupt configuration register with the raw-data-ready interrupt
/// enabled or disabled, every other bit kept.
pub fn int_cfg_with_raw_data_ready(current: u8, state: bool) -> (r: u8)
    ensures
        r == spec_with_flag(current, INTCFG_RAW_RDY_EN, state),
        (r & INTCFG_RAW_RDY_EN != 0) == state,
        r & !INTCFG_RAW_RDY_EN == current & !INTCFG_RAW_RDY_EN,
{
    with_flag(current, INTCFG_RAW_RDY_EN, state)
}

/// Whether an interrupt status value reports the device as ready.
pub fn status_itg_ready(status: u8) -> (r: bool)
    ensures
        r == (status & INTSTATUS_ITG_RDY != 0),
{
    status & INTSTATUS_ITG_RDY != 0
}

/// Whether an interrupt status value reports raw data as ready.
pub fn status_raw_data_ready(status: u8) -> (r: bool)
    ensures
        r == (status & INTSTATUS_RAW_DATA_RDY != 0),
{
    status & INTSTATUS_RAW_DATA_RDY != 0
}

/// Writing a full-scale setting of at most 3 and reading it back gives that setting.
pub proof fn lemma_full_scale_round_trip(current: u8, range: u8)
    requires
        range <= 3,
    ensures
        (((current & !DLPFFS_FS_SEL) | ((range << 3u8) & DLPFFS_FS_SEL)) & DLPFFS_FS_SEL) >> 3u8 == range,
{
    assert(range <= 3 ==> (((current & !0x18u8) | ((range << 3u8) & 0x18u8)) & 0x18u8) >> 3u8 == range)
        by (bit_vector);
}

/// Quotient of `a` by a positive `b`, rounded toward zero.
pub open spec fn trunc_div(a: int, b: int) -> int {
    if a >= 0 {
        a / b
    } else {
        -((-a) / b)
    }
}

/// Sum of a sequence of samples.
pub open spec fn sum_of(s: Seq<i16>) -> int
    decreases s.len(),
{
    if s.len() == 0 {
        0
    } else {
        sum_of(s.drop_last()) + s.last()
    }
}

/// A raw rate corrected by an offset and, when `rev` holds, negated.
pub open spec fn spec_corrected(raw: i16, offset: i16, rev: bool) -> int {
    if rev {
        -(raw - offset)
    } else {
        raw - offset
    }
}

/// Whether correcting `raw` by `offset` (and negating it when `rev` holds)
/// stays within `i16`.
pub open spec fn correction_fits(raw: i16, offset: i16, rev: bool) -> bool {
    &&& i16::MIN <= raw - offset <= i16::MAX
    &&& rev ==> raw - offset != i16::MIN
}

/// The sum of samples lies between the least and the greatest sample value times the count.
pub proof fn lemma_sum_bounds(s: Seq<i16>)
    ensures
        i16::MIN * s.len() <= sum_of(s) <= i16::MAX * s.len(),
    decreases s.len(),
{
    if s.len() > 0 {
        lemma_sum_bounds(s.drop_last());
    }
}

/// Rounding toward zero keeps a mean of `i16` samples within `i16`.
proof fn lemma_trunc_mean_bounds(sum: int, n: int)
    requires
        n > 0,
        i16::MIN * n <= sum <= i16::MAX * n,
    ensures
        i16::MIN <= trunc_div(sum, n) <= i16::MAX,
{
    if sum >= 0 {
        assert(sum / n <= i16::MAX) by (nonlinear_arith)
            requires
                0 <= sum <= 32767 * n,
                n > 0,
        ;
        assert(sum / n >= 0) by (nonlinear_arith)
            requires
                0 <= sum,
                n > 0,
        ;
    } else {
        assert((-sum) / n <= 32768) by (nonlinear_arith)
            requires
                0 < -sum <= 32768 * n,
                n > 0,
        ;
        assert((-sum) / n >= 0) by (nonlinear_arith)
            requires
                0 < -sum,
                n > 0,
        ;
    }
}

/// Rounded-toward-zero division of a sum by a positive count, as `/` on `i32` computes it.
fn trunc_div_i32(a: i32, b: i32) -> (r: i32)
    requires
        b > 0,
    ensures
        r == trunc_div(a as int, b as int),
{
    a / b
}

/// Running sums of gyroscope samples taken while the sensor is held still,
/// from which the zero-rate offsets are computed.
pub struct GyroSampleSum {
    x_sum: i32,
    y_sum: i32,
    z_sum: i32,
    count: u16,
    readings: Ghost<Seq<(i16, i16, i16)>>,
}

impl GyroSampleSum {
    /// The samples added so far, in order.
    pub closed spec fn readings(&self) -> Seq<(i16, i16, i16)> {
        self.readings@
    }

    /// The X rates added so far.
    pub open spec fn xs(&self) -> Seq<i16> {
        self.readings().map_values(|t: (i16, i16, i16)| t.0)
    }

    /// The Y rates added so far.
    pub open spec fn ys(&self) -> Seq<i16> {
        self.readings().map_values(|t: (i16, i16, i16)| t.1)
    }

    /// The Z rates added so far.
    pub open spec fn zs(&self) -> Seq<i16> {
        self.readings().map_values(|t: (i16, i16, i16)| t.2)
    }

    /// The sums and the count agree with the samples added.
    pub closed spec fn wf(&self) -> bool {
        &&& self.count == self.readings@.len()
        &&& self.x_sum == sum_of(self.xs())
        &&& self.y_sum == sum_of(self.ys())
        &&& self.z_sum == sum_of(self.zs())
    }

    /// An empty set of samples.
    pub fn new() -> (r: Self)
        ensures
            r.wf(),
            r.readings() == Seq::<(i16, i16, i16)>::empty(),
    {
        let r = GyroSampleSum { x_sum: 0, y_sum: 0, z_sum: 0, count: 0, readings: Ghost(Seq::empty()) };
        assert(r.xs() =~= Seq::<i16>::empty());
        assert(r.ys() =~= Seq::<i16>::empty());
        assert(r.zs() =~= Seq::<i16>::empty());
        r
    }

    /// The number of samples added.
    pub fn count(&self) -> (r: u16)
        requires
            self.wf(),
        ensures
            r == self.readings().len(),
    {
        self.count
    }

    /// Adds one sample. At most `u16::MAX` samples are taken, the largest count
    /// a calibration can ask for.
    pub fn add(&mut self, x: i16, y: i16, z: i16)
        requires
            old(self).wf(),
            old(self).readings().len() < u16::MAX,
        ensures
            final(self).wf(),
            final(self).readings() == old(self).readings().push((x, y, z)),
    {
        let ghost old_readings = self.readings@;
        let ghost new_readings = old_readings.push((x, y, z));
        proof {
            assert(new_readings.map_values(|t: (i16, i16, i16)| t.0).drop_last()
                =~= old_readings.map_values(|t: (i16, i16, i16)| t.0));
            assert(new_readings.map_values(|t: (i16, i16, i16)| t.1).drop_last()
                =~= old_readings.map_values(|t: (i16, i16, i16)| t.1));
            assert(new_readings.map_values(|t: (i16, i16, i16)| t.2).drop_last()
                =~= old_readings.map_values(|t: (i16, i16, i16)| t.2));
            lemma_sum_bounds(old_readings.map_values(|t: (i16, i16, i16)| t.0));
            lemma_sum_bounds(old_readings.map_values(|t: (i16, i16, i16)| t.1));
            lemma_sum_bounds(old_readings.map_values(|t: (i16, i16, i16)| t.2));
            assert(32767 * old_readings.len() <= 32767 * 65534) by (nonlinear_arith)
                requires
                    old_readings.len() <= 65534,
            ;
        }
        self.x_sum = self.x_sum + x as i32;
        self.y_sum = self.y_sum + y as i32;
        self.z_sum = self.z_sum + z as i32;
        self.count = self.count + 1;
        self.readings = Ghost(new_readings);
    }

    /// The mean of each axis, rounded toward zero.
    pub fn mean(&self) -> (r: (i16, i16, i16))
        requires
            self.wf(),
            self.readings().len() > 0,
        ensures
            r.0 == trunc_div(sum_of(self.xs()), self.readings().len() as int),
            r.1 == trunc_div(sum_of(self.ys()), self.readings().len() as int),
            r.2 == trunc_div(sum_of(self.zs()), self.readings().len() as int),
    {
        let n = self.count as i32;
        proof {
            lemma_sum_bounds(self.xs());
            lemma_sum_bounds(self.ys());
            lemma_sum_bounds(self.zs());
            lemma_trunc_mean_bounds(self.x_sum as int, n as int);
            lemma_trunc_mean_bounds(self.y_sum as int, n as int);
            lemma_trunc_mean_bounds(self.z_sum as int, n as int);
        }
        let x = trunc_div_i32(self.x_sum, n);
        let y = trunc_div_i32(self.y_sum, n);
        let z = trunc_div_i32(self.z_sum, n);
        (x as i16, y as i16, z as i16)
    }
}

/// Calibration state of an ITG3200: its bus address, the zero-rate offset of
/// each axis and whether each axis is reversed.
pub struct ITG3200 {
    pub address: u8,
    pub x_offset: i16,
    pub y_offset: i16,
    pub z_offset: i16,
    pub x_rev: bool,
    pub y_rev: bool,
    pub z_rev: bool,
}

impl ITG3200 {
    /// A gyroscope at the default address, with zero offsets and no reversed axis.
    pub fn new() -> (r: Self)
        ensures
            r == Self::new_with_address_spec(ITG3200_ADDR),
    {
        Self::new_with_address(ITG3200_ADDR)
    }

    /// The state of a freshly created gyroscope at `address`.
    pub open spec fn new_with_address_spec(address: u8) -> Self {
        ITG3200 {
            address,
            x_offset: 0,
            y_offset: 0,
            z_offset: 0,
            x_rev: false,
            y_rev: false,
            z_rev: false,
        }
    }

    /// A gyroscope at `address`, with zero offsets and no reversed axis.
    pub fn new_with_address(address: u8) -> (r: Self)
        ensures
            r == Self::new_with_address_spec(address),
    {
        ITG3200 {
            address,
            x_offset: 0,
            y_offset: 0,
            z_offset: 0,
            x_rev: false,
            y_rev: false,
            z_rev: false,
        }
    }

    /// Sets the offset of each axis.
    pub fn set_offsets(&mut self, x_offset: i16, y_offset: i16, z_offset: i16)
        ensures
            *final(self) == (ITG3200 { x_offset, y_offset, z_offset, ..*old(self) }),
    {
        self.x_offset = x_offset;
        self.y_offset = y_offset;
        self.z_offset = z_offset;
    }

    /// The offset of each axis.
    pub fn get_offsets(&self) -> (r: (i16, i16, i16))
        ensures
            r == (self.x_offset, self.y_offset, self.z_offset),
    {
        (self.x_offset, self.y_offset, self.z_offset)
    }

    /// Sets which axes are reversed.
    pub fn set_rev_polarity(&mut self, x_rev: bool, y_rev: bool, z_rev: bool)
        ensures
            *final(self) == (ITG3200 { x_rev, y_rev, z_rev, ..*old(self) }),
    {
        self.x_rev = x_rev;
        self.y_rev = y_rev;
        self.z_rev = z_rev;
    }

    /// Whether correcting the raw sample `(x, y, z)` stays within `i16` on every axis.
    pub open spec fn calibration_fits(&self, x: i16, y: i16, z: i16) -> bool {
        &&& correction_fits(x, self.x_offset, self.x_rev)
        &&& correction_fits(y, self.y_offset, self.y_rev)
        &&& correction_fits(z, self.z_offset, self.z_rev)
    }

    /// Applies the offsets and the polarity to a raw sample: each axis becomes
    /// `raw - offset`, negated when the axis is reversed.
    pub fn calibrate(&self, x: i16, y: i16, z: i16) -> (r: (i16, i16, i16))
        requires
            self.calibration_fits(x, y, z),
        ensures
            r.0 == spec_corrected(x, self.x_offset, self.x_rev),
            r.1 == spec_corrected(y, self.y_offset, self.y_rev),
            r.2 == spec_corrected(z, self.z_offset, self.z_rev),
            r.0 == (if self.x_rev { self.x_offset - x } else { x - self.x_offset }),
            r.1 == (if self.y_rev { self.y_offset - y } else { y - self.y_offset }),
            r.2 == (if self.z_rev { self.z_offset - z } else { z - self.z_offset }),
    {
        let x_cal = if self.x_rev { -(x - self.x_offset) } else { x - self.x_offset };
        let y_cal = if self.y_rev { -(y - self.y_offset) } else { y - self.y_offset };
        let z_cal = if self.z_rev { -(z - self.z_offset) } else { z - self.z_offset };
        (x_cal, y_cal, z_cal)
    }

    /// Sets the offsets to the rounded-toward-zero mean of the samples taken
    /// while the gyroscope was held still. Nothing else changes.
    pub fn apply_zero_calibration(&mut self, sums: &GyroSampleSum)
        requires
            sums.wf(),
            sums.readings().len() > 0,
        ensures
            final(self).x_offset == trunc_div(sum_of(sums.xs()), sums.readings().len() as int),
            final(self).y_offset == trunc_div(sum_of(sums.ys()), sums.readings().len() as int),
            final(self).z_offset == trunc_div(sum_of(sums.zs()), sums.readings().len() as int),
            final(self).address == old(self).address,
            final(self).x_rev == old(self).x_rev,
            final(self).y_rev == old(self).y_rev,
            final(self).z_rev == old(self).z_rev,
    {
        let (x, y, z) = sums.mean();
        self.x_offset = x;
        self.y_offset = y;
        self.z_offset = z;
    }
}

/// Reversing an axis negates its corrected rate, for every raw value and
/// offset, and an axis that is not reversed reads the raw value less the offset.
pub proof fn lemma_reversal_negates(raw: i16, offset: i16)
    ensures
        spec_corrected(raw, offset, false) == raw - offset,
        spec_corrected(raw, offset, true) == -spec_corrected(raw, offset, false),
        spec_corrected(raw, offset, true) + spec_corrected(raw, offset, false) == 0,
{
}

/// Zero calibration on samples that all read the same value `v` gives the offset `v`.
pub proof fn lemma_constant_samples_calibrate_to_zero(s: Seq<i16>, v: i16)
    requires
        s.len() > 0,
        forall|i: int| 0 <= i < s.len() ==> s[i] == v,
    ensures
        trunc_div(sum_of(s), s.len() as int) == v,
    decreases s.len(),
{
    lemma_sum_constant(s, v);
    let n = s.len() as int;
    if v >= 0 {
        assert(v * n >= 0 && (v * n) / n == v) by (nonlinear_arith)
            requires
                n > 0,
                v >= 0,
        ;
    } else {
        assert(v * n < 0 && (-(v * n)) / n == -v) by (nonlinear_arith)
            requires
                n > 0,
                v < 0,
        ;
    }
}

/// A sequence holding only `v` sums to `v` times its length.
proof fn lemma_sum_constant(s: Seq<i16>, v: i16)
    requires
        forall|i: int| 0 <= i < s.len() ==> s[i] == v,
    ensures
        sum_of(s) == v * s.len(),
    decreases s.len(),
{
    if s.len() > 0 {
        lemma_sum_constant(s.drop_last(), v);
        assert(v * (s.len() - 1) + v == v * s.len()) by (nonlinear_arith);
    }
}

} // verus!
