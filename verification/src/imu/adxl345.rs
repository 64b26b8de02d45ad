//! Register-level rules of the ADXL345 accelerometer: how the data format
//! register is edited, how offsets are stored, and how a sample is decoded.
//! The bus transfers themselves are made by the caller.

use vstd::prelude::*;
use crate::imu::adxl345_registers::{FULL_RES, RANGE_16G, RANGE_2G};

verus! {

/// The signed 16-bit value whose two's-complement bytes are `hi` (high) and `lo` (low).
pub open spec fn i16_from_bytes(hi: u8, lo: u8) -> int {
    if hi < 128 {
        hi * 256 + lo
    } else {
        hi * 256 + lo - 65536
    }
}

/// The two's-complement byte that stores the signed value `v`.
pub open spec fn i8_as_byte(v: i8) -> int {
    if v >= 0 {
        v as int
    } else {
        v + 256
    }
}

/// The data format register after `set_range_setting(range)`, given its value `current` before.
pub open spec fn spec_format_with_range(current: u8, range: u8) -> u8 {
    if range > RANGE_16G {
        RANGE_2G
    } else {
        (current & 0xFC) | (range & 0x03)
    }
}

/// Combines a little-endian byte pair (low byte first) into a signed sample.
pub fn combine_le(lo: u8, hi: u8) -> (v: i16)
    ensures
        v == i16_from_bytes(hi, lo),
{
    let v = ((hi as i16) << 8u32) | (lo as i16);
    assert(((hi as i16) << 8u32) | (lo as i16) == (if hi < 128 {
        hi * 256 + lo
    } else {
        hi * 256 + lo - 65536
    })) by (bit_vector);
    v
}

/// Decodes the six bytes read from `DATAX0` onwards into the X, Y and Z samples
/// (each axis little-endian).
pub fn decode_accel(buffer: &[u8; 6]) -> (r: (i16, i16, i16))
    ensures
        r.0 == i16_from_bytes(buffer[1], buffer[0]),
        r.1 == i16_from_bytes(buffer[3], buffer[2]),
        r.2 == i16_from_bytes(buffer[5], buffer[4]),
{
    let x = combine_le(buffer[0], buffer[1]);
    let y = combine_le(buffer[2], buffer[3]);
    let z = combine_le(buffer[4], buffer[5]);
    (x, y, z)
}

/// The value `set_range_setting(range)` writes directly, without reading the
/// register first: an out-of-range setting falls back to ±2g (the whole
/// register becomes `RANGE_2G`). `None` when the current value must be read
/// and edited with `format_with_range`.
pub fn direct_range_format(range: u8) -> (r: Option<u8>)
    ensures
        r == (if range > RANGE_16G { Some(RANGE_2G) } else { None::<u8> }),
        r is Some ==> r->0 == spec_format_with_range(0, range),
{
    if range > RANGE_16G {
        Some(RANGE_2G)
    } else {
        None
    }
}

/// The data format register after setting the range: the two range bits are
/// replaced, every other bit is kept. An out-of-range setting gives `RANGE_2G`.
pub fn format_with_range(current: u8, range: u8) -> (r: u8)
    ensures
        r == spec_format_with_range(current, range),
        range <= RANGE_16G ==> r & 0x03 == range,
        range <= RANGE_16G ==> r & 0xFC == current & 0xFC,
{
    if range > RANGE_16G {
        RANGE_2G
    } else {
        let r = (current & 0xFC) | (range & 0x03);
        assert(range <= 3 ==> ((current & 0xFC) | (range & 0x03)) & 0x03 == range) by (bit_vector);
        assert(((current & 0xFC) | (range & 0x03)) & 0xFC == current & 0xFC) by (bit_vector);
        r
    }
}

/// The range setting held in a data format register value (bits 0-1).
pub fn range_of_format(format: u8) -> (r: u8)
    ensures
        r == format & 0x03,
        r <= RANGE_16G,
{
    assert(format & 0x03 <= 3) by (bit_vector);
    format & 0x03
}

/// The data format register with the full-resolution bit set or cleared,
/// every other bit kept.
pub fn format_with_full_res(current: u8, enabled: bool) -> (r: u8)
    ensures
        r == (if enabled { current | FULL_RES } else { current & !FULL_RES }),
        (r & FULL_RES != 0) == enabled,
        r & !FULL_RES == current & !FULL_RES,
{
    if enabled {
        assert((current | 0x08) & 0x08 != 0) by (bit_vector);
        assert((current | 0x08) & !0x08u8 == current & !0x08u8) by (bit_vector);
        current | FULL_RES
    } else {
        assert((current & !0x08u8) & 0x08 == 0) by (bit_vector);
        assert((current & !0x08u8) & !0x08u8 == current & !0x08u8) by (bit_vector);
        current & !FULL_RES
    }
}

/// The byte written to an offset register for a signed offset (two's complement).
pub fn offset_to_register(offset: i8) -> (r: u8)
    ensures
        r == i8_as_byte(offset),
{
    let r = offset as u8;
    assert(offset as u8 == (if offset >= 0 { offset as int } else { offset + 256 })) by (bit_vector);
    r
}

/// The signed offset stored in an offset register byte.
pub fn offset_from_register(value: u8) -> (r: i8)
    ensures
        i8_as_byte(r) == value,
        r == (if value < 128 { value as int } else { value - 256 }),
{
    let r = value as i8;
    assert(value as i8 == (if value < 128 { value as int } else { value - 256 })) by (bit_vector);
    r
}

/// Encodes the three axis offsets as the bytes for `OFSX`, `OFSY` and `OFSZ`.
pub fn offsets_to_registers(x_offset: i8, y_offset: i8, z_offset: i8) -> (r: (u8, u8, u8))
    ensures
        r.0 == i8_as_byte(x_offset),
        r.1 == i8_as_byte(y_offset),
        r.2 == i8_as_byte(z_offset),
{
    (offset_to_register(x_offset), offset_to_register(y_offset), offset_to_register(z_offset))
}

/// Decodes the `OFSX`, `OFSY` and `OFSZ` bytes into the three axis offsets.
pub fn offsets_from_registers(x: u8, y: u8, z: u8) -> (r: (i8, i8, i8))
    ensures
        i8_as_byte(r.0) == x,
        i8_as_byte(r.1) == y,
        i8_as_byte(r.2) == z,
{
    (offset_from_register(x), offset_from_register(y), offset_from_register(z))
}

/// Setting a valid range and then reading the range back gives that range,
/// whatever the register held before.
pub proof fn lemma_range_round_trip(current: u8, range: u8)
    requires
        range <= RANGE_16G,
    ensures
        spec_format_with_range(current, range) & 0x03 == range,
        spec_format_with_range(current, range) & 0xFC == current & 0xFC,
{
    assert(range <= 3 ==> ((current & 0xFC) | (range & 0x03)) & 0x03 == range) by (bit_vector);
    assert(((current & 0xFC) | (range & 0x03)) & 0xFC == current & 0xFC) by (bit_vector);
}

/// An offset written to its register and read back is the same offset.
pub proof fn lemma_offset_round_trip(offset: i8)
    ensures
        ((i8_as_byte(offset) as u8) as i8) == offset,
{
    assert((if offset >= 0 { offset as int } else { offset + 256 }) as u8 as i8 == offset) by (bit_vector);
}

} // verus!
