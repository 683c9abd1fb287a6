use vstd::prelude::*;

use crate::geometry::Size;

verus! {

/// The Media Foundation version word (Windows 7 and later).
pub const MF_VERSION: u32 = 131184;

/// Two 32-bit halves packed into one 64-bit attribute value.
pub open spec fn packed(high: u32, low: u32) -> int {
    high as int * 0x1_0000_0000 + low as int
}

/// Packs two 32-bit values into one 64-bit attribute value, `high` in the upper half.
pub fn pack_2_u32_as_u64(high: u32, low: u32) -> (r: u64)
    ensures
        r as int == packed(high, low),
{
    let r = ((high as u64) << 32u64) | low as u64;
    assert(r == (high as u64) * 0x1_0000_0000u64 + low as u64) by (bit_vector)
        requires
            r == ((high as u64) << 32u64) | low as u64,
    ;
    r
}

/// Splits a 64-bit attribute value into its upper and lower 32-bit halves.
pub fn unpack_u64_as_2_u32(value: u64) -> (r: (u32, u32))
    ensures
        r.0 as int == value as int / 0x1_0000_0000,
        r.1 as int == value as int % 0x1_0000_0000,
{
    let high = (value >> 32u64) as u32;
    let low = (value & 0xffff_ffffu64) as u32;
    assert(high as u64 == value / 0x1_0000_0000u64 && low as u64 == value % 0x1_0000_0000u64)
        by (bit_vector)
        requires
            high == (value >> 32u64) as u32,
            low == (value & 0xffff_ffffu64) as u32,
    ;
    (high, low)
}

/// The frame-size attribute value that describes `size`: width in the upper half,
/// height in the lower half; none for a negative dimension.
pub open spec fn frame_size_value(size: Size) -> Option<u64> {
    if size.is_valid() {
        Some(packed(size.width as u32, size.height as u32) as u64)
    } else {
        None
    }
}

/// The geometry that a frame-size attribute value describes; none where a half
/// does not fit a dimension.
pub open spec fn frame_size_of_value(value: u64) -> Option<Size> {
    let width = value as int / 0x1_0000_0000;
    let height = value as int % 0x1_0000_0000;
    if width <= i32::MAX && height <= i32::MAX {
        Some(Size { width: width as i32, height: height as i32 })
    } else {
        None
    }
}

/// The frame-size attribute value to configure an encoder with for `size`.
pub fn encode_frame_size(size: Size) -> (r: Option<u64>)
    ensures
        r == frame_size_value(size),
{
    if size.width < 0 || size.height < 0 {
        None
    } else {
        Some(pack_2_u32_as_u64(size.width as u32, size.height as u32))
    }
}

/// The geometry read back from a frame-size attribute value of a stream header.
pub fn decode_frame_size(value: u64) -> (r: Option<Size>)
    ensures
        r == frame_size_of_value(value),
{
    let (width, height) = unpack_u64_as_2_u32(value);
    if width <= 0x7fff_ffffu32 && height <= 0x7fff_ffffu32 {
        Some(Size { width: width as i32, height: height as i32 })
    } else {
        None
    }
}

/// Any geometry with non-negative dimensions survives being written as a
/// frame-size attribute and read back.
pub proof fn lemma_frame_size_round_trip(size: Size)
    requires
        size.is_valid(),
    ensures
        frame_size_value(size) is Some,
        frame_size_of_value(frame_size_value(size)->0) == Some(size),
{
    let w = size.width as u32 as int;
    let h = size.height as u32 as int;
    assert(0 <= w * 0x1_0000_0000 + h < 0x1_0000_0000_0000_0000) by (nonlinear_arith)
        requires
            0 <= w <= 0x7fff_ffff,
            0 <= h <= 0x7fff_ffff,
    ;
    assert((w * 0x1_0000_0000 + h) / 0x1_0000_0000 == w) by (nonlinear_arith)
        requires
            0 <= h < 0x1_0000_0000,
    ;
    assert((w * 0x1_0000_0000 + h) % 0x1_0000_0000 == h) by (nonlinear_arith)
        requires
            0 <= h < 0x1_0000_0000,
    ;
}

} // verus!
