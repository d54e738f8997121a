//! The value types of the formats whose fields are IEEE-754 single
//! precision on the wire: 3-vectors, quaternions, radian Euler angles and
//! 3×4 affine transforms.
//!
//! The parsers only move these values, so each component is carried as its
//! 32-bit pattern; turning a component into an `f32` is `f32::from_bits`.
//! The one order this crate needs on such patterns — for bounding boxes —
//! is the sign-magnitude order below, which agrees with `<=` on the
//! encoded numbers wherever neither pattern is a NaN.

use vstd::prelude::*;

use crate::reader::{get_u32, le32};

verus! {

/// A 3-vector; each field is an IEEE-754 single-precision bit pattern.
#[derive(Debug, Clone, Copy, PartialEq, Eq, Structural)]
pub struct Vector {
    pub x: u32,
    pub y: u32,
    pub z: u32,
}

/// A quaternion; each field is an IEEE-754 single-precision bit pattern.
#[derive(Debug, Clone, Copy, PartialEq, Eq, Structural)]
pub struct Quaternion {
    pub x: u32,
    pub y: u32,
    pub z: u32,
    pub w: u32,
}

/// Euler angles in radians (x roll, y pitch, z yaw); IEEE-754 bit patterns.
#[derive(Debug, Clone, Copy, PartialEq, Eq, Structural)]
pub struct RadianEuler {
    pub x: u32,
    pub y: u32,
    pub z: u32,
}

/// A row-major 3×4 affine transform of IEEE-754 bit patterns.
#[derive(Debug, Clone, Copy, PartialEq, Eq)]
pub struct Transform3x4 {
    pub transform: [[u32; 4]; 3],
}

/// A 4-component tangent; each field is an IEEE-754 bit pattern.
#[derive(Debug, Clone, Copy, PartialEq, Eq, Structural)]
pub struct Tangent {
    pub x: u32,
    pub y: u32,
    pub z: u32,
    pub w: u32,
}

/// The 3-vector stored at byte offset `off`.
pub open spec fn spec_vector(s: Seq<u8>, off: int) -> Vector {
    Vector { x: le32(s, off), y: le32(s, off + 4), z: le32(s, off + 8) }
}

/// The quaternion stored at byte offset `off` (x, y, z, w order).
pub open spec fn spec_quaternion(s: Seq<u8>, off: int) -> Quaternion {
    Quaternion { x: le32(s, off), y: le32(s, off + 4), z: le32(s, off + 8), w: le32(s, off + 12) }
}

/// The Euler angles stored at byte offset `off`.
pub open spec fn spec_euler(s: Seq<u8>, off: int) -> RadianEuler {
    RadianEuler { x: le32(s, off), y: le32(s, off + 4), z: le32(s, off + 8) }
}

/// The tangent stored at byte offset `off`.
pub open spec fn spec_tangent(s: Seq<u8>, off: int) -> Tangent {
    Tangent { x: le32(s, off), y: le32(s, off + 4), z: le32(s, off + 8), w: le32(s, off + 12) }
}

/// Whether `t` is the 3×4 transform stored at byte offset `off`: twelve
/// little-endian 32-bit values, row after row.
pub open spec fn transform_matches(t: Transform3x4, s: Seq<u8>, off: int) -> bool {
    forall|r: int, c: int|
        0 <= r < 3 && 0 <= c < 4 ==> t.transform[r][c] == le32(s, off + (r * 4 + c) * 4)
}

/// Read the 3-vector at `off`.
pub fn get_vector(data: &[u8], off: usize) -> (r: Vector)
    requires
        off + 12 <= data@.len(),
    ensures
        r == spec_vector(data@, off as int),
{
    let len = data.len();
    Vector { x: get_u32(data, off), y: get_u32(data, off + 4), z: get_u32(data, off + 8) }
}

/// Read the quaternion at `off`.
pub fn get_quaternion(data: &[u8], off: usize) -> (r: Quaternion)
    requires
        off + 16 <= data@.len(),
    ensures
        r == spec_quaternion(data@, off as int),
{
    let len = data.len();
    Quaternion {
        x: get_u32(data, off),
        y: get_u32(data, off + 4),
        z: get_u32(data, off + 8),
        w: get_u32(data, off + 12),
    }
}

/// Read the Euler angles at `off`.
pub fn get_euler(data: &[u8], off: usize) -> (r: RadianEuler)
    requires
        off + 12 <= data@.len(),
    ensures
        r == spec_euler(data@, off as int),
{
    let len = data.len();
    RadianEuler { x: get_u32(data, off), y: get_u32(data, off + 4), z: get_u32(data, off + 8) }
}

/// Read the tangent at `off`.
pub fn get_tangent(data: &[u8], off: usize) -> (r: Tangent)
    requires
        off + 16 <= data@.len(),
    ensures
        r == spec_tangent(data@, off as int),
{
    let len = data.len();
    Tangent {
        x: get_u32(data, off),
        y: get_u32(data, off + 4),
        z: get_u32(data, off + 8),
        w: get_u32(data, off + 12),
    }
}

/// Read the 3×4 transform at `off`.
pub fn get_transform(data: &[u8], off: usize) -> (r: Transform3x4)
    requires
        off + 48 <= data@.len(),
    ensures
        transform_matches(r, data@, off as int),
{
    let len = data.len();
    let t = Transform3x4 {
        transform: [
            [get_u32(data, off), get_u32(data, off + 4), get_u32(data, off + 8), get_u32(
                data,
                off + 12,
            )],
            [get_u32(data, off + 16), get_u32(data, off + 20), get_u32(data, off + 24), get_u32(
                data,
                off + 28,
            )],
            [get_u32(data, off + 32), get_u32(data, off + 36), get_u32(data, off + 40), get_u32(
                data,
                off + 44,
            )],
        ],
    };
    t
}

/// Sign-magnitude order on IEEE-754 single-precision bit patterns: every
/// sign-bit pattern sorts below every clear-sign pattern, clear-sign
/// patterns sort by magnitude, sign-bit patterns in reverse magnitude.
/// Wherever neither pattern encodes a NaN this implies `<=` on the encoded
/// numbers (the two zero patterns encode equal numbers).
pub open spec fn f32_bits_le(a: u32, b: u32) -> bool {
    if a >= 0x8000_0000 && b < 0x8000_0000 {
        true
    } else if a < 0x8000_0000 && b >= 0x8000_0000 {
        false
    } else if a < 0x8000_0000 {
        a <= b
    } else {
        b <= a
    }
}

/// Decide the sign-magnitude order on two bit patterns.
pub fn f32_bits_le_exec(a: u32, b: u32) -> (r: bool)
    ensures
        r == f32_bits_le(a, b),
{
    if a >= 0x8000_0000 && b < 0x8000_0000 {
        true
    } else if a < 0x8000_0000 && b >= 0x8000_0000 {
        false
    } else if a < 0x8000_0000 {
        a <= b
    } else {
        b <= a
    }
}

/// The smaller of two bit patterns in sign-magnitude order.
pub fn f32_bits_min(a: u32, b: u32) -> (r: u32)
    ensures
        f32_bits_le(r, a) && f32_bits_le(r, b),
        r == a || r == b,
{
    if f32_bits_le_exec(a, b) {
        a
    } else {
        b
    }
}

/// The larger of two bit patterns in sign-magnitude order.
pub fn f32_bits_max(a: u32, b: u32) -> (r: u32)
    ensures
        f32_bits_le(a, r) && f32_bits_le(b, r),
        r == a || r == b,
{
    if f32_bits_le_exec(a, b) {
        b
    } else {
        a
    }
}

} // verus!
