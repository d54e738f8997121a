//! The compressed scalar codecs: 48-bit vectors (three half-precision
//! floats) and 48/64-bit packed quaternions.
//!
//! This module recovers the packed integer fields exactly as they lie on
//! the wire; expanding them to floating point (half→single, the
//! `(raw − bias)/scale` quaternion components and the `w` recovery) is the
//! numeric half of the codec and lives with the crate's floating-point
//! consumers.

use vstd::prelude::*;

use crate::reader::{get_u16, get_u64, le16, le64};

verus! {

/// Three half-precision floats, each carried as its 16-bit pattern.
#[derive(Debug, Clone, Copy, PartialEq, Eq, Structural)]
pub struct Vector48 {
    pub x: u16,
    pub y: u16,
    pub z: u16,
}

/// A quaternion packed into 48 bits: 16-bit x and y, 15-bit z and the sign
/// of the recovered w component in the top bit of the third word.
#[derive(Debug, Clone, Copy, PartialEq, Eq, Structural)]
pub struct Quaternion48 {
    pub x: u16,
    pub y: u16,
    pub z: u16,
}

/// A quaternion packed into 64 bits: three 21-bit fields at bit offsets 0,
/// 21 and 42, and the sign of the recovered w component in bit 63.
#[derive(Debug, Clone, Copy, PartialEq, Eq, Structural)]
pub struct Quaternion64(pub u64);

/// The 48-bit vector stored at byte offset `off`.
pub open spec fn spec_vector48(s: Seq<u8>, off: int) -> Vector48 {
    Vector48 { x: le16(s, off), y: le16(s, off + 2), z: le16(s, off + 4) }
}

/// The 48-bit quaternion stored at byte offset `off`.
pub open spec fn spec_quaternion48(s: Seq<u8>, off: int) -> Quaternion48 {
    Quaternion48 { x: le16(s, off), y: le16(s, off + 2), z: le16(s, off + 4) }
}

/// The 64-bit quaternion stored at byte offset `off`.
pub open spec fn spec_quaternion64(s: Seq<u8>, off: int) -> Quaternion64 {
    Quaternion64(le64(s, off))
}

/// Read the 48-bit vector at `off`.
pub fn get_vector48(data: &[u8], off: usize) -> (r: Vector48)
    requires
        off + 6 <= data@.len(),
    ensures
        r == spec_vector48(data@, off as int),
{
    let len = data.len();
    Vector48 { x: get_u16(data, off), y: get_u16(data, off + 2), z: get_u16(data, off + 4) }
}

/// Read the 48-bit quaternion at `off`.
pub fn get_quaternion48(data: &[u8], off: usize) -> (r: Quaternion48)
    requires
        off + 6 <= data@.len(),
    ensures
        r == spec_quaternion48(data@, off as int),
{
    let len = data.len();
    Quaternion48 { x: get_u16(data, off), y: get_u16(data, off + 2), z: get_u16(data, off + 4) }
}

/// Read the 64-bit quaternion at `off`.
pub fn get_quaternion64(data: &[u8], off: usize) -> (r: Quaternion64)
    requires
        off + 8 <= data@.len(),
    ensures
        r == spec_quaternion64(data@, off as int),
{
    let len = data.len();
    Quaternion64(get_u64(data, off))
}

impl Quaternion48 {
    /// The raw 16-bit x field; the component is `(x − 32768) / 32768`.
    pub fn x_raw(&self) -> (r: u16)
        ensures
            r == self.x,
    {
        self.x
    }

    /// The raw 16-bit y field; the component is `(y − 32768) / 32768`.
    pub fn y_raw(&self) -> (r: u16)
        ensures
            r == self.y,
    {
        self.y
    }

    /// The raw 15-bit z field; the component is `(z − 16384) / 16384`.
    pub fn z_raw(&self) -> (r: u16)
        ensures
            r == self.z % 0x8000,
    {
        self.z % 0x8000
    }

    /// Whether the recovered w component is negative (top bit of the third
    /// word).
    pub fn w_negative(&self) -> (r: bool)
        ensures
            r == (self.z >= 0x8000),
    {
        self.z >= 0x8000
    }
}

impl Quaternion64 {
    /// The raw 21-bit x field; the component is `(x − 1048576) / 1048576.5`.
    pub fn x_raw(&self) -> (r: u32)
        ensures
            r == self.0 % 0x20_0000,
            r < 0x20_0000,
    {
        (self.0 % 0x20_0000) as u32
    }

    /// The raw 21-bit y field at bit offset 21.
    pub fn y_raw(&self) -> (r: u32)
        ensures
            r == self.0 / 0x20_0000 % 0x20_0000,
            r < 0x20_0000,
    {
        (self.0 / 0x20_0000 % 0x20_0000) as u32
    }

    /// The raw 21-bit z field at bit offset 42.
    pub fn z_raw(&self) -> (r: u32)
        ensures
            r == self.0 / 0x400_0000_0000 % 0x20_0000,
            r < 0x20_0000,
    {
        (self.0 / 0x400_0000_0000 % 0x20_0000) as u32
    }

    /// Whether the recovered w component is negative (bit 63).
    pub fn w_negative(&self) -> (r: bool)
        ensures
            r == (self.0 >= 0x8000_0000_0000_0000),
    {
        self.0 >= 0x8000_0000_0000_0000
    }
}

} // verus!
