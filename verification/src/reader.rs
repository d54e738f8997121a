//! The offset-indexed primitive decoder.
//!
//! Every record of the three model formats is read through these functions:
//! fixed-size little-endian scalars at a byte offset, index ranges
//! `(base, count, stride)` that locate a table's records, and
//! null-terminated strings. Each read either stays inside the byte slice or
//! fails with the exact [`ModelError`] the contract names.

use vstd::prelude::*;

use crate::error::{ModelError, StringError};

verus! {

// ------------------------------------------------------------------
// Little-endian views of a byte sequence.
// ------------------------------------------------------------------

/// The 16-bit little-endian value stored at byte offset `i`.
pub open spec fn le16(s: Seq<u8>, i: int) -> u16 {
    (s[i] + s[i + 1] * 0x100) as u16
}

/// The 32-bit little-endian value stored at byte offset `i`.
pub open spec fn le32(s: Seq<u8>, i: int) -> u32 {
    (s[i] + s[i + 1] * 0x100 + s[i + 2] * 0x10000 + s[i + 3] * 0x1000000) as u32
}

/// The 64-bit little-endian value stored at byte offset `i`.
pub open spec fn le64(s: Seq<u8>, i: int) -> u64 {
    (le32(s, i) + le32(s, i + 4) * 0x1_0000_0000) as u64
}

/// Reinterpret an unsigned 32-bit value as two's-complement signed.
pub open spec fn as_signed32(v: u32) -> i32 {
    if v < 0x8000_0000 {
        v as i32
    } else {
        (v - 0x1_0000_0000) as i32
    }
}

/// Reinterpret an unsigned 16-bit value as two's-complement signed.
pub open spec fn as_signed16(v: u16) -> i16 {
    if v < 0x8000 {
        v as i16
    } else {
        (v - 0x1_0000) as i16
    }
}

/// The signed 32-bit little-endian value stored at byte offset `i`.
pub open spec fn le_i32(s: Seq<u8>, i: int) -> i32 {
    as_signed32(le32(s, i))
}

/// The signed 16-bit little-endian value stored at byte offset `i`.
pub open spec fn le_i16(s: Seq<u8>, i: int) -> i16 {
    as_signed16(le16(s, i))
}

// ------------------------------------------------------------------
// The error produced by a failing fixed-size read.
// ------------------------------------------------------------------

/// The fault of a fixed-size read of `size` bytes at `off` in a slice of
/// `len` bytes: past the end of the slice the offset itself is out of
/// bounds, otherwise too few bytes remain.
pub open spec fn read_fault(len: int, off: int, size: int, what: &'static str) -> ModelError {
    if off > len {
        ModelError::OutOfBounds { data: what, offset: off as usize }
    } else {
        ModelError::Eof(size as usize)
    }
}

// ------------------------------------------------------------------
// Fixed-size scalar reads.
// ------------------------------------------------------------------

/// Read one byte at `off`.
pub fn read_u8(data: &[u8], off: usize) -> (r: Result<u8, ModelError>)
    ensures
        off + 1 <= data@.len() ==> r == Ok::<u8, ModelError>(data@[off as int]),
        off + 1 > data@.len() ==> r == Err::<u8, ModelError>(
            read_fault(data@.len() as int, off as int, 1, "u8"),
        ),
{
    if off < data.len() {
        Ok(data[off])
    } else if off > data.len() {
        Err(ModelError::OutOfBounds { data: "u8", offset: off })
    } else {
        Err(ModelError::Eof(1))
    }
}

/// Read a little-endian `u16` at `off`.
pub fn read_u16(data: &[u8], off: usize) -> (r: Result<u16, ModelError>)
    ensures
        off + 2 <= data@.len() ==> r == Ok::<u16, ModelError>(le16(data@, off as int)),
        off + 2 > data@.len() ==> r == Err::<u16, ModelError>(
            read_fault(data@.len() as int, off as int, 2, "u16"),
        ),
{
    if off <= data.len() && data.len() - off >= 2 {
        let v: u16 = (data[off] as u16) + (data[off + 1] as u16) * 0x100;
        Ok(v)
    } else if off > data.len() {
        Err(ModelError::OutOfBounds { data: "u16", offset: off })
    } else {
        Err(ModelError::Eof(2))
    }
}

/// Read a little-endian `u32` at `off`.
pub fn read_u32(data: &[u8], off: usize) -> (r: Result<u32, ModelError>)
    ensures
        off + 4 <= data@.len() ==> r == Ok::<u32, ModelError>(le32(data@, off as int)),
        off + 4 > data@.len() ==> r == Err::<u32, ModelError>(
            read_fault(data@.len() as int, off as int, 4, "u32"),
        ),
{
    if off <= data.len() && data.len() - off >= 4 {
        let v: u32 = (data[off] as u32) + (data[off + 1] as u32) * 0x100 + (data[off + 2] as u32)
            * 0x10000 + (data[off + 3] as u32) * 0x1000000;
        Ok(v)
    } else if off > data.len() {
        Err(ModelError::OutOfBounds { data: "u32", offset: off })
    } else {
        Err(ModelError::Eof(4))
    }
}

/// Read a little-endian `u64` at `off`.
pub fn read_u64(data: &[u8], off: usize) -> (r: Result<u64, ModelError>)
    ensures
        off + 8 <= data@.len() ==> r == Ok::<u64, ModelError>(le64(data@, off as int)),
        off + 8 > data@.len() ==> r == Err::<u64, ModelError>(
            read_fault(data@.len() as int, off as int, 8, "u64"),
        ),
{
    if off <= data.len() && data.len() - off >= 8 {
        let lo: u64 = (data[off] as u64) + (data[off + 1] as u64) * 0x100 + (data[off + 2] as u64)
            * 0x10000 + (data[off + 3] as u64) * 0x1000000;
        let hi: u64 = (data[off + 4] as u64) + (data[off + 5] as u64) * 0x100 + (data[off
            + 6] as u64) * 0x10000 + (data[off + 7] as u64) * 0x1000000;
        let v: u64 = lo + hi * 0x1_0000_0000;
        Ok(v)
    } else if off > data.len() {
        Err(ModelError::OutOfBounds { data: "u64", offset: off })
    } else {
        Err(ModelError::Eof(8))
    }
}

/// Read one byte at an offset known to be in bounds.
pub fn get_u8(data: &[u8], off: usize) -> (r: u8)
    requires
        off + 1 <= data@.len(),
    ensures
        r == data@[off as int],
{
    data[off]
}

/// Read a little-endian `u16` at an offset known to be in bounds.
pub fn get_u16(data: &[u8], off: usize) -> (r: u16)
    requires
        off + 2 <= data@.len(),
    ensures
        r == le16(data@, off as int),
{
    (data[off] as u16) + (data[off + 1] as u16) * 0x100
}

/// Read a little-endian `u32` at an offset known to be in bounds.
pub fn get_u32(data: &[u8], off: usize) -> (r: u32)
    requires
        off + 4 <= data@.len(),
    ensures
        r == le32(data@, off as int),
{
    (data[off] as u32) + (data[off + 1] as u32) * 0x100 + (data[off + 2] as u32) * 0x10000 + (
    data[off + 3] as u32) * 0x1000000
}

/// Read a little-endian `u64` at an offset known to be in bounds.
pub fn get_u64(data: &[u8], off: usize) -> (r: u64)
    requires
        off + 8 <= data@.len(),
    ensures
        r == le64(data@, off as int),
{
    let len = data.len();
    let lo = get_u32(data, off);
    let hi = get_u32(data, off + 4);
    (lo as u64) + (hi as u64) * 0x1_0000_0000
}

/// Read a little-endian `i32` at an offset known to be in bounds.
pub fn get_i32(data: &[u8], off: usize) -> (r: i32)
    requires
        off + 4 <= data@.len(),
    ensures
        r == le_i32(data@, off as int),
{
    to_signed32(get_u32(data, off))
}

/// Read a little-endian `i16` at an offset known to be in bounds.
pub fn get_i16(data: &[u8], off: usize) -> (r: i16)
    requires
        off + 2 <= data@.len(),
    ensures
        r == le_i16(data@, off as int),
{
    to_signed16(get_u16(data, off))
}

/// Turn an unsigned 32-bit value into the signed value with the same bits.
pub fn to_signed32(v: u32) -> (r: i32)
    ensures
        r == as_signed32(v),
{
    if v < 0x8000_0000 {
        v as i32
    } else {
        -((0xFFFF_FFFFu32 - v) as i32) - 1
    }
}

/// Turn an unsigned 16-bit value into the signed value with the same bits.
pub fn to_signed16(v: u16) -> (r: i16)
    ensures
        r == as_signed16(v),
{
    if v < 0x8000 {
        v as i16
    } else {
        -((0xFFFFu16 - v) as i16) - 1
    }
}

/// Read a little-endian `i32` at `off`.
pub fn read_i32(data: &[u8], off: usize) -> (r: Result<i32, ModelError>)
    ensures
        off + 4 <= data@.len() ==> r == Ok::<i32, ModelError>(le_i32(data@, off as int)),
        off + 4 > data@.len() ==> r == Err::<i32, ModelError>(
            read_fault(data@.len() as int, off as int, 4, "u32"),
        ),
{
    match read_u32(data, off) {
        Ok(v) => Ok(to_signed32(v)),
        Err(e) => Err(e),
    }
}

/// Read a little-endian `i16` at `off`.
pub fn read_i16(data: &[u8], off: usize) -> (r: Result<i16, ModelError>)
    ensures
        off + 2 <= data@.len() ==> r == Ok::<i16, ModelError>(le_i16(data@, off as int)),
        off + 2 > data@.len() ==> r == Err::<i16, ModelError>(
            read_fault(data@.len() as int, off as int, 2, "u16"),
        ),
{
    match read_u16(data, off) {
        Ok(v) => Ok(to_signed16(v)),
        Err(e) => Err(e),
    }
}

/// Copy `n` bytes starting at `off` into an owned vector.
pub fn read_bytes(data: &[u8], off: usize, n: usize) -> (r: Vec<u8>)
    requires
        off + n <= data@.len(),
    ensures
        r@ == data@.subrange(off as int, off as int + n as int),
{
    let len = data.len();
    let mut out: Vec<u8> = Vec::new();
    for i in 0..n
        invariant
            off + n <= data@.len(),
            data@.len() == len,
            out@ == data@.subrange(off as int, off as int + i as int),
    {
        out.push(data[off + i]);
        proof {
            assert(out@ =~= data@.subrange(off as int, off as int + i as int + 1));
        }
    }
    out
}

// ------------------------------------------------------------------
// Index ranges: (base, count, stride) offset lists.
// ------------------------------------------------------------------

/// The `usize` that a signed 32-bit offset becomes when it is used as a
/// slice index: non-negative values are themselves, negative values wrap to
/// the top of the address space (and therefore fail every bounds check).
pub open spec fn extend_signed(v: i32) -> int {
    if v >= 0 {
        v as int
    } else {
        usize::MAX + 1 + v
    }
}

/// `base + i * stride`, saturated at the largest `usize` (a saturated
/// offset fails every bounds check, like the overflow it stands for).
pub open spec fn sat_off(base: int, i: int, stride: int) -> int {
    if base + i * stride <= usize::MAX {
        base + i * stride
    } else {
        usize::MAX as int
    }
}

/// Turn a signed 32-bit file offset into the slice index it becomes, as
/// [`extend_signed`] describes.
pub fn extend_to_usize(v: i32) -> (r: usize)
    ensures
        r as int == extend_signed(v),
{
    if v >= 0 {
        v as usize
    } else {
        let mag: usize = (-(v + 1)) as usize;
        usize::MAX - mag
    }
}

/// `a + b` clamped to the signed 32-bit range.
pub open spec fn sat_add32(a: int, b: int) -> int {
    if a + b > i32::MAX {
        i32::MAX as int
    } else if a + b < i32::MIN {
        i32::MIN as int
    } else {
        a + b
    }
}

/// Add two signed 32-bit values, clamping to the signed 32-bit range.
pub fn saturating_add32(a: i32, b: i32) -> (r: i32)
    ensures
        r as int == sat_add32(a as int, b as int),
{
    let s: i64 = (a as i64) + (b as i64);
    if s > i32::MAX as i64 {
        i32::MAX
    } else if s < i32::MIN as i64 {
        i32::MIN
    } else {
        s as i32
    }
}

/// Whether reading a whole table of `count` records of `size` bytes at
/// offsets `base + i * stride` fails, and with which record's fault;
/// records before `i` are known to be in bounds.
pub open spec fn records_fault_from(
    len: int,
    base: int,
    stride: int,
    size: int,
    count: int,
    i: int,
    what: &'static str,
) -> Option<ModelError>
    decreases count - i,
{
    if i >= count {
        None
    } else if sat_off(base, i, stride) + size > len {
        Some(read_fault(len, sat_off(base, i, stride), size, what))
    } else {
        records_fault_from(len, base, stride, size, count, i + 1, what)
    }
}

/// Whether reading a whole table of fixed-size records fails.
pub open spec fn records_fault(
    len: int,
    base: int,
    stride: int,
    size: int,
    count: int,
    what: &'static str,
) -> Option<ModelError> {
    records_fault_from(len, base, stride, size, count, 0, what)
}

/// Whether walking a table of records relative to the record at `off`
/// fails, and how, from record `i` on: each record offset is checked
/// against the bytes that remain after `off`, then the record is read by
/// `child` (whose fault includes its own header being cut short).
pub open spec fn table_fault(
    s: Seq<u8>,
    off: int,
    rel_base: int,
    stride: int,
    count: int,
    i: int,
    what: &'static str,
    child: spec_fn(Seq<u8>, int) -> Option<ModelError>,
) -> Option<ModelError>
    decreases count - i,
{
    if i >= count {
        None
    } else {
        let rel = sat_off(rel_base, i, stride);
        if rel > s.len() - off {
            Some(ModelError::OutOfBounds { data: what, offset: rel as usize })
        } else if child(s, off + rel) is Some {
            child(s, off + rel)
        } else {
            table_fault(s, off, rel_base, stride, count, i + 1, what, child)
        }
    }
}

/// Whether a parsed table is record-for-record what the table walk reads:
/// `count` records, the `i`-th matching the bytes at its record offset.
pub open spec fn table_matches<T>(
    out: Seq<T>,
    s: Seq<u8>,
    off: int,
    rel_base: int,
    stride: int,
    count: int,
    m: spec_fn(T, Seq<u8>, int) -> bool,
) -> bool {
    &&& out.len() == count
    &&& forall|i: int|
        0 <= i < count ==> #[trigger] m(out[i], s, off + sat_off(rel_base, i, stride))
}

/// The offsets of a table's records: `count` offsets `base + i * stride`.
///
/// This reifies the walk that every table of the model formats follows; it
/// is the only place offset arithmetic happens.
#[derive(Debug, Clone, Copy, PartialEq, Eq)]
pub struct IndexRange {
    pub base: usize,
    pub count: usize,
    pub stride: usize,
}

impl IndexRange {
    /// How many record offsets the range yields.
    pub fn len(&self) -> (r: usize)
        ensures
            r == self.count,
    {
        self.count
    }

    /// The `i`-th record offset.
    pub fn nth(&self, i: usize) -> (r: usize)
        ensures
            r as int == sat_off(self.base as int, i as int, self.stride as int),
    {
        match i.checked_mul(self.stride) {
            Some(p) => match self.base.checked_add(p) {
                Some(o) => o,
                None => usize::MAX,
            },
            None => usize::MAX,
        }
    }
}

/// Build the offset list of a table whose header stores a signed base
/// offset and record count; a negative count yields an empty range.
pub fn index_range(index: i32, count: i32, size: usize) -> (r: IndexRange)
    ensures
        r.base as int == extend_signed(index),
        r.count == if count >= 0 {
            count as int
        } else {
            0
        },
        r.stride == size,
{
    let base: usize = if index >= 0 {
        index as usize
    } else {
        let mag: usize = (-(index + 1)) as usize;
        usize::MAX - mag
    };
    let count_u: usize = if count >= 0 {
        count as usize
    } else {
        0
    };
    IndexRange { base, count: count_u, stride: size }
}

// ------------------------------------------------------------------
// Strings.
// ------------------------------------------------------------------

/// What a byte sequence decodes to as UTF-8: the characters, or nothing
/// where the bytes are not valid UTF-8.
pub uninterp spec fn utf8_decode(bytes: Seq<u8>) -> Option<Seq<char>>;

/// Relies on alloc's `String::from_utf8`: it returns `Ok` exactly when the
/// bytes are valid UTF-8, and then the string holds their decoding; no
/// bytes decode to no characters.
#[verifier::external_body]
fn string_from_utf8(bytes: Vec<u8>) -> (r: Option<String>)
    ensures
        r is Some <==> utf8_decode(bytes@) is Some,
        r is Some ==> r.unwrap()@ == utf8_decode(bytes@).unwrap(),
        bytes@.len() == 0 ==> r is Some && r.unwrap()@ == Seq::<char>::empty(),
{
    String::from_utf8(bytes).ok()
}

/// The offset of the first null byte at or after `off`, or the end of the
/// sequence where none follows.
pub open spec fn str_end(s: Seq<u8>, off: int) -> int
    decreases s.len() - off,
{
    if off < 0 || off >= s.len() {
        s.len() as int
    } else if s[off] == 0 {
        off
    } else {
        str_end(s, off + 1)
    }
}

/// `s` with every backslash replaced by a forward slash.
pub open spec fn normalize_slashes(s: Seq<u8>) -> Seq<u8> {
    s.map_values(
        |b: u8|
            if b == 0x5C {
                0x2Fu8
            } else {
                b
            },
    )
}

/// The bytes of the null-terminated string at `off`: everything up to the
/// first null, or to the end of the data where no null follows.
pub open spec fn str_bytes(s: Seq<u8>, off: int) -> Seq<u8> {
    s.subrange(off, str_end(s, off))
}

proof fn lemma_str_end_bounds(s: Seq<u8>, off: int)
    requires
        0 <= off <= s.len(),
    ensures
        off <= str_end(s, off) <= s.len(),
    decreases s.len() - off,
{
    if off < s.len() && s[off] != 0 {
        lemma_str_end_bounds(s, off + 1);
    }
}

/// Collect the bytes of the null-terminated string at `off`, normalizing
/// backslashes to forward slashes when asked to.
fn scan_string_bytes(data: &[u8], off: usize, normalize: bool) -> (r: Vec<u8>)
    requires
        off <= data@.len(),
    ensures
        !normalize ==> r@ == str_bytes(data@, off as int),
        normalize ==> r@ == normalize_slashes(str_bytes(data@, off as int)),
{
    proof {
        lemma_str_end_bounds(data@, off as int);
    }
    let mut out: Vec<u8> = Vec::new();
    let mut i: usize = off;
    while i < data.len() && data[i] != 0
        invariant
            off <= i <= data@.len(),
            str_end(data@, off as int) == str_end(data@, i as int),
            i <= str_end(data@, off as int),
            !normalize ==> out@ == data@.subrange(off as int, i as int),
            normalize ==> out@ == normalize_slashes(data@.subrange(off as int, i as int)),
        decreases data@.len() - i,
    {
        let b = data[i];
        if normalize && b == 0x5C {
            out.push(0x2F);
        } else {
            out.push(b);
        }
        proof {
            lemma_str_end_bounds(data@, i + 1);
            assert(data@.subrange(off as int, i + 1 as int) =~= data@.subrange(
                off as int,
                i as int,
            ).push(data@[i as int]));
            if normalize {
                assert(out@ =~= normalize_slashes(data@.subrange(off as int, i + 1 as int)));
            }
        }
        i = i + 1;
    }
    proof {
        assert(str_end(data@, i as int) == i);
        assert(data@.subrange(off as int, i as int) == str_bytes(data@, off as int));
    }
    out
}

/// Whether reading the null-terminated string at `off` fails, and how.
pub open spec fn string_fault(s: Seq<u8>, off: int, normalize: bool) -> Option<ModelError> {
    if off > s.len() {
        Some(ModelError::OutOfBounds { data: "string", offset: off as usize })
    } else if utf8_decode(read_string_bytes(s, off, normalize)) is None {
        Some(ModelError::String(StringError::NonUtf8))
    } else {
        None
    }
}

/// The bytes a string read at `off` decodes, after optional slash
/// normalization.
pub open spec fn read_string_bytes(s: Seq<u8>, off: int, normalize: bool) -> Seq<u8> {
    if normalize {
        normalize_slashes(str_bytes(s, off))
    } else {
        str_bytes(s, off)
    }
}

/// The characters of a successfully read string at `off`.
pub open spec fn string_value(s: Seq<u8>, off: int, normalize: bool) -> Seq<char> {
    utf8_decode(read_string_bytes(s, off, normalize)).unwrap()
}

/// Read the null-terminated UTF-8 string at `off`; the string ends at the
/// first null byte or at the end of the data. With `normalize`,
/// backslashes become forward slashes first.
pub fn read_string(data: &[u8], off: usize, normalize: bool) -> (r: Result<String, ModelError>)
    ensures
        match r {
            Ok(v) => string_fault(data@, off as int, normalize) is None && v@ == string_value(
                data@,
                off as int,
                normalize,
            ),
            Err(e) => string_fault(data@, off as int, normalize) == Some(e),
        },
{
    if off > data.len() {
        return Err(ModelError::OutOfBounds { data: "string", offset: off });
    }
    let bytes = scan_string_bytes(data, off, normalize);
    match string_from_utf8(bytes) {
        Some(v) => Ok(v),
        None => Err(ModelError::String(StringError::NonUtf8)),
    }
}

/// Whether reading a string at a signed offset relative to the record at
/// `base` fails: a negative offset is rejected outright, one past the end
/// of the data is out of bounds (reported relative to the record), the
/// rest as in [`string_fault`].
pub open spec fn string_rel_fault(s: Seq<u8>, base: int, index: i32, normalize: bool) -> Option<
    ModelError,
> {
    if index < 0 {
        Some(ModelError::OutOfBounds { data: "string", offset: usize::MAX })
    } else if base + index > s.len() {
        Some(ModelError::OutOfBounds { data: "string", offset: index as usize })
    } else if utf8_decode(read_string_bytes(s, base + index, normalize)) is None {
        Some(ModelError::String(StringError::NonUtf8))
    } else {
        None
    }
}

/// The characters of a successfully read record-relative string.
pub open spec fn string_rel_value(s: Seq<u8>, base: int, index: i32, normalize: bool) -> Seq<
    char,
> {
    string_value(s, base + index, normalize)
}

/// Read the null-terminated string a signed record-relative offset names;
/// the scan may run past the record, to the first null byte of the rest of
/// the data.
pub fn read_string_rel(data: &[u8], base: usize, index: i32, normalize: bool) -> (r: Result<
    String,
    ModelError,
>)
    requires
        base <= data@.len(),
    ensures
        match r {
            Ok(v) => string_rel_fault(data@, base as int, index, normalize) is None && v@
                == string_rel_value(data@, base as int, index, normalize),
            Err(e) => string_rel_fault(data@, base as int, index, normalize) == Some(e),
        },
{
    let len = data.len();
    if index < 0 {
        return Err(ModelError::OutOfBounds { data: "string", offset: usize::MAX });
    }
    let rel = index as usize;
    if rel > len - base {
        return Err(ModelError::OutOfBounds { data: "string", offset: rel });
    }
    match read_string(data, base + rel, normalize) {
        Ok(v) => Ok(v),
        Err(e) => Err(e),
    }
}

/// The bytes a lenient record-relative name read decodes: the
/// null-terminated string at the offset, or no bytes at all where the
/// offset leaves the data (such name fields fall back to an empty name
/// instead of failing).
pub open spec fn lenient_name_bytes(s: Seq<u8>, base: int, index: i32, normalize: bool) -> Seq<
    u8,
> {
    let rel = extend_signed(index);
    if rel <= s.len() - base {
        read_string_bytes(s, base + rel, normalize)
    } else {
        Seq::empty()
    }
}

/// Whether a lenient name read fails: only on invalid UTF-8.
pub open spec fn lenient_name_fault(s: Seq<u8>, base: int, index: i32, normalize: bool) -> Option<
    ModelError,
> {
    if utf8_decode(lenient_name_bytes(s, base, index, normalize)) is None {
        Some(ModelError::String(StringError::NonUtf8))
    } else {
        None
    }
}

/// The characters of a successfully read lenient name.
pub open spec fn lenient_name_value(s: Seq<u8>, base: int, index: i32, normalize: bool) -> Seq<
    char,
> {
    utf8_decode(lenient_name_bytes(s, base, index, normalize)).unwrap()
}

/// Read a record-relative name leniently: an offset that leaves the data
/// yields an empty name rather than a fault.
pub fn read_string_lenient(data: &[u8], base: usize, index: i32, normalize: bool) -> (r: Result<
    String,
    ModelError,
>)
    requires
        base <= data@.len(),
    ensures
        match r {
            Ok(v) => lenient_name_fault(data@, base as int, index, normalize) is None && v@
                == lenient_name_value(data@, base as int, index, normalize),
            Err(e) => lenient_name_fault(data@, base as int, index, normalize) == Some(e),
        },
{
    let len = data.len();
    let rel = extend_to_usize(index);
    let bytes: Vec<u8> = if rel <= len - base {
        scan_string_bytes(data, base + rel, normalize)
    } else {
        Vec::new()
    };
    match string_from_utf8(bytes) {
        Some(v) => Ok(v),
        None => Err(ModelError::String(StringError::NonUtf8)),
    }
}

// ------------------------------------------------------------------
// Fixed-length name fields.
// ------------------------------------------------------------------

/// The offset of the first null in `s`, or `s.len()` where none occurs.
pub open spec fn first_null(s: Seq<u8>) -> int {
    str_end(s, 0)
}

/// Whether decoding a fixed-length name field fails, and how: no null
/// terminator anywhere in the field, or invalid UTF-8 before it.
pub open spec fn fixed_string_fault(s: Seq<u8>) -> Option<ModelError> {
    if first_null(s) == s.len() {
        Some(ModelError::String(StringError::NotNullTerminated))
    } else if utf8_decode(s.subrange(0, first_null(s))) is None {
        Some(ModelError::String(StringError::NonUtf8))
    } else {
        None
    }
}

/// The characters of a successfully decoded fixed-length name field.
pub open spec fn fixed_string_value(s: Seq<u8>) -> Seq<char> {
    utf8_decode(s.subrange(0, first_null(s))).unwrap()
}

/// Decode a fixed-length, null-terminated name field: the string ends at
/// the first null, which must be present.
pub fn fixed_string(buf: &Vec<u8>) -> (r: Result<String, ModelError>)
    ensures
        match r {
            Ok(v) => fixed_string_fault(buf@) is None && v@ == fixed_string_value(buf@),
            Err(e) => fixed_string_fault(buf@) == Some(e),
        },
{
    proof {
        lemma_str_end_bounds(buf@, 0);
    }
    let mut end: usize = 0;
    while end < buf.len() && buf[end] != 0
        invariant
            0 <= end <= buf@.len(),
            str_end(buf@, 0) == str_end(buf@, end as int),
            end <= str_end(buf@, 0),
        decreases buf@.len() - end,
    {
        proof {
            lemma_str_end_bounds(buf@, end + 1);
        }
        end = end + 1;
    }
    if end == buf.len() {
        return Err(ModelError::String(StringError::NotNullTerminated));
    }
    let bytes = read_bytes(buf.as_slice(), 0, end);
    match string_from_utf8(bytes) {
        Some(v) => Ok(v),
        None => Err(ModelError::String(StringError::NonUtf8)),
    }
}

} // verus!
