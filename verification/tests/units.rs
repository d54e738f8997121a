//! Unit tests for the primitive decoder, the compressed codecs, the
//! run-length value stream and the strip-to-triangle expansion.

use vmdl::mdl::{FrameValues, ValueHeader};
use vmdl::reader::{read_i32, read_string, read_u16, read_u32};
use vmdl::vtx::{Strip, StripFlags};
use vmdl::{index_range, Quaternion48, Quaternion64};

#[test]
fn little_endian_reads() {
    let data = [0x01u8, 0x02, 0x03, 0x04, 0xFF, 0xFF, 0xFF, 0xFF];
    assert_eq!(read_u16(&data, 0), Ok(0x0201));
    assert_eq!(read_u32(&data, 0), Ok(0x04030201));
    assert_eq!(read_i32(&data, 4), Ok(-1));
    assert!(read_u32(&data, 6).is_err());
}

#[test]
fn index_range_walks_offsets() {
    let r = index_range(100, 3, 8);
    assert_eq!(r.len(), 3);
    assert_eq!(r.nth(0), 100);
    assert_eq!(r.nth(1), 108);
    assert_eq!(r.nth(2), 116);
    let empty = index_range(100, -5, 8);
    assert_eq!(empty.len(), 0);
}

#[test]
fn string_reads_normalize_backslashes() {
    let data = b"a\\b\\c\0rest";
    let plain = read_string(data, 0, false).unwrap();
    assert_eq!(plain, "a\\b\\c");
    let normalized = read_string(data, 0, true).unwrap();
    assert_eq!(normalized, "a/b/c");
    // a string without a terminator runs to the end of the data
    let tail = read_string(b"abc", 0, false).unwrap();
    assert_eq!(tail, "abc");
    // multi-byte UTF-8 survives the decode
    let accented = read_string("caf\u{e9}\0".as_bytes(), 0, false).unwrap();
    assert_eq!(accented, "caf\u{e9}");
    assert!(read_string(&[0x66, 0xFF, 0x00], 0, false).is_err());
}

#[test]
fn quaternion48_field_extraction() {
    // the packed rotation (0x80,0x80, 0x80,0x80, 0x80,0xC0)
    let q = Quaternion48 { x: 0x8080, y: 0x8080, z: 0xC080 };
    assert_eq!(q.x_raw(), 0x8080);
    assert_eq!(q.y_raw(), 0x8080);
    assert_eq!(q.z_raw(), 0x4080);
    assert!(q.w_negative());
    let q2 = Quaternion48 { x: 0x8000, y: 0x8000, z: 0x6000 };
    assert_eq!(q2.z_raw(), 0x6000);
    assert!(!q2.w_negative());
}

#[test]
fn quaternion64_field_extraction() {
    // x = 5, y = 6, z = 7, w negative
    let raw: u64 = 5 | (6 << 21) | (7 << 42) | (1 << 63);
    let q = Quaternion64(raw);
    assert_eq!(q.x_raw(), 5);
    assert_eq!(q.y_raw(), 6);
    assert_eq!(q.z_raw(), 7);
    assert!(q.w_negative());
    assert!(!Quaternion64(raw & !(1 << 63)).w_negative());
}

#[test]
fn frame_values_walk_the_chain() {
    // node 0: 1 stored value covering 2 frames; node 1: 1 value, 3 frames
    let data = [1u8, 2, 7, 0, 1, 3, 9, 0];
    let values = FrameValues {
        data: &data,
        base: 0,
        header: ValueHeader { valid: 1, total: 2 },
    };
    assert_eq!(values.get(0), Ok(7));
    assert_eq!(values.get(1), Ok(7)); // the last valid value carries forward
    assert_eq!(values.get(2), Ok(9)); // the walk moves to the next node
    assert_eq!(values.get(4), Ok(9));
    assert!(values.get(200).is_err()); // walking past the data is a fault
}

#[test]
fn frame_values_address_frames_past_255() {
    // two nodes spanning 255 frames each: late frames land in the second
    let data = [1u8, 255, 7, 0, 1, 255, 9, 0];
    let values = FrameValues {
        data: &data,
        base: 0,
        header: ValueHeader { valid: 1, total: 255 },
    };
    assert_eq!(values.get(254), Ok(7));
    assert_eq!(values.get(255), Ok(9));
    assert_eq!(values.get(300), Ok(9));
}

#[test]
fn frame_values_zero_span_terminates() {
    let data = [1u8, 1, 7, 0, 0, 0];
    let values = FrameValues {
        data: &data,
        base: 0,
        header: ValueHeader { valid: 1, total: 1 },
    };
    assert_eq!(values.get(0), Ok(7));
    assert_eq!(values.get(5), Ok(0)); // a zero-span node yields zero
}

fn strip(flags: u8, start: usize, count: usize) -> Strip {
    Strip {
        flags: StripFlags(flags),
        index_start: start,
        index_count: count,
        vertex_start: 0,
        vertex_count: 0,
    }
}

#[test]
fn four_vertex_strip_expands_with_winding_flip() {
    let s = strip(0x02, 0, 4);
    assert_eq!(s.indices(), vec![0, 1, 2, 2, 1, 3]);
}

#[test]
fn strip_expansion_length() {
    for n in 0..10usize {
        let s = strip(0x02, 5, n);
        let expect = 3 * n.saturating_sub(2);
        assert_eq!(s.indices().len(), expect);
    }
}

#[test]
fn list_expansion_length_truncates_to_triples() {
    for n in 0..10usize {
        let s = strip(0x01, 2, n);
        let got = s.indices();
        assert_eq!(got.len(), 3 * (n / 3));
        for (k, v) in got.iter().enumerate() {
            assert_eq!(*v, 2 + k);
        }
    }
}

#[test]
fn strip_vertices_is_a_plain_range() {
    let s = Strip {
        flags: StripFlags(0x02),
        index_start: 0,
        index_count: 0,
        vertex_start: 10,
        vertex_count: 3,
    };
    let r = s.vertices();
    assert_eq!(r.len(), 3);
    assert_eq!(r.nth(0), 10);
    assert_eq!(r.nth(2), 12);
}
