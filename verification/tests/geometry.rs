//! Geometry snapshots and the byte layout of property values.

use winctl::prop::{encode_atom_pair, first_u32_of_property, read_u32_le, u32_le_bytes,
    u32s_of_property};
use winctl::WindowInfo;

#[test]
fn snapshot_keeps_reply_fields() {
    let info = WindowInfo::from_geometry(-3, 17, 800, 600);
    assert_eq!(info.pos.0, -3);
    assert_eq!(info.pos.1, 17);
    assert_eq!(info.size.0, 800);
    assert_eq!(info.size.1, 600);
}

#[test]
fn snapshot_allows_zero_size() {
    let info = WindowInfo::from_geometry(0, 0, 0, 0);
    assert_eq!(info.size.0, 0);
    assert_eq!(info.size.1, 0);
}

#[test]
fn snapshot_size_is_never_negative() {
    // The largest reply values still come through as nonnegative counts.
    let info = WindowInfo::from_geometry(i16::MIN, i16::MAX, u16::MAX, u16::MAX);
    assert_eq!(info.pos.0, -32768);
    assert_eq!(info.pos.1, 32767);
    assert_eq!(info.size.0, 65535);
    assert_eq!(info.size.1, 65535);
}

#[test]
fn snapshot_from_corners_measures_the_rectangle() {
    let info = WindowInfo::from_rect(-10, 20, 790, 620);
    assert_eq!(info.pos, (-10, 20));
    assert_eq!(info.size, (800, 600));
    // The widest possible rectangle still fits the unsigned size.
    let wide = WindowInfo::from_rect(i32::MIN, 0, i32::MAX, 0);
    assert_eq!(wide.size, (u32::MAX, 0));
}

#[test]
fn reads_little_endian_units() {
    assert_eq!(read_u32_le(0x78, 0x56, 0x34, 0x12), 0x12345678);
    assert_eq!(read_u32_le(0, 0, 0, 0), 0);
    assert_eq!(read_u32_le(0xFF, 0xFF, 0xFF, 0xFF), u32::MAX);
}

#[test]
fn byte_layout_round_trips() {
    for v in [0u32, 1, 0x100, 0xDEADBEEF, u32::MAX] {
        let (b0, b1, b2, b3) = u32_le_bytes(v);
        assert_eq!(read_u32_le(b0, b1, b2, b3), v);
    }
    let (b0, b1, b2, b3) = u32_le_bytes(0xDEADBEEF);
    assert_eq!((b0, b1, b2, b3), (0xEF, 0xBE, 0xAD, 0xDE));
}

#[test]
fn first_unit_needs_format_32_and_a_value() {
    let value = vec![0x2A, 0, 0, 0];
    assert_eq!(first_u32_of_property(32, 1, &value), Some(42));
    // An absent property comes back with format 0 and no units.
    assert_eq!(first_u32_of_property(0, 0, &vec![]), None);
    // A present property of the wrong format carries no 32-bit unit.
    assert_eq!(first_u32_of_property(8, 4, &value), None);
    // An empty format-32 reply carries none either.
    assert_eq!(first_u32_of_property(32, 0, &vec![]), None);
}

#[test]
fn unit_list_is_read_in_order() {
    let value = vec![1, 0, 0, 0, 2, 0, 0, 0, 0x10, 0x20, 0, 0];
    assert_eq!(u32s_of_property(32, &value), Some(vec![1, 2, 0x2010]));
    assert_eq!(u32s_of_property(32, &vec![]), Some(vec![]));
    assert_eq!(u32s_of_property(8, &value), None);
}

#[test]
fn trailing_fragment_carries_no_unit() {
    let value = vec![7, 0, 0, 0, 9, 9];
    assert_eq!(u32s_of_property(32, &value), Some(vec![7]));
}

#[test]
fn atom_pair_is_laid_out_first_value_first() {
    let data = encode_atom_pair(0x12345678, 0x2A);
    assert_eq!(data, vec![0x78, 0x56, 0x34, 0x12, 0x2A, 0, 0, 0]);
    assert_eq!(u32s_of_property(32, &data), Some(vec![0x12345678, 0x2A]));
}
