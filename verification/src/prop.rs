//! Decoding and encoding of X11 property values.
//!
//! A property reply carries its value as raw bytes together with a format
//! (8, 16 or 32 bits per unit) and the number of units. The window ids,
//! process ids and atoms this crate deals in are 32-bit units laid out in
//! the connection's native byte order, which on this target is little
//! endian. These functions pin that layout down exactly.

use vstd::arithmetic::div_mod::lemma_div_denominator;
use vstd::arithmetic::div_mod::lemma_div_is_ordered;
use vstd::arithmetic::div_mod::lemma_fundamental_div_mod;
use vstd::prelude::*;

verus! {

/// The value that four bytes encode, least significant byte first.
pub open spec fn le_u32(b0: u8, b1: u8, b2: u8, b3: u8) -> u32 {
    (b0 + b1 * 0x100 + b2 * 0x10000 + b3 * 0x1000000) as u32
}

/// The 32-bit units a property value buffer carries, in order. A trailing
/// fragment of fewer than four bytes carries no unit.
pub open spec fn le_u32_units(b: Seq<u8>) -> Seq<u32> {
    Seq::new(b.len() / 4, |i: int| le_u32(b[4 * i], b[4 * i + 1], b[4 * i + 2], b[4 * i + 3]))
}

/// The first 32-bit unit of a property reply, provided the reply has
/// format 32 and is not empty; `None` otherwise. An absent property comes
/// back with format 0 and no units, so it yields `None` here.
pub open spec fn first_unit_of_property(format: u8, value_len: u32, value: Seq<u8>) -> Option<
    u32,
> {
    if format == 32 && value_len > 0 && value.len() >= 4 {
        Some(le_u32(value[0], value[1], value[2], value[3]))
    } else {
        None
    }
}

/// Read the first 32-bit unit of a property reply, if the reply has one.
pub fn first_u32_of_property(format: u8, value_len: u32, value: &Vec<u8>) -> (r: Option<u32>)
    ensures
        r == first_unit_of_property(format, value_len, value@),
{
    if format == 32 && value_len > 0 && value.len() >= 4 {
        Some(read_u32_le(value[0], value[1], value[2], value[3]))
    } else {
        None
    }
}

/// Combine four bytes, least significant first, into their 32-bit value.
pub fn read_u32_le(b0: u8, b1: u8, b2: u8, b3: u8) -> (r: u32)
    ensures
        r == le_u32(b0, b1, b2, b3),
{
    b0 as u32 + b1 as u32 * 0x100 + b2 as u32 * 0x10000 + b3 as u32 * 0x1000000
}

/// Read every 32-bit unit of a property reply, provided the reply has
/// format 32; `None` otherwise. This is how a window list held in a
/// property (one window id per unit) is taken apart.
pub fn u32s_of_property(format: u8, value: &Vec<u8>) -> (r: Option<Vec<u32>>)
    ensures
        format == 32 ==> (r matches Some(units) && units@ == le_u32_units(value@)),
        format != 32 ==> r is None,
{
    if format != 32 {
        return None;
    }
    let n: usize = value.len() / 4;
    let mut units: Vec<u32> = Vec::new();
    proof {
        lemma_fundamental_div_mod(value@.len() as int, 4);
    }
    for i in 0..n
        invariant
            n == value@.len() / 4,
            4 * n <= value@.len(),
            value@.len() <= usize::MAX,
            units@ == le_u32_units(value@).subrange(0, i as int),
    {
        let unit = read_u32_le(value[4 * i], value[4 * i + 1], value[4 * i + 2], value[4 * i + 3]);
        units.push(unit);
        proof {
            assert(le_u32_units(value@).subrange(0, i + 1) =~= le_u32_units(value@).subrange(
                0,
                i as int,
            ).push(unit));
        }
    }
    proof {
        assert(le_u32_units(value@).subrange(0, n as int) =~= le_u32_units(value@));
    }
    Some(units)
}

/// Lay a 32-bit value out as four bytes, least significant first.
pub fn u32_le_bytes(v: u32) -> (r: (u8, u8, u8, u8))
    ensures
        le_u32(r.0, r.1, r.2, r.3) == v,
{
    let b0 = (v % 0x100) as u8;
    let b1 = ((v / 0x100) % 0x100) as u8;
    let b2 = ((v / 0x10000) % 0x100) as u8;
    let b3 = ((v / 0x1000000) % 0x100) as u8;
    proof {
        lemma_le_u32_recombines(v);
    }
    (b0, b1, b2, b3)
}

/// Taking a 32-bit value apart into its four little-endian bytes and
/// recombining them gives the value back.
pub proof fn lemma_le_u32_recombines(v: u32)
    ensures
        le_u32(
            (v % 0x100) as u8,
            ((v / 0x100) % 0x100) as u8,
            ((v / 0x10000) % 0x100) as u8,
            ((v / 0x1000000) % 0x100) as u8,
        ) == v,
{
    let x = v as int;
    lemma_fundamental_div_mod(x, 0x100);
    lemma_fundamental_div_mod(x / 0x100, 0x100);
    lemma_fundamental_div_mod(x / 0x10000, 0x100);
    lemma_div_denominator(x, 0x100, 0x100);
    lemma_div_denominator(x, 0x10000, 0x100);
    lemma_div_is_ordered(x, 0xFFFFFFFF, 0x1000000);
    assert((x / 0x1000000) % 0x100 == x / 0x1000000) by {
        lemma_fundamental_div_mod(x / 0x1000000, 0x100);
        lemma_div_is_ordered(0, x, 0x1000000);
    }
}

/// Lay two 32-bit values out as one eight-byte buffer, each value little
/// endian, the first value first: the shape in which a pair of atoms is
/// handed to a 32-bit-format property change.
pub fn encode_atom_pair(a: u32, b: u32) -> (r: Vec<u8>)
    ensures
        r@.len() == 8,
        le_u32_units(r@) == seq![a, b],
{
    let (a0, a1, a2, a3) = u32_le_bytes(a);
    let (b0, b1, b2, b3) = u32_le_bytes(b);
    let mut out: Vec<u8> = Vec::new();
    out.push(a0);
    out.push(a1);
    out.push(a2);
    out.push(a3);
    out.push(b0);
    out.push(b1);
    out.push(b2);
    out.push(b3);
    proof {
        assert(le_u32_units(out@) =~= seq![a, b]);
    }
    out
}

} // verus!
