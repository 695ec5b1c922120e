//! Big-endian field readers and the GRIB2 sign-magnitude integer convention.

use vstd::prelude::*;

verus! {

/// The big-endian 16-bit value at offset `i` of `b`.
pub open spec fn be16(b: Seq<u8>, i: int) -> nat {
    (b[i] as nat) * 0x100 + (b[i + 1] as nat)
}

/// The big-endian 32-bit value at offset `i` of `b`.
pub open spec fn be32(b: Seq<u8>, i: int) -> nat {
    be16(b, i) * 0x10000 + be16(b, i + 2)
}

/// The big-endian 64-bit value at offset `i` of `b`.
pub open spec fn be64(b: Seq<u8>, i: int) -> nat {
    be32(b, i) * 0x1_0000_0000 + be32(b, i + 4)
}

/// GRIB2 encodes signed fields as sign-and-magnitude: the top bit is the
/// sign, the remaining bits the absolute value.
pub open spec fn grib_int16_spec(x: u16) -> int {
    if x >= 0x8000 {
        -((x - 0x8000) as int)
    } else {
        x as int
    }
}

pub fn read_u16(b: &Vec<u8>, i: usize) -> (r: u16)
    requires
        i + 2 <= b.len(),
    ensures
        r as nat == be16(b@, i as int),
{
    (b[i] as u16) * 0x100 + (b[i + 1] as u16)
}

pub fn read_u32(b: &Vec<u8>, i: usize) -> (r: u32)
    requires
        i + 4 <= b.len(),
    ensures
        r as nat == be32(b@, i as int),
{
    let hi = read_u16(b, i);
    let lo = read_u16(b, i + 2);
    (hi as u32) * 0x10000 + (lo as u32)
}

pub fn read_u64(b: &Vec<u8>, i: usize) -> (r: u64)
    requires
        i + 8 <= b.len(),
    ensures
        r as nat == be64(b@, i as int),
{
    let hi = read_u32(b, i);
    let lo = read_u32(b, i + 4);
    (hi as u64) * 0x1_0000_0000 + (lo as u64)
}

/// The byte-source read: a copy of `len` bytes of `b` starting at
/// `offset`, exactly the subrange of the stream.
pub fn read_exact(b: &Vec<u8>, offset: usize, len: usize) -> (r: Vec<u8>)
    requires
        offset + len <= b.len(),
    ensures
        r@ == b@.subrange(offset as int, offset as int + len as int),
{
    let mut r: Vec<u8> = Vec::new();
    let mut j: usize = 0;
    while j < len
        invariant
            j <= len,
            offset + len <= b.len(),
            r@.len() == j,
            forall|t: int| 0 <= t < j ==> (#[trigger] r@[t]) == b@[offset + t],
        decreases len - j,
    {
        r.push(b[offset + j]);
        j = j + 1;
    }
    proof {
        assert(r@ =~= b@.subrange(offset as int, offset as int + len as int));
    }
    r
}

/// Reads a sign-and-magnitude 16-bit field as a native signed integer.
pub fn grib_int16(x: u16) -> (r: i16)
    ensures
        r as int == grib_int16_spec(x),
{
    if x >= 0x8000 {
        let mag = x - 0x8000;
        -(mag as i16)
    } else {
        x as i16
    }
}

} // verus!
