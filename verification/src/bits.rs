//! Contiguous big-endian bit extraction, the heart of simple packing:
//! samples of a fixed bit width are packed back to back with no byte
//! alignment between them.

use vstd::prelude::*;
use vstd::arithmetic::power2::{
    lemma2_to64, lemma_pow2_strictly_increases, lemma_pow2_unfold, pow2,
};
use vstd::arithmetic::div_mod::{
    lemma_fundamental_div_mod_converse_div, lemma_fundamental_div_mod_converse_mod,
};

verus! {

/// Bit `i` of the stream `b`, counting bits most-significant-first
/// within each byte.
pub open spec fn bit_at(b: Seq<u8>, i: int) -> nat {
    ((b[i / 8] >> ((7 - i % 8) as u8)) & 1) as nat
}

/// The unsigned value of the `count` bits of `b` starting at bit `start`,
/// most significant bit first.
pub open spec fn bits_value(b: Seq<u8>, start: int, count: nat) -> nat
    decreases count,
{
    if count == 0 {
        0
    } else {
        bits_value(b, start, (count - 1) as nat) * 2 + bit_at(b, start + count - 1)
    }
}

proof fn lemma_bit_le_one(y: u8, s: u8)
    ensures
        ((y >> s) & 1) <= 1,
{
    assert(((y >> s) & 1) <= 1) by (bit_vector);
}

/// Unpacks `n` samples of `nbits` bits each from `b`, starting at bit 0.
pub fn unpack_bits(b: &Vec<u8>, nbits: u8, n: usize) -> (r: Vec<u32>)
    requires
        nbits <= 32,
        n * nbits <= b.len() * 8,
    ensures
        r@.len() == n,
        forall|k: int|
            0 <= k < n ==> (#[trigger] r@[k]) as nat == bits_value(
                b@,
                k * nbits,
                nbits as nat,
            ),
{
    let mut out: Vec<u32> = Vec::new();
    let mut byte_i: usize = 0;
    let mut bit_i: u8 = 0;
    let mut i: usize = 0;
    while i < n
        invariant
            i <= n,
            nbits <= 32,
            n * nbits <= b.len() * 8,
            out@.len() == i,
            bit_i < 8,
            byte_i * 8 + bit_i == i * nbits,
            forall|k: int|
                0 <= k < i ==> (#[trigger] out@[k]) as nat == bits_value(
                    b@,
                    k * nbits,
                    nbits as nat,
                ),
        decreases n - i,
    {
        let ghost start: int = i as int * nbits as int;
        let mut acc: u32 = 0;
        let mut j: u8 = 0;
        proof {
            lemma2_to64();
            assert((i + 1) * nbits <= n * nbits && (i + 1) * nbits == i * nbits + nbits)
                by (nonlinear_arith)
                requires
                    i < n,
                    0 <= nbits,
            ;
        }
        while j < nbits
            invariant
                j <= nbits,
                nbits <= 32,
                i < n,
                n * nbits <= b.len() * 8,
                i * nbits + nbits <= n * nbits,
                bit_i < 8,
                byte_i * 8 + bit_i == start + j,
                start == i as int * nbits as int,
                acc as nat == bits_value(b@, start, j as nat),
                acc < pow2(j as nat),
            decreases nbits - j,
        {
            proof {
                assert(start + j < b.len() * 8);
                assert(byte_i < b.len());
                lemma_fundamental_div_mod_converse_div(start + j, 8, byte_i as int, bit_i as int);
                lemma_fundamental_div_mod_converse_mod(start + j, 8, byte_i as int, bit_i as int);
            }
            let byte = b[byte_i];
            let sh: u8 = 7 - bit_i;
            let bit: u8 = (byte >> sh) & 1;
            proof {
                lemma_bit_le_one(byte, sh);
                assert(bit as nat == bit_at(b@, start + j));
                if j < 31 {
                    lemma_pow2_strictly_increases(j as nat, 31);
                }
                lemma2_to64();
                assert(acc < pow2(31));
                lemma_pow2_unfold((j + 1) as nat);
                assert(bits_value(b@, start, (j + 1) as nat) == bits_value(b@, start, j as nat) * 2
                    + bit_at(b@, start + j));
            }
            acc = acc * 2 + bit as u32;
            if bit_i == 7 {
                bit_i = 0;
                byte_i = byte_i + 1;
            } else {
                bit_i = bit_i + 1;
            }
            j = j + 1;
        }
        out.push(acc);
        i = i + 1;
    }
    out
}

} // verus!
