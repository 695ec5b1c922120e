//! Decode results and the tail of the codestream path.
//!
//! Both packing schemes end in the same affine rescale
//! `Y = (R + X * 2^E) * 10^(-D)`: the library recovers the raw samples `X`
//! and the parameters `R`, `E`, `D` exactly; applying the floating-point
//! formula is the caller's last, unverified step.

use vstd::prelude::*;
use vstd::arithmetic::div_mod::lemma_fundamental_div_mod;
use vstd::arithmetic::power2::{lemma2_to64, lemma_pow2_strictly_increases, pow2};
use vstd::bits::lemma_u32_shl_is_mul;
use crate::error::{DecodeError, GribError, Jpeg2000CodeStreamDecodeError, SimplePackingDecodeError};

verus! {

/// The parameters of the affine rescale, read from section 5.
#[derive(Debug, Clone, Copy, PartialEq, Eq, Structural)]
pub struct SimplePackingParams {
    /// IEEE-754 bit pattern of the reference value R.
    pub ref_val_bits: u32,
    /// Binary scale exponent E.
    pub binary_scale: i16,
    /// Decimal scale exponent D.
    pub decimal_scale: i16,
    pub bits_per_value: u8,
    /// The declared number of samples.
    pub num_points: u32,
}

/// A fully recovered field: the raw integer samples and the rescale
/// parameters that turn them into physical values.
#[derive(Debug, Clone, PartialEq, Eq)]
pub struct RawField {
    pub params: SimplePackingParams,
    pub samples: Vec<i64>,
}

/// A field whose section 7 holds a compressed codestream: the caller runs
/// the external codec over `codestream` and hands the samples back to
/// [`finish_codestream`].
#[derive(Debug, Clone, PartialEq, Eq)]
pub struct CodestreamTask {
    pub params: SimplePackingParams,
    pub codestream: Vec<u8>,
}

/// What decoding one submessage yields: either the samples themselves, or
/// the codestream an external codec must decode first.
#[derive(Debug, Clone, PartialEq, Eq)]
pub enum DecodeOutcome {
    Unpacked(RawField),
    NeedsCodestream(CodestreamTask),
}

/// A grid extent after the codec's discard level: `ceil(x / 2^factor)`.
pub open spec fn spec_discard_adjusted(x: nat, factor: nat) -> int {
    (x + pow2(factor) - 1) / (pow2(factor) as int)
}

/// The number of samples a single-component codestream of width `w` and
/// height `h` yields at discard level `factor`.
pub fn value_for_discard_level(x: u32, factor: u32) -> (r: u32)
    requires
        factor < 32,
    ensures
        r as int == spec_discard_adjusted(x as nat, factor as nat),
{
    proof {
        lemma2_to64();
        if factor < 31 {
            lemma_pow2_strictly_increases(factor as nat, 31);
        }
        lemma_u32_shl_is_mul(1u32, factor as u32);
    }
    let d: u32 = 1u32 << factor;
    let num: u64 = x as u64 + d as u64 - 1;
    let q: u64 = num / (d as u64);
    proof {
        let xi = x as int;
        let di = d as int;
        let ni = num as int;
        lemma_fundamental_div_mod(ni, di);
        let qq = ni / di;
        let rr = ni % di;
        assert(qq <= xi) by (nonlinear_arith)
            requires
                di >= 1,
                xi >= 0,
                ni == di * qq + rr,
                0 <= rr < di,
                ni == xi + di - 1,
        ;
    }
    q as u32
}

/// Checks the geometry an external codec reported and, where it matches
/// the declared point count, packages the copied-out samples as the final
/// raw field.  Only single-component (grayscale) output is supported.
pub fn finish_codestream(
    params: SimplePackingParams,
    num_components: usize,
    width: u32,
    height: u32,
    factor: u32,
    samples: &Vec<i32>,
) -> (r: Result<RawField, GribError>)
    requires
        factor < 32,
    ensures
        ({
            let expected = spec_discard_adjusted(width as nat, factor as nat)
                * spec_discard_adjusted(height as nat, factor as nat);
            match r {
                Ok(f) => {
                    &&& num_components == 1
                    &&& samples@.len() == expected
                    &&& samples@.len() == params.num_points
                    &&& f.params == params
                    &&& f.samples@.len() == params.num_points
                    &&& forall|k: int|
                        0 <= k < f.samples@.len() ==> (#[trigger] f.samples@[k]) == samples@[k]
                            as i64
                },
                Err(e) => {
                    if num_components != 1 {
                        e == GribError::DecodeError(
                            DecodeError::Jpeg2000CodeStreamDecodeError(
                                Jpeg2000CodeStreamDecodeError::NotSupported,
                            ),
                        )
                    } else if samples@.len() != expected {
                        e == GribError::DecodeError(
                            DecodeError::Jpeg2000CodeStreamDecodeError(
                                Jpeg2000CodeStreamDecodeError::LengthMismatch,
                            ),
                        )
                    } else {
                        samples@.len() != params.num_points && e == GribError::DecodeError(
                            DecodeError::SimplePackingDecodeError(
                                SimplePackingDecodeError::LengthMismatch,
                            ),
                        )
                    }
                },
            }
        }),
{
    if num_components != 1 {
        return Err(
            GribError::DecodeError(
                DecodeError::Jpeg2000CodeStreamDecodeError(
                    Jpeg2000CodeStreamDecodeError::NotSupported,
                ),
            ),
        );
    }
    let w = value_for_discard_level(width, factor);
    let h = value_for_discard_level(height, factor);
    proof {
        assert(w as int * h as int <= 0xffff_ffff * 0xffff_ffff) by (nonlinear_arith)
            requires
                0 <= w as int <= 0xffff_ffff,
                0 <= h as int <= 0xffff_ffff,
        ;
    }
    let expected: u64 = w as u64 * h as u64;
    if samples.len() as u64 != expected {
        return Err(
            GribError::DecodeError(
                DecodeError::Jpeg2000CodeStreamDecodeError(
                    Jpeg2000CodeStreamDecodeError::LengthMismatch,
                ),
            ),
        );
    }
    if samples.len() as u64 != params.num_points as u64 {
        return Err(
            GribError::DecodeError(
                DecodeError::SimplePackingDecodeError(SimplePackingDecodeError::LengthMismatch),
            ),
        );
    }
    let mut out: Vec<i64> = Vec::new();
    let mut k: usize = 0;
    while k < samples.len()
        invariant
            k <= samples.len(),
            out@.len() == k,
            forall|t: int| 0 <= t < k ==> (#[trigger] out@[t]) == samples@[t] as i64,
        decreases samples.len() - k,
    {
        out.push(samples[k] as i64);
        k = k + 1;
    }
    Ok(RawField { params, samples: out })
}

} // verus!
