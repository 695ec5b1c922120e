//! The file handle: owner of the byte source, the section index and the
//! submessage index.  Sections and submessages are positions into the
//! handle's own indices, never independently owned references.

use vstd::prelude::*;
use crate::bits::bits_value;
use crate::bits::unpack_bits;
use crate::decode::{CodestreamTask, DecodeOutcome, RawField, SimplePackingParams};
use crate::error::{DecodeError, GribError, ParseError, SimplePackingDecodeError};
use crate::scanner::{lemma_scan_sections_wf, scan, spec_scan_from, wf_section, START_STATE};
use crate::sections::{Section5Body, SectionBody, SectionInfo};
use crate::submessage::{
    group_post, group_submessages, groupable, groupable_at, submessage_at, SubMessage,
};
use crate::wire::read_exact;

verus! {

/// A parsed GRIB2 stream: the bytes, the section index the scanner built,
/// and the submessage index the grouper built over it.
pub struct Grib2 {
    pub buf: Vec<u8>,
    pub sections: Vec<SectionInfo>,
    pub submessages: Vec<SubMessage>,
}

impl Grib2 {
    /// Well-formedness: the section index is exactly what scanning the
    /// bytes yields, and the submessage index is exactly its grouping.
    pub open spec fn wf(&self) -> bool {
        &&& spec_scan_from(self.buf@, 0, START_STATE, 0) == Ok::<Seq<SectionInfo>, ParseError>(
            self.sections@,
        )
        &&& groupable(self.sections@)
        &&& group_post(self.sections@, self.submessages@)
    }

    pub open spec fn spec_submessage_count(&self) -> int {
        self.submessages@.len() as int
    }

    /// The parsed section 5 body of submessage `i`.
    pub open spec fn spec_sect5(&self, i: int) -> Section5Body {
        match self.sections@[self.submessages@[i].sect5 as int].body {
            Some(SectionBody::ReprDefinition(b)) => b,
            _ => arbitrary(),
        }
    }

    /// The bitmap indicator of submessage `i`.
    pub open spec fn spec_bitmap_indicator(&self, i: int) -> u8 {
        match self.sections@[self.submessages@[i].sect6 as int].body {
            Some(SectionBody::Bitmap(b)) => b.bitmap_indicator,
            _ => arbitrary(),
        }
    }

    /// The body bytes of submessage `i`'s section 7: its packed samples or
    /// its embedded codestream.
    pub open spec fn spec_sect7_bytes(&self, i: int) -> Seq<u8> {
        let s = self.sections@[self.submessages@[i].sect7 as int];
        self.buf@.subrange(s.offset + 5, s.offset + s.size)
    }

    /// The rescale parameters of submessage `i`.
    pub open spec fn spec_params(&self, i: int) -> SimplePackingParams {
        let b5 = self.spec_sect5(i);
        SimplePackingParams {
            ref_val_bits: b5.ref_val_bits,
            binary_scale: b5.binary_scale,
            decimal_scale: b5.decimal_scale,
            bits_per_value: b5.bits_per_value,
            num_points: b5.num_points,
        }
    }

    /// The error `decode_submessage` owes for submessage `i`, or `None`
    /// where it owes success.
    pub open spec fn spec_decode_err(&self, i: usize) -> Option<GribError> {
        if i >= self.submessages@.len() {
            Some(GribError::IndexOutOfRange(i))
        } else {
            let b5 = self.spec_sect5(i as int);
            let t = b5.repr_template;
            if t != 0 && t != 40 && t != 40000 {
                Some(GribError::DecodeError(DecodeError::TemplateNotSupported(t)))
            } else if self.spec_bitmap_indicator(i as int) != 255 {
                Some(GribError::DecodeError(DecodeError::BitMapIndicatorUnsupported))
            } else if b5.value_type != 0 {
                Some(
                    GribError::DecodeError(
                        DecodeError::SimplePackingDecodeError(
                            SimplePackingDecodeError::OriginalFieldValueTypeNotSupported,
                        ),
                    ),
                )
            } else if t == 0 && b5.bits_per_value > 32 {
                Some(
                    GribError::DecodeError(
                        DecodeError::SimplePackingDecodeError(
                            SimplePackingDecodeError::BitsPerValueTooLarge,
                        ),
                    ),
                )
            } else if t == 0 && (b5.num_points * b5.bits_per_value + 7) / 8 > self.spec_sect7_bytes(
                i as int,
            ).len() {
                Some(
                    GribError::DecodeError(
                        DecodeError::SimplePackingDecodeError(
                            SimplePackingDecodeError::LengthMismatch,
                        ),
                    ),
                )
            } else {
                None
            }
        }
    }

    /// Everything `decode_submessage` promises: the exact error where one
    /// is owed; otherwise, for direct packing, the samples extracted bit
    /// for bit from section 7, and for codestream packing, the codestream
    /// handed out unchanged with its rescale parameters.
    pub open spec fn decode_post(&self, i: usize, r: Result<DecodeOutcome, GribError>) -> bool {
        match self.spec_decode_err(i) {
            Some(e) => r == Err::<DecodeOutcome, GribError>(e),
            None => match r {
                Ok(DecodeOutcome::Unpacked(f)) => {
                    let b5 = self.spec_sect5(i as int);
                    &&& b5.repr_template == 0
                    &&& f.params == self.spec_params(i as int)
                    &&& f.samples@.len() == b5.num_points
                    &&& forall|k: int|
                        0 <= k < f.samples@.len() ==> (#[trigger] f.samples@[k]) == bits_value(
                            self.spec_sect7_bytes(i as int),
                            k * b5.bits_per_value,
                            b5.bits_per_value as nat,
                        ) as i64
                },
                Ok(DecodeOutcome::NeedsCodestream(task)) => {
                    let b5 = self.spec_sect5(i as int);
                    &&& (b5.repr_template == 40 || b5.repr_template == 40000)
                    &&& task.params == self.spec_params(i as int)
                    &&& task.codestream@ == self.spec_sect7_bytes(i as int)
                },
                Err(_) => false,
            },
        }
    }

    /// Builds a handle from the raw bytes of a stream: scan, then group.
    /// A parse error aborts construction entirely; no partial index is
    /// ever exposed.
    pub fn from_bytes(buf: Vec<u8>) -> (r: Result<Grib2, GribError>)
        ensures
            match r {
                Ok(g) => {
                    &&& g.wf()
                    &&& g.buf@ == buf@
                    &&& spec_scan_from(buf@, 0, START_STATE, 0) == Ok::<
                        Seq<SectionInfo>,
                        ParseError,
                    >(g.sections@)
                },
                Err(e) => match e {
                    GribError::ParseError(pe) => spec_scan_from(buf@, 0, START_STATE, 0) == Err::<
                        Seq<SectionInfo>,
                        ParseError,
                    >(pe),
                    GribError::InternalDataError => match spec_scan_from(buf@, 0, START_STATE, 0) {
                        Ok(ss) => !groupable(ss),
                        Err(_) => false,
                    },
                    _ => false,
                },
            },
    {
        let sections = match scan(&buf) {
            Ok(s) => s,
            Err(e) => {
                return Err(GribError::ParseError(e));
            },
        };
        let submessages = match group_submessages(&sections) {
            Ok(s) => s,
            Err(e) => {
                return Err(e);
            },
        };
        Ok(Grib2 { buf, sections, submessages })
    }

    /// How many decodable submessages the stream holds.
    pub fn submessage_count(&self) -> (r: usize)
        ensures
            r == self.spec_submessage_count(),
    {
        self.submessages.len()
    }

    /// The full section index.
    pub fn sections(&self) -> (r: &Vec<SectionInfo>)
        ensures
            r@ == self.sections@,
    {
        &self.sections
    }

    /// The full submessage index.
    pub fn submessages(&self) -> (r: &Vec<SubMessage>)
        ensures
            r@ == self.submessages@,
    {
        &self.submessages
    }

    /// Decodes submessage `i` as far as verified code can: template
    /// dispatch, section validation, and for direct packing the samples
    /// themselves; a codestream field is handed out for the external
    /// codec, to be finished by `finish_codestream`.
    pub fn decode_submessage(&self, i: usize) -> (r: Result<DecodeOutcome, GribError>)
        requires
            self.wf(),
        ensures
            self.decode_post(i, r),
    {
        if i >= self.submessages.len() {
            return Err(GribError::IndexOutOfRange(i));
        }
        proof {
            assert(self.buf@.len() == self.buf.len());
            assert(self.sections@.len() == self.sections.len());
            lemma_scan_sections_wf(self.buf@, self.sections@);
            let i4 = self.submessages@[i as int].sect4 as int;
            assert(self.submessages@[i as int] == submessage_at(self.sections@, i4));
            assert(groupable_at(self.sections@, i4));
            assert(self.submessages@[i as int].sect5 as int == i4 + 1);
            assert(self.submessages@[i as int].sect6 as int == i4 + 2);
            assert(self.submessages@[i as int].sect7 as int == i4 + 3);
            assert(self.sections@[i4 + 1].num == 5);
            assert(self.sections@[i4 + 2].num == 6);
            assert(self.sections@[i4 + 3].num == 7);
        }
        let sm = self.submessages[i];
        let s5 = self.sections[sm.sect5];
        let s6 = self.sections[sm.sect6];
        let s7 = self.sections[sm.sect7];
        proof {
            assert(wf_section(self.buf@, self.sections@[sm.sect5 as int]));
            assert(wf_section(self.buf@, self.sections@[sm.sect6 as int]));
            assert(wf_section(self.buf@, self.sections@[sm.sect7 as int]));
            assert(s7.num == 7 && s7.size >= 5 && s7.offset + s7.size <= self.buf@.len());
        }
        let b5 = match s5.body {
            Some(SectionBody::ReprDefinition(b)) => b,
            _ => {
                proof {
                    assert(false);
                }
                return Err(GribError::InternalDataError);
            },
        };
        let ind = match s6.body {
            Some(SectionBody::Bitmap(b)) => b.bitmap_indicator,
            _ => {
                proof {
                    assert(false);
                }
                return Err(GribError::InternalDataError);
            },
        };
        let t = b5.repr_template;
        if t != 0 && t != 40 && t != 40000 {
            return Err(GribError::DecodeError(DecodeError::TemplateNotSupported(t)));
        }
        if ind != 255 {
            return Err(GribError::DecodeError(DecodeError::BitMapIndicatorUnsupported));
        }
        if b5.value_type != 0 {
            return Err(
                GribError::DecodeError(
                    DecodeError::SimplePackingDecodeError(
                        SimplePackingDecodeError::OriginalFieldValueTypeNotSupported,
                    ),
                ),
            );
        }
        let params = SimplePackingParams {
            ref_val_bits: b5.ref_val_bits,
            binary_scale: b5.binary_scale,
            decimal_scale: b5.decimal_scale,
            bits_per_value: b5.bits_per_value,
            num_points: b5.num_points,
        };
        let body_start = s7.offset + 5;
        let body_len = s7.size - 5;
        if t == 0 {
            if b5.bits_per_value > 32 {
                return Err(
                    GribError::DecodeError(
                        DecodeError::SimplePackingDecodeError(
                            SimplePackingDecodeError::BitsPerValueTooLarge,
                        ),
                    ),
                );
            }
            proof {
                assert(b5.num_points as int * b5.bits_per_value as int <= 0xffff_ffff * 0xff)
                    by (nonlinear_arith)
                    requires
                        0 <= b5.num_points as int <= 0xffff_ffff,
                        0 <= b5.bits_per_value as int <= 0xff,
                ;
            }
            let needed_bits: u64 = b5.num_points as u64 * b5.bits_per_value as u64;
            let needed_bytes: u64 = (needed_bits + 7) / 8;
            if needed_bytes > body_len as u64 {
                return Err(
                    GribError::DecodeError(
                        DecodeError::SimplePackingDecodeError(
                            SimplePackingDecodeError::LengthMismatch,
                        ),
                    ),
                );
            }
            let body = read_exact(&self.buf, body_start, body_len);
            let n = b5.num_points as usize;
            proof {
                vstd::arithmetic::div_mod::lemma_fundamental_div_mod(needed_bits as int + 7, 8);
                assert(n * b5.bits_per_value <= body@.len() * 8);
            }
            let raw = unpack_bits(&body, b5.bits_per_value, n);
            let mut samples: Vec<i64> = Vec::new();
            let mut k: usize = 0;
            while k < raw.len()
                invariant
                    k <= raw.len(),
                    samples@.len() == k,
                    forall|j: int|
                        0 <= j < k ==> (#[trigger] samples@[j]) == (raw@[j] as i64),
                decreases raw.len() - k,
            {
                samples.push(raw[k] as i64);
                k = k + 1;
            }
            return Ok(DecodeOutcome::Unpacked(RawField { params, samples }));
        } else {
            let cs = read_exact(&self.buf, body_start, body_len);
            return Ok(DecodeOutcome::NeedsCodestream(CodestreamTask { params, codestream: cs }));
        }
    }
}

/// Agreement of two decode results, down to the sample bytes.
pub open spec fn outcomes_agree(
    r1: Result<DecodeOutcome, GribError>,
    r2: Result<DecodeOutcome, GribError>,
) -> bool {
    match (r1, r2) {
        (Ok(DecodeOutcome::Unpacked(f1)), Ok(DecodeOutcome::Unpacked(f2))) => f1.params
            == f2.params && f1.samples@ == f2.samples@,
        (Ok(DecodeOutcome::NeedsCodestream(t1)), Ok(DecodeOutcome::NeedsCodestream(t2))) => t1.params
            == t2.params && t1.codestream@ == t2.codestream@,
        (Err(e1), Err(e2)) => e1 == e2,
        _ => false,
    }
}

/// Decoding is deterministic: any two results that `decode_submessage`
/// may return for the same submessage of the same handle are identical,
/// error or value, down to the last sample.
pub proof fn lemma_decode_deterministic(
    g: Grib2,
    i: usize,
    r1: Result<DecodeOutcome, GribError>,
    r2: Result<DecodeOutcome, GribError>,
)
    requires
        g.decode_post(i, r1),
        g.decode_post(i, r2),
    ensures
        outcomes_agree(r1, r2),
{
    match g.spec_decode_err(i) {
        Some(_) => {},
        None => {
            match (r1, r2) {
                (Ok(DecodeOutcome::Unpacked(f1)), Ok(DecodeOutcome::Unpacked(f2))) => {
                    assert(f1.samples@ =~= f2.samples@);
                },
                _ => {},
            }
        },
    }
}

/// A present bitmap is always rejected, whatever the packing scheme: for
/// any submessage with a known template and a bitmap indicator other than
/// 255, the owed result is the unsupported-bitmap decode error.
pub proof fn lemma_bitmap_always_rejected(g: Grib2, i: usize)
    requires
        i < g.spec_submessage_count(),
        g.spec_sect5(i as int).repr_template == 0 || g.spec_sect5(i as int).repr_template == 40
            || g.spec_sect5(i as int).repr_template == 40000,
        g.spec_bitmap_indicator(i as int) != 255,
    ensures
        g.spec_decode_err(i) == Some(GribError::DecodeError(DecodeError::BitMapIndicatorUnsupported)),
{
}

} // verus!
