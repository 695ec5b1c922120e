//! The section data model: an index entry per section, and a parsed body
//! for every section kind the decode path reads.

use vstd::prelude::*;
use crate::wire::{be16, be32, be64, grib_int16, grib_int16_spec, read_u16, read_u32, read_u64};

verus! {

/// Body of section 0, the message indicator.
#[derive(Debug, Clone, Copy, PartialEq, Eq, Structural)]
pub struct IndicatorBody {
    pub discipline: u8,
    /// Total length of the message in bytes, the indicator itself included.
    pub total_length: u64,
}

/// Body of section 1, identification of the originating centre and
/// reference time.
#[derive(Debug, Clone, Copy, PartialEq, Eq, Structural)]
pub struct Section1Body {
    pub centre_id: u16,
    pub subcentre_id: u16,
    pub master_table_version: u8,
    pub local_table_version: u8,
    pub ref_time_significance: u8,
    pub year: u16,
    pub month: u8,
    pub day: u8,
    pub hour: u8,
    pub minute: u8,
    pub second: u8,
}

/// Body of section 3, the grid definition.
#[derive(Debug, Clone, Copy, PartialEq, Eq, Structural)]
pub struct Section3Body {
    pub num_points: u32,
    pub grid_template: u16,
}

/// Body of section 4, the product definition.
#[derive(Debug, Clone, Copy, PartialEq, Eq, Structural)]
pub struct Section4Body {
    pub num_coordinates: u16,
    pub prod_template: u16,
}

/// Body of section 5, the data-representation definition.
#[derive(Debug, Clone, Copy, PartialEq, Eq, Structural)]
pub struct Section5Body {
    /// Number of packed samples section 7 carries.
    pub num_points: u32,
    /// Identifier of the packing scheme encoding section 7.
    pub repr_template: u16,
    /// IEEE-754 bit pattern of the reference value R.
    pub ref_val_bits: u32,
    /// Binary scale exponent E, sign-magnitude decoded.
    pub binary_scale: i16,
    /// Decimal scale exponent D, sign-magnitude decoded.
    pub decimal_scale: i16,
    pub bits_per_value: u8,
    /// Type of the original field values; 0 is floating point.
    pub value_type: u8,
}

/// Body of section 6, the bitmap header.
#[derive(Debug, Clone, Copy, PartialEq, Eq, Structural)]
pub struct Section6Body {
    /// 255 means no bitmap is present, the only supported state.
    pub bitmap_indicator: u8,
}

/// A parsed body, kept only for the sections the decode path reads.
#[derive(Debug, Clone, Copy, PartialEq, Eq, Structural)]
pub enum SectionBody {
    Indicator(IndicatorBody),
    Identification(Section1Body),
    GridDefinition(Section3Body),
    ProductDefinition(Section4Body),
    ReprDefinition(Section5Body),
    Bitmap(Section6Body),
}

/// One entry of the section index: where a section lies and, where parsed,
/// what its body says.
#[derive(Debug, Clone, Copy, PartialEq, Eq, Structural)]
pub struct SectionInfo {
    pub num: u8,
    pub offset: usize,
    pub size: usize,
    pub body: Option<SectionBody>,
}

/// The least number of body bytes a section of number `num` may carry here.
pub open spec fn min_body_len(num: u8) -> int {
    match num {
        1u8 => 16,
        3u8 => 9,
        4u8 => 4,
        5u8 => 16,
        6u8 => 1,
        _ => 0,
    }
}

pub open spec fn spec_indicator_body(b: Seq<u8>, o: int) -> IndicatorBody {
    IndicatorBody { discipline: b[o + 6], total_length: be64(b, o + 8) as u64 }
}

pub open spec fn spec_sect1_body(b: Seq<u8>, o: int) -> Section1Body {
    Section1Body {
        centre_id: be16(b, o) as u16,
        subcentre_id: be16(b, o + 2) as u16,
        master_table_version: b[o + 4],
        local_table_version: b[o + 5],
        ref_time_significance: b[o + 6],
        year: be16(b, o + 7) as u16,
        month: b[o + 9],
        day: b[o + 10],
        hour: b[o + 11],
        minute: b[o + 12],
        second: b[o + 13],
    }
}

pub open spec fn spec_sect3_body(b: Seq<u8>, o: int) -> Section3Body {
    Section3Body { num_points: be32(b, o + 1) as u32, grid_template: be16(b, o + 7) as u16 }
}

pub open spec fn spec_sect4_body(b: Seq<u8>, o: int) -> Section4Body {
    Section4Body { num_coordinates: be16(b, o) as u16, prod_template: be16(b, o + 2) as u16 }
}

pub open spec fn spec_sect5_body(b: Seq<u8>, o: int) -> Section5Body {
    Section5Body {
        num_points: be32(b, o) as u32,
        repr_template: be16(b, o + 4) as u16,
        ref_val_bits: be32(b, o + 6) as u32,
        binary_scale: grib_int16_spec(be16(b, o + 10) as u16) as i16,
        decimal_scale: grib_int16_spec(be16(b, o + 12) as u16) as i16,
        bits_per_value: b[o + 14],
        value_type: b[o + 15],
    }
}

pub open spec fn spec_sect6_body(b: Seq<u8>, o: int) -> Section6Body {
    Section6Body { bitmap_indicator: b[o] }
}

/// The parsed body of a section of number `num` whose body starts at `o`,
/// or `None` for sections left unparsed.
pub open spec fn spec_body_of(num: u8, b: Seq<u8>, o: int) -> Option<SectionBody> {
    match num {
        1u8 => Some(SectionBody::Identification(spec_sect1_body(b, o))),
        3u8 => Some(SectionBody::GridDefinition(spec_sect3_body(b, o))),
        4u8 => Some(SectionBody::ProductDefinition(spec_sect4_body(b, o))),
        5u8 => Some(SectionBody::ReprDefinition(spec_sect5_body(b, o))),
        6u8 => Some(SectionBody::Bitmap(spec_sect6_body(b, o))),
        _ => None,
    }
}

pub fn parse_sect1(b: &Vec<u8>, o: usize) -> (r: Section1Body)
    requires
        o + 16 <= b.len(),
    ensures
        r == spec_sect1_body(b@, o as int),
{
    Section1Body {
        centre_id: read_u16(b, o),
        subcentre_id: read_u16(b, o + 2),
        master_table_version: b[o + 4],
        local_table_version: b[o + 5],
        ref_time_significance: b[o + 6],
        year: read_u16(b, o + 7),
        month: b[o + 9],
        day: b[o + 10],
        hour: b[o + 11],
        minute: b[o + 12],
        second: b[o + 13],
    }
}

pub fn parse_sect3(b: &Vec<u8>, o: usize) -> (r: Section3Body)
    requires
        o + 9 <= b.len(),
    ensures
        r == spec_sect3_body(b@, o as int),
{
    Section3Body { num_points: read_u32(b, o + 1), grid_template: read_u16(b, o + 7) }
}

pub fn parse_sect4(b: &Vec<u8>, o: usize) -> (r: Section4Body)
    requires
        o + 4 <= b.len(),
    ensures
        r == spec_sect4_body(b@, o as int),
{
    Section4Body { num_coordinates: read_u16(b, o), prod_template: read_u16(b, o + 2) }
}

pub fn parse_sect5(b: &Vec<u8>, o: usize) -> (r: Section5Body)
    requires
        o + 16 <= b.len(),
    ensures
        r == spec_sect5_body(b@, o as int),
{
    Section5Body {
        num_points: read_u32(b, o),
        repr_template: read_u16(b, o + 4),
        ref_val_bits: read_u32(b, o + 6),
        binary_scale: grib_int16(read_u16(b, o + 10)),
        decimal_scale: grib_int16(read_u16(b, o + 12)),
        bits_per_value: b[o + 14],
        value_type: b[o + 15],
    }
}

pub fn parse_sect6(b: &Vec<u8>, o: usize) -> (r: Section6Body)
    requires
        o + 1 <= b.len(),
    ensures
        r == spec_sect6_body(b@, o as int),
{
    Section6Body { bitmap_indicator: b[o] }
}

/// Parses the body a scanned section carries, or records it unparsed.
pub fn parse_body(num: u8, b: &Vec<u8>, o: usize) -> (r: Option<SectionBody>)
    requires
        o + min_body_len(num) <= b.len(),
    ensures
        r == spec_body_of(num, b@, o as int),
{
    match num {
        1u8 => Some(SectionBody::Identification(parse_sect1(b, o))),
        3u8 => Some(SectionBody::GridDefinition(parse_sect3(b, o))),
        4u8 => Some(SectionBody::ProductDefinition(parse_sect4(b, o))),
        5u8 => Some(SectionBody::ReprDefinition(parse_sect5(b, o))),
        6u8 => Some(SectionBody::Bitmap(parse_sect6(b, o))),
        _ => None,
    }
}

} // verus!
