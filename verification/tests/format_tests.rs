//! Scanner and envelope behaviour on hand-built GRIB2 byte streams.

use grib2::data::Grib2;
use grib2::error::{GribError, ParseError};
use grib2::sections::SectionBody;

fn sect(num: u8, body: &[u8]) -> Vec<u8> {
    let len = (body.len() + 5) as u32;
    let mut v = Vec::new();
    v.extend_from_slice(&len.to_be_bytes());
    v.push(num);
    v.extend_from_slice(body);
    v
}

fn sect1_body() -> Vec<u8> {
    // centre 74, subcentre 0, tables 2/1, significance 1, 2020-01-02 03:04:05
    let mut b = vec![0u8, 74, 0, 0, 2, 1, 1];
    b.extend_from_slice(&2020u16.to_be_bytes());
    b.extend_from_slice(&[1, 2, 3, 4, 5]);
    b.extend_from_slice(&[0, 0]);
    b
}

fn sect3_body(num_points: u32) -> Vec<u8> {
    let mut b = vec![0u8];
    b.extend_from_slice(&num_points.to_be_bytes());
    b.extend_from_slice(&[0, 0]);
    b.extend_from_slice(&0u16.to_be_bytes());
    b
}

fn sect4_body() -> Vec<u8> {
    vec![0, 0, 0, 0]
}

fn sect5_body(num_points: u32, template: u16, ref_val: f32, e: u16, d: u16, nbits: u8, vtype: u8) -> Vec<u8> {
    let mut b = Vec::new();
    b.extend_from_slice(&num_points.to_be_bytes());
    b.extend_from_slice(&template.to_be_bytes());
    b.extend_from_slice(&ref_val.to_bits().to_be_bytes());
    b.extend_from_slice(&e.to_be_bytes());
    b.extend_from_slice(&d.to_be_bytes());
    b.push(nbits);
    b.push(vtype);
    b
}

fn message(sections: &[Vec<u8>]) -> Vec<u8> {
    let inner: usize = sections.iter().map(|s| s.len()).sum();
    let total = (16 + inner + 4) as u64;
    let mut v = Vec::new();
    v.extend_from_slice(b"GRIB");
    v.extend_from_slice(&[0, 0]);
    v.push(0);
    v.push(2);
    v.extend_from_slice(&total.to_be_bytes());
    for s in sections {
        v.extend_from_slice(s);
    }
    v.extend_from_slice(b"7777");
    v
}

fn simple_message(samples: &[u8], ref_val: f32, e: u16, d: u16) -> Vec<u8> {
    let n = samples.len() as u32;
    message(&[
        sect(1, &sect1_body()),
        sect(3, &sect3_body(n)),
        sect(4, &sect4_body()),
        sect(5, &sect5_body(n, 0, ref_val, e, d, 8, 0)),
        sect(6, &[255]),
        sect(7, samples),
    ])
}

#[test]
fn scan_indexes_sections_in_order() {
    let bytes = simple_message(&[5, 0, 255], 0.0, 0, 0);
    let g = Grib2::from_bytes(bytes.clone()).unwrap();
    let nums: Vec<u8> = g.sections().iter().map(|s| s.num).collect();
    assert_eq!(nums, vec![0, 1, 3, 4, 5, 6, 7, 8]);
    assert_eq!(g.sections()[0].offset, 0);
    let last = g.sections().last().unwrap();
    assert_eq!(last.offset + last.size, bytes.len());
}

#[test]
fn missing_terminator_is_parse_error() {
    let mut bytes = simple_message(&[5], 0.0, 0, 0);
    let n = bytes.len();
    bytes[n - 1] = b'6';
    let r = Grib2::from_bytes(bytes);
    assert!(matches!(
        r,
        Err(GribError::ParseError(ParseError::MissingTerminator))
    ));
}

#[test]
fn bad_magic_rejected() {
    let mut bytes = simple_message(&[5], 0.0, 0, 0);
    bytes[0] = b'X';
    let r = Grib2::from_bytes(bytes);
    assert!(matches!(r, Err(GribError::ParseError(ParseError::NotGrib))));
}

#[test]
fn wrong_edition_rejected() {
    let mut bytes = simple_message(&[5], 0.0, 0, 0);
    bytes[7] = 1;
    let r = Grib2::from_bytes(bytes);
    assert!(matches!(
        r,
        Err(GribError::ParseError(ParseError::GribVersionMismatch(1)))
    ));
}

#[test]
fn truncated_stream_rejected() {
    let bytes = simple_message(&[5], 0.0, 0, 0);
    let cut = bytes[..bytes.len() - 6].to_vec();
    let r = Grib2::from_bytes(cut);
    assert!(matches!(
        r,
        Err(GribError::ParseError(ParseError::TotalLengthMismatch))
    ));
}

#[test]
fn empty_stream_rejected() {
    let r = Grib2::from_bytes(Vec::new());
    assert!(matches!(
        r,
        Err(GribError::ParseError(ParseError::TruncatedStream))
    ));
}

#[test]
fn section_overrunning_message_rejected() {
    let mut bytes = simple_message(&[5], 0.0, 0, 0);
    // enlarge the declared size of section 1 beyond its message
    bytes[16] = 0xff;
    let r = Grib2::from_bytes(bytes);
    assert!(matches!(
        r,
        Err(GribError::ParseError(ParseError::InvalidSectionLength))
    ));
}

#[test]
fn out_of_order_section_rejected() {
    // section 3 cannot follow the indicator directly
    let bytes = message(&[
        sect(3, &sect3_body(1)),
        sect(1, &sect1_body()),
        sect(4, &sect4_body()),
        sect(5, &sect5_body(1, 0, 0.0, 0, 0, 8, 0)),
        sect(6, &[255]),
        sect(7, &[1]),
    ]);
    let r = Grib2::from_bytes(bytes);
    assert!(matches!(
        r,
        Err(GribError::ParseError(ParseError::InvalidSectionOrder(3)))
    ));
}

#[test]
fn identification_body_is_parsed() {
    let bytes = simple_message(&[5], 0.0, 0, 0);
    let g = Grib2::from_bytes(bytes).unwrap();
    let s1 = &g.sections()[1];
    assert_eq!(s1.num, 1);
    match s1.body {
        Some(SectionBody::Identification(b)) => {
            assert_eq!(b.centre_id, 74);
            assert_eq!(b.year, 2020);
            assert_eq!(b.month, 1);
            assert_eq!(b.day, 2);
        }
        ref other => panic!("unexpected body {:?}", other),
    }
}

#[test]
fn optional_local_use_section_is_tracked() {
    let bytes = message(&[
        sect(1, &sect1_body()),
        sect(2, &[9, 9, 9]),
        sect(3, &sect3_body(1)),
        sect(4, &sect4_body()),
        sect(5, &sect5_body(1, 0, 0.0, 0, 0, 8, 0)),
        sect(6, &[255]),
        sect(7, &[1]),
    ]);
    let g = Grib2::from_bytes(bytes).unwrap();
    assert_eq!(g.submessage_count(), 1);
    let sm = g.submessages()[0];
    assert_eq!(sm.sect2, Some(2));
    assert_eq!(g.sections()[sm.sect2.unwrap()].num, 2);
}

#[test]
fn two_messages_scan_independently() {
    let mut bytes = simple_message(&[1, 2], 0.0, 0, 0);
    bytes.extend_from_slice(&simple_message(&[3], 0.0, 0, 0));
    let g = Grib2::from_bytes(bytes).unwrap();
    assert_eq!(g.submessage_count(), 2);
    let nums: Vec<u8> = g.sections().iter().map(|s| s.num).collect();
    assert_eq!(nums, vec![0, 1, 3, 4, 5, 6, 7, 8, 0, 1, 3, 4, 5, 6, 7, 8]);
}
