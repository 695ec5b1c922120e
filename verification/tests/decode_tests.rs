//! Decoding behaviour: simple packing, the codestream path, the error
//! taxonomy, and the affine rescale parameters.

use grib2::data::Grib2;
use grib2::decode::{finish_codestream, value_for_discard_level, DecodeOutcome, RawField, SimplePackingParams};
use grib2::error::{DecodeError, GribError, Jpeg2000CodeStreamDecodeError, SimplePackingDecodeError};
use grib2::wire::grib_int16;

fn sect(num: u8, body: &[u8]) -> Vec<u8> {
    let len = (body.len() + 5) as u32;
    let mut v = Vec::new();
    v.extend_from_slice(&len.to_be_bytes());
    v.push(num);
    v.extend_from_slice(body);
    v
}

fn sect1_body() -> Vec<u8> {
    vec![0u8; 16]
}

fn sect3_body(num_points: u32) -> Vec<u8> {
    let mut b = vec![0u8];
    b.extend_from_slice(&num_points.to_be_bytes());
    b.extend_from_slice(&[0, 0]);
    b.extend_from_slice(&0u16.to_be_bytes());
    b
}

fn sect4_body() -> Vec<u8> {
    vec![0, 0, 0, 0]
}

fn sect5_body(num_points: u32, template: u16, ref_val: f32, e: u16, d: u16, nbits: u8, vtype: u8) -> Vec<u8> {
    let mut b = Vec::new();
    b.extend_from_slice(&num_points.to_be_bytes());
    b.extend_from_slice(&template.to_be_bytes());
    b.extend_from_slice(&ref_val.to_bits().to_be_bytes());
    b.extend_from_slice(&e.to_be_bytes());
    b.extend_from_slice(&d.to_be_bytes());
    b.push(nbits);
    b.push(vtype);
    b
}

fn message(sections: &[Vec<u8>]) -> Vec<u8> {
    let inner: usize = sections.iter().map(|s| s.len()).sum();
    let total = (16 + inner + 4) as u64;
    let mut v = Vec::new();
    v.extend_from_slice(b"GRIB");
    v.extend_from_slice(&[0, 0]);
    v.push(0);
    v.push(2);
    v.extend_from_slice(&total.to_be_bytes());
    for s in sections {
        v.extend_from_slice(s);
    }
    v.extend_from_slice(b"7777");
    v
}

fn field_message(num_points: u32, template: u16, ref_val: f32, e: u16, d: u16, nbits: u8, vtype: u8, bitmap: u8, payload: &[u8]) -> Vec<u8> {
    message(&[
        sect(1, &sect1_body()),
        sect(3, &sect3_body(num_points)),
        sect(4, &sect4_body()),
        sect(5, &sect5_body(num_points, template, ref_val, e, d, nbits, vtype)),
        sect(6, &[bitmap]),
        sect(7, payload),
    ])
}

fn rescale(f: &RawField) -> Vec<f32> {
    let r = f32::from_bits(f.params.ref_val_bits);
    let e = 2f32.powi(f.params.binary_scale as i32);
    let d = 10f32.powi(-(f.params.decimal_scale as i32));
    f.samples.iter().map(|x| (r + *x as f32 * e) * d).collect()
}

fn unpacked(bytes: Vec<u8>, i: usize) -> RawField {
    let g = Grib2::from_bytes(bytes).unwrap();
    match g.decode_submessage(i).unwrap() {
        DecodeOutcome::Unpacked(f) => f,
        other => panic!("expected unpacked samples, got {:?}", other),
    }
}

#[test]
fn simple_packing_returns_declared_count() {
    let f = unpacked(field_message(3, 0, 0.0, 0, 0, 8, 0, 255, &[5, 0, 255]), 0);
    assert_eq!(f.samples, vec![5, 0, 255]);
    assert_eq!(f.samples.len(), f.params.num_points as usize);
}

#[test]
fn rescale_identity_parameters() {
    // R = 0, E = 0, D = 0, X = 5 decodes to 5.0
    let f = unpacked(field_message(1, 0, 0.0, 0, 0, 8, 0, 255, &[5]), 0);
    let y = rescale(&f);
    assert_eq!(y, vec![5.0]);
}

#[test]
fn rescale_scaled_parameters() {
    // R = 10, E = 1, D = 1, X = 3 decodes to (10 + 3 * 2) * 0.1 = 1.6
    let f = unpacked(field_message(1, 0, 10.0, 1, 1, 8, 0, 255, &[3]), 0);
    assert_eq!(f.params.binary_scale, 1);
    assert_eq!(f.params.decimal_scale, 1);
    assert_eq!(f32::from_bits(f.params.ref_val_bits), 10.0);
    let y = rescale(&f);
    assert!((y[0] - 1.6).abs() < 1e-6);
}

#[test]
fn negative_scales_decode_sign_magnitude() {
    // E = -1 and D = -1 are carried sign-and-magnitude: 0x8001
    let f = unpacked(field_message(1, 0, 0.0, 0x8001, 0x8001, 8, 0, 255, &[4]), 0);
    assert_eq!(f.params.binary_scale, -1);
    assert_eq!(f.params.decimal_scale, -1);
    let y = rescale(&f);
    // (0 + 4 * 2^-1) * 10^1 = 20
    assert!((y[0] - 20.0).abs() < 1e-6);
}

#[test]
fn grib_int16_sign_magnitude_convention() {
    assert_eq!(grib_int16(0x0001), 1);
    assert_eq!(grib_int16(0x8001), -1);
    assert_eq!(grib_int16(0x8000), 0);
    assert_eq!(grib_int16(0x7fff), 32767);
    assert_eq!(grib_int16(0xffff), -32767);
}

#[test]
fn decode_twice_is_bit_identical() {
    let g = Grib2::from_bytes(field_message(3, 0, 1.5, 1, 0x8002, 8, 0, 255, &[9, 8, 7])).unwrap();
    let r1 = g.decode_submessage(0).unwrap();
    let r2 = g.decode_submessage(0).unwrap();
    assert_eq!(r1, r2);
}

#[test]
fn cross_byte_bit_unpacking() {
    // two 12-bit samples packed into three bytes
    let f = unpacked(field_message(2, 0, 0.0, 0, 0, 12, 0, 255, &[0xab, 0xcd, 0xef]), 0);
    assert_eq!(f.samples, vec![0xabc, 0xdef]);
}

#[test]
fn zero_bits_per_value_gives_zero_samples() {
    let f = unpacked(field_message(2, 0, 7.0, 0, 0, 0, 0, 255, &[]), 0);
    assert_eq!(f.samples, vec![0, 0]);
    assert_eq!(rescale(&f), vec![7.0, 7.0]);
}

#[test]
fn present_bitmap_rejected_for_simple_packing() {
    let g = Grib2::from_bytes(field_message(1, 0, 0.0, 0, 0, 8, 0, 0, &[5])).unwrap();
    let r = g.decode_submessage(0);
    assert!(matches!(
        r,
        Err(GribError::DecodeError(DecodeError::BitMapIndicatorUnsupported))
    ));
}

#[test]
fn present_bitmap_rejected_for_codestream_packing() {
    let g = Grib2::from_bytes(field_message(1, 40000, 0.0, 0, 0, 8, 0, 254, &[5])).unwrap();
    let r = g.decode_submessage(0);
    assert!(matches!(
        r,
        Err(GribError::DecodeError(DecodeError::BitMapIndicatorUnsupported))
    ));
}

#[test]
fn unknown_template_not_supported() {
    let g = Grib2::from_bytes(field_message(1, 99, 0.0, 0, 0, 8, 0, 255, &[5])).unwrap();
    let r = g.decode_submessage(0);
    assert!(matches!(
        r,
        Err(GribError::DecodeError(DecodeError::TemplateNotSupported(99)))
    ));
}

#[test]
fn unsupported_original_value_type() {
    let g = Grib2::from_bytes(field_message(1, 0, 0.0, 0, 0, 8, 1, 255, &[5])).unwrap();
    let r = g.decode_submessage(0);
    assert!(matches!(
        r,
        Err(GribError::DecodeError(DecodeError::SimplePackingDecodeError(
            SimplePackingDecodeError::OriginalFieldValueTypeNotSupported
        )))
    ));
}

#[test]
fn short_payload_is_length_mismatch() {
    let g = Grib2::from_bytes(field_message(10, 0, 0.0, 0, 0, 8, 0, 255, &[1])).unwrap();
    let r = g.decode_submessage(0);
    assert!(matches!(
        r,
        Err(GribError::DecodeError(DecodeError::SimplePackingDecodeError(
            SimplePackingDecodeError::LengthMismatch
        )))
    ));
}

#[test]
fn oversized_bit_width_rejected() {
    let g = Grib2::from_bytes(field_message(1, 0, 0.0, 0, 0, 33, 0, 255, &[0; 8])).unwrap();
    let r = g.decode_submessage(0);
    assert!(matches!(
        r,
        Err(GribError::DecodeError(DecodeError::SimplePackingDecodeError(
            SimplePackingDecodeError::BitsPerValueTooLarge
        )))
    ));
}

#[test]
fn submessage_index_out_of_range() {
    let g = Grib2::from_bytes(field_message(1, 0, 0.0, 0, 0, 8, 0, 255, &[5])).unwrap();
    let r = g.decode_submessage(5);
    assert!(matches!(r, Err(GribError::IndexOutOfRange(5))));
}

#[test]
fn two_submessages_share_inherited_sections() {
    let bytes = message(&[
        sect(1, &sect1_body()),
        sect(3, &sect3_body(2)),
        sect(4, &sect4_body()),
        sect(5, &sect5_body(2, 0, 0.0, 0, 0, 8, 0)),
        sect(6, &[255]),
        sect(7, &[1, 2]),
        sect(4, &sect4_body()),
        sect(5, &sect5_body(2, 0, 0.0, 0, 0, 8, 0)),
        sect(6, &[255]),
        sect(7, &[3, 4]),
    ]);
    let g = Grib2::from_bytes(bytes).unwrap();
    assert_eq!(g.submessage_count(), 2);
    let sms = g.submessages().clone();
    assert_eq!(sms[0].sect1, sms[1].sect1);
    assert_eq!(sms[0].sect3, sms[1].sect3);
    assert_ne!(sms[0].sect7, sms[1].sect7);
    let f0 = match g.decode_submessage(0).unwrap() {
        DecodeOutcome::Unpacked(f) => f,
        other => panic!("unexpected {:?}", other),
    };
    let f1 = match g.decode_submessage(1).unwrap() {
        DecodeOutcome::Unpacked(f) => f,
        other => panic!("unexpected {:?}", other),
    };
    assert_eq!(f0.samples, vec![1, 2]);
    assert_eq!(f1.samples, vec![3, 4]);
}

#[test]
fn codestream_task_carries_payload_and_params() {
    let payload = [0xffu8, 0x4f, 0x10, 0x20, 0x30];
    let g = Grib2::from_bytes(field_message(4, 40000, 2.0, 1, 0, 8, 0, 255, &payload)).unwrap();
    match g.decode_submessage(0).unwrap() {
        DecodeOutcome::NeedsCodestream(task) => {
            assert_eq!(task.codestream, payload.to_vec());
            assert_eq!(task.params.num_points, 4);
            assert_eq!(f32::from_bits(task.params.ref_val_bits), 2.0);
            assert_eq!(task.params.binary_scale, 1);
        }
        other => panic!("unexpected {:?}", other),
    }
}

fn params(n: u32) -> SimplePackingParams {
    SimplePackingParams {
        ref_val_bits: 0,
        binary_scale: 0,
        decimal_scale: 0,
        bits_per_value: 8,
        num_points: n,
    }
}

#[test]
fn codestream_single_component_count_matches_geometry() {
    let samples = vec![1, 2, 3, 4];
    let f = finish_codestream(params(4), 1, 2, 2, 0, &samples).unwrap();
    assert_eq!(f.samples, vec![1, 2, 3, 4]);
}

#[test]
fn codestream_discard_level_adjusts_geometry() {
    // a 4 x 4 image at discard level 1 yields 2 x 2 samples
    let samples = vec![9, 9, 9, 9];
    let f = finish_codestream(params(4), 1, 4, 4, 1, &samples).unwrap();
    assert_eq!(f.samples.len(), 4);
}

#[test]
fn codestream_multi_component_not_supported() {
    let samples = vec![1, 2, 3, 4];
    let r = finish_codestream(params(4), 2, 2, 2, 0, &samples);
    assert!(matches!(
        r,
        Err(GribError::DecodeError(DecodeError::Jpeg2000CodeStreamDecodeError(
            Jpeg2000CodeStreamDecodeError::NotSupported
        )))
    ));
}

#[test]
fn codestream_geometry_mismatch_rejected() {
    let samples = vec![1, 2, 3];
    let r = finish_codestream(params(3), 1, 2, 2, 0, &samples);
    assert!(matches!(
        r,
        Err(GribError::DecodeError(DecodeError::Jpeg2000CodeStreamDecodeError(
            Jpeg2000CodeStreamDecodeError::LengthMismatch
        )))
    ));
}

#[test]
fn codestream_point_count_mismatch_rejected() {
    let samples = vec![1, 2, 3, 4];
    let r = finish_codestream(params(5), 1, 2, 2, 0, &samples);
    assert!(matches!(
        r,
        Err(GribError::DecodeError(DecodeError::SimplePackingDecodeError(
            SimplePackingDecodeError::LengthMismatch
        )))
    ));
}

#[test]
fn discard_level_rounds_up() {
    assert_eq!(value_for_discard_level(5, 1), 3);
    assert_eq!(value_for_discard_level(4, 2), 1);
    assert_eq!(value_for_discard_level(0, 3), 0);
    assert_eq!(value_for_discard_level(7, 0), 7);
}
