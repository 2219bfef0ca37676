use maco::{convert, resize_dimensions, BuildError, ConvertError, ConvertParams, Filter, GrayBuffer};

/// The gamma lookup table for a given exponent: entry `i` is
/// `(i/255)^(1/gamma) * 255`, truncated and clamped to eight bits.
fn reference_lut(gamma: f64) -> Vec<u8> {
    let mut lut = Vec::new();
    for i in 0..256usize {
        let v = (i as f64 / 255.0).powf(1.0 / gamma) * 255.0;
        let e = if v > 255.0 {
            255u8
        } else if v > 0.0 {
            v as u8
        } else {
            0u8
        };
        lut.push(e);
    }
    lut
}

/// An identity lookup table, for parameter sets whose gamma stage is
/// skipped or irrelevant.
fn identity_lut() -> Vec<u8> {
    let mut lut = Vec::new();
    for i in 0..256usize {
        lut.push(i as u8);
    }
    lut
}

fn default_params() -> ConvertParams {
    ConvertParams::builder().build(reference_lut(0.75)).unwrap()
}

fn gray(width: u32, height: u32, data: Vec<u8>) -> GrayBuffer {
    GrayBuffer::new(width, height, data).unwrap()
}

#[test]
fn resize_dimensions_x_gt_y() {
    assert_eq!(resize_dimensions(100, 100, 70, 50), (50, 50));
}

#[test]
fn resize_dimensions_y_gt_x() {
    assert_eq!(resize_dimensions(100, 100, 50, 70), (50, 50));
}

#[test]
fn resize_dimensions_0nx() {
    assert_eq!(resize_dimensions(100, 100, 0, 50), (50, 50));
}

#[test]
fn resize_dimensions_0ny() {
    assert_eq!(resize_dimensions(100, 100, 50, 0), (50, 50));
}

#[test]
fn resize_dimensions_never_zero() {
    // The non-binding axis floors to zero but is clamped to one.
    assert_eq!(resize_dimensions(1, 10000, 100, 100), (1, 100));
    assert_eq!(resize_dimensions(10000, 1, 100, 100), (100, 1));
    assert_eq!(resize_dimensions(1, 1, 1, 1), (1, 1));
}

#[test]
fn resize_dimensions_near_u32_max() {
    let big = u32::MAX;
    assert_eq!(resize_dimensions(big, big, 1000, 1000), (1000, 1000));
    assert_eq!(resize_dimensions(big, 1, big, big), (big, 1));
}

#[test]
fn convert_default_pipeline() {
    // A 2-row, 3-column gradient through the default pipeline: the source
    // is smaller than the default bounds and upscaling is off, so only the
    // contrast stretch and the gamma lookup act.
    let img = gray(3, 2, vec![1, 2, 3, 5, 6, 7]);
    let out = convert(img, &default_params()).unwrap();
    assert_eq!(out.width, 3);
    assert_eq!(out.height, 2);
    assert_eq!(out.data, vec![0, 23, 58, 148, 199, 255]);
}

#[test]
fn convert_is_deterministic() {
    let img = gray(3, 2, vec![1, 2, 3, 5, 6, 7]);
    let params = default_params();
    let a = convert(img.clone(), &params).unwrap();
    let b = convert(img, &params).unwrap();
    assert_eq!(a, b);
}

#[test]
fn convert_rejects_empty_image() {
    let img = gray(0, 5, vec![]);
    assert_eq!(convert(img, &default_params()), Err(ConvertError::EmptyImage));
    let img = gray(5, 0, vec![]);
    assert_eq!(convert(img, &default_params()), Err(ConvertError::EmptyImage));
}

#[test]
fn convert_no_upscale_keeps_dimensions() {
    let params = ConvertParams::builder()
        .width(4)
        .height(4)
        .upscale(false)
        .gamma(1000)
        .build(identity_lut())
        .unwrap();
    let out = convert(gray(2, 2, vec![10, 20, 30, 40]), &params).unwrap();
    assert_eq!(out.width, 2);
    assert_eq!(out.height, 2);
    assert_eq!(out.data.len(), 4);
}

#[test]
fn convert_upscales_when_permitted() {
    let params = ConvertParams::builder()
        .width(4)
        .height(4)
        .upscale(true)
        .gamma(1000)
        .build(identity_lut())
        .unwrap();
    let out = convert(gray(2, 2, vec![10, 20, 30, 40]), &params).unwrap();
    assert_eq!(out.width, 4);
    assert_eq!(out.height, 4);
    assert_eq!(out.data.len(), 16);
}

#[test]
fn convert_downscales_flat_image() {
    let params = ConvertParams::builder()
        .width(2)
        .height(2)
        .filter(Filter::Triangle)
        .gamma(1000)
        .build(identity_lut())
        .unwrap();
    let out = convert(gray(4, 4, vec![100; 16]), &params).unwrap();
    assert_eq!(out.width, 2);
    assert_eq!(out.height, 2);
    // A flat image stays flat under resampling, and both remaining stages
    // skip: the stretch range is degenerate and the gamma is the identity.
    assert_eq!(out.data, vec![100; 4]);
}

#[test]
fn convert_applies_lut_outside_tolerance() {
    // Black and white endpoints make the stretch a provable no-op, so the
    // all-dark table alone decides the output.
    let params = ConvertParams::builder().gamma(500).build(vec![0; 256]).unwrap();
    let out = convert(gray(2, 1, vec![0, 255]), &params).unwrap();
    assert_eq!(out.data, vec![0, 0]);
}

#[test]
fn convert_skips_gamma_within_tolerance() {
    // Same image and same all-dark table, but a gamma within a thousandth
    // of one: the lookup stage is skipped and the image passes unchanged.
    let params = ConvertParams::builder().gamma(1001).build(vec![0; 256]).unwrap();
    let out = convert(gray(2, 1, vec![0, 255]), &params).unwrap();
    assert_eq!(out.data, vec![0, 255]);
}

#[test]
fn build_rejects_large_cutoff() {
    let r = ConvertParams::builder().cutoff(50).build(identity_lut());
    assert_eq!(r.unwrap_err(), BuildError::CutoffTooLarge);
}

#[test]
fn build_rejects_zero_gamma() {
    let r = ConvertParams::builder().gamma(0).build(identity_lut());
    assert_eq!(r.unwrap_err(), BuildError::NonPositiveGamma);
    // Gamma is validated before the cutoff.
    let r = ConvertParams::builder().gamma(0).cutoff(99).build(identity_lut());
    assert_eq!(r.unwrap_err(), BuildError::NonPositiveGamma);
}

#[test]
fn build_defaults() {
    let p = default_params();
    assert_eq!(p.width, 1920);
    assert_eq!(p.height, 1920);
    assert!(!p.upscale);
    assert_eq!(p.cutoff, 1);
    assert_eq!(p.filter, Filter::CatmullRom);
    assert_eq!(p.gamma_millis, 750);
    assert_eq!(p.gamma_lut.len(), 256);
}

#[test]
fn gray_buffer_new_checks_length() {
    assert!(GrayBuffer::new(2, 3, vec![0; 6]).is_some());
    assert!(GrayBuffer::new(2, 3, vec![0; 5]).is_none());
}
