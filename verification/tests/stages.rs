use maco::contrast::{percentile, stretch_contrast};
use maco::gamma::apply_lut;

#[test]
fn percentile_of_gradient() {
    let data = vec![1u8, 2, 3, 5, 6, 7];
    assert_eq!(percentile(&data, 0), 0);
    assert_eq!(percentile(&data, 1), 1);
    assert_eq!(percentile(&data, 50), 3);
    assert_eq!(percentile(&data, 99), 7);
    assert_eq!(percentile(&data, 100), 7);
}

#[test]
fn percentile_of_empty_buffer() {
    assert_eq!(percentile(&vec![], 50), 0);
}

#[test]
fn stretch_remaps_range() {
    let mut data = vec![0u8, 1, 2, 3, 5, 6, 7, 255];
    stretch_contrast(&mut data, 1, 7);
    assert_eq!(data, vec![0, 0, 42, 85, 170, 212, 255, 255]);
}

#[test]
fn stretch_full_range_is_identity() {
    let mut data = vec![0u8, 7, 80, 200, 255];
    stretch_contrast(&mut data, 0, 255);
    assert_eq!(data, vec![0, 7, 80, 200, 255]);
}

#[test]
fn stretch_degenerate_range_is_identity() {
    let mut data = vec![0u8, 7, 80, 200, 255];
    stretch_contrast(&mut data, 5, 5);
    assert_eq!(data, vec![0, 7, 80, 200, 255]);
    stretch_contrast(&mut data, 7, 1);
    assert_eq!(data, vec![0, 7, 80, 200, 255]);
}

#[test]
fn apply_lut_replaces_samples() {
    let mut lut = Vec::new();
    for i in 0..256usize {
        lut.push(255 - i as u8);
    }
    let mut data = vec![0u8, 128, 255];
    apply_lut(&mut data, &lut);
    assert_eq!(data, vec![255, 127, 0]);
}
