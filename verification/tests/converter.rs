use mdrs::Dimensions;
use mdrs::convert::ColorSpace;
use mdrs::convert::ConvertError;
use mdrs::convert::PixelFormat;
use mdrs::convert::RawFrame;
use mdrs::convert::compute_plan;
use mdrs::convert::convert;

fn bgra_frame(width: u32, height: u32, data: Vec<u8>) -> RawFrame {
    RawFrame {
        dims: Dimensions { width, height },
        pixel_format: PixelFormat::Bgra,
        color_space: ColorSpace::Rgb,
        data,
    }
}

#[test]
fn plan_exact_sizes() {
    let p = compute_plan(Dimensions { width: 800, height: 600 });
    assert_eq!(p.y_size, 480000);
    assert_eq!(p.chroma_size, 120000);
}

#[test]
fn plan_rounds_odd_dimensions_up() {
    let p = compute_plan(Dimensions { width: 5, height: 3 });
    assert_eq!(p.y_size, 15);
    assert_eq!(p.chroma_size, 6);
}

#[test]
fn plan_zero_dimension() {
    let p = compute_plan(Dimensions { width: 0, height: 10 });
    assert_eq!(p.y_size, 0);
    assert_eq!(p.chroma_size, 0);
}

#[test]
fn convert_matching_frame_fills_plan() {
    let f = bgra_frame(2, 2, vec![0u8; 16]);
    let cf = convert(&f).unwrap();
    assert_eq!(cf.y.len(), 4);
    assert_eq!(cf.u.len(), 1);
    assert_eq!(cf.v.len(), 1);
    assert_eq!(cf.dims, Dimensions { width: 2, height: 2 });
}

#[test]
fn convert_odd_dimensions() {
    let f = bgra_frame(3, 3, vec![0u8; 36]);
    let cf = convert(&f).unwrap();
    assert_eq!(cf.y.len(), 9);
    assert_eq!(cf.u.len(), 4);
    assert_eq!(cf.v.len(), 4);
}

#[test]
fn convert_black_pixels_to_studio_swing() {
    // BT.601 studio swing: black maps to luma 16 and centred chroma 128.
    let f = bgra_frame(2, 2, vec![0u8; 16]);
    let cf = convert(&f).unwrap();
    assert_eq!(cf.y, vec![16u8; 4]);
    assert_eq!(cf.u, vec![128u8]);
    assert_eq!(cf.v, vec![128u8]);
}

#[test]
fn convert_is_pure() {
    let mut data = Vec::new();
    for i in 0..16u8 {
        data.push(i.wrapping_mul(37));
    }
    let f1 = bgra_frame(2, 2, data.clone());
    let f2 = bgra_frame(2, 2, data);
    let a = convert(&f1).unwrap();
    let b = convert(&f2).unwrap();
    assert_eq!(a.y, b.y);
    assert_eq!(a.u, b.u);
    assert_eq!(a.v, b.v);
}

#[test]
fn convert_short_buffer_is_size_mismatch() {
    let f = bgra_frame(2, 2, vec![0u8; 15]);
    assert_eq!(convert(&f).err(), Some(ConvertError::SizeMismatch));
}

#[test]
fn convert_wrong_format_is_unsupported() {
    let f = RawFrame {
        dims: Dimensions { width: 2, height: 2 },
        pixel_format: PixelFormat::I420,
        color_space: ColorSpace::Bt601,
        data: vec![0u8; 16],
    };
    assert_eq!(convert(&f).err(), Some(ConvertError::UnsupportedFormat));
}

#[test]
fn convert_zero_dimension_frame() {
    let f = bgra_frame(0, 4, Vec::new());
    let cf = convert(&f).unwrap();
    assert_eq!(cf.y.len(), 0);
    assert_eq!(cf.u.len(), 0);
    assert_eq!(cf.v.len(), 0);
}

#[test]
fn contiguous_buffer_concatenates_planes() {
    let f = bgra_frame(2, 2, vec![0u8; 16]);
    let cf = convert(&f).unwrap();
    let data = cf.into_contiguous();
    assert_eq!(data.len(), 6);
    assert_eq!(data, vec![16, 16, 16, 16, 128, 128]);
}
