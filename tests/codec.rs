use krab3ds::audio::{center_biased_samples, sample_from_le_bytes, to_samples16};
use krab3ds::error::DecodeWarning;
use krab3ds::pixel::{pack_pixel, rotate_270, u8_to_u32};

#[test]
fn rotate_270_small_raster() {
    // 3 wide, 2 tall:
    // 1 2 3
    // 4 5 6
    let src = vec![1u32, 2, 3, 4, 5, 6];
    let out = rotate_270(&src, 3, 2);
    // 2 wide, 3 tall:
    // 3 6
    // 2 5
    // 1 4
    assert_eq!(out, vec![3, 6, 2, 5, 1, 4]);
}

#[test]
fn rotate_270_places_each_pixel() {
    let (w, h) = (4usize, 3usize);
    let src: Vec<u32> = (0..(w * h) as u32).collect();
    let out = rotate_270(&src, w, h);
    assert_eq!(out.len(), w * h);
    for y in 0..h {
        for x in 0..w {
            assert_eq!(out[y + (w - 1 - x) * h], src[x + y * w]);
        }
    }
}

#[test]
fn rotate_270_four_times_is_identity() {
    let (w, h) = (5usize, 2usize);
    let src: Vec<u32> = (100..100 + (w * h) as u32).collect();
    let once = rotate_270(&src, w, h);
    assert_ne!(once, src);
    let twice = rotate_270(&once, h, w);
    let thrice = rotate_270(&twice, w, h);
    let four = rotate_270(&thrice, h, w);
    assert_eq!(four, src);
}

#[test]
fn rotate_270_empty_raster() {
    assert_eq!(rotate_270(&[], 0, 7), Vec::<u32>::new());
}

#[test]
fn to_pixels_single_triplet() {
    let (pixels, warning) = u8_to_u32(&[10, 20, 30]);
    assert_eq!(pixels, vec![0xFF0A141E]);
    assert_eq!(pixels[0] >> 24, 0xFF);
    assert_eq!((pixels[0] >> 16) & 0xFF, 10);
    assert_eq!((pixels[0] >> 8) & 0xFF, 20);
    assert_eq!(pixels[0] & 0xFF, 30);
    assert_eq!(warning, None);
}

#[test]
fn to_pixels_drops_incomplete_group() {
    let (pixels, warning) = u8_to_u32(&[10, 20, 30, 40, 50]);
    assert_eq!(pixels, vec![0xFF0A141E]);
    assert_eq!(warning, Some(DecodeWarning::IncompletePixel { dropped: 2 }));
    let (pixels, warning) = u8_to_u32(&[7]);
    assert!(pixels.is_empty());
    assert_eq!(warning, Some(DecodeWarning::IncompletePixel { dropped: 1 }));
}

#[test]
fn to_pixels_empty() {
    assert_eq!(u8_to_u32(&[]), (vec![], None));
}

#[test]
fn pack_pixel_extremes() {
    assert_eq!(pack_pixel(0, 0, 0), 0xFF00_0000);
    assert_eq!(pack_pixel(255, 255, 255), 0xFFFF_FFFF);
    assert_eq!(pack_pixel(0x12, 0x34, 0x56), 0xFF12_3456);
}

#[test]
fn to_samples16_little_endian() {
    let (samples, warning) = to_samples16(&[0x01, 0x02]);
    assert_eq!(samples, vec![0x0201]);
    assert_eq!(warning, None);
}

#[test]
fn to_samples16_signed_values() {
    let (samples, _) = to_samples16(&[0xFF, 0xFF, 0x00, 0x80, 0xFF, 0x7F]);
    assert_eq!(samples, vec![-1, i16::MIN, i16::MAX]);
    assert_eq!(sample_from_le_bytes(0x34, 0x12), 0x1234);
}

#[test]
fn to_samples16_truncates_odd_input() {
    let (samples, warning) = to_samples16(&[0x01, 0x02, 0x03]);
    assert_eq!(samples, vec![0x0201]);
    assert_eq!(warning, Some(DecodeWarning::IncompleteSample));
}

#[test]
fn biased_samples_are_centred() {
    assert_eq!(center_biased_samples(&[0, 128, 255, 64]), vec![-128, 0, 127, -64]);
}
