use media_engine::error::{MediaError, ShapeFault};
use media_engine::image::{pack_rows, rgb_from_decoded, rows_fit, RgbImage};

#[test]
fn padding_behind_rows_is_left_out() {
    let raw: Vec<u8> = (0..16).collect();
    assert!(rows_fit(16, 8, 2, 2));
    assert_eq!(pack_rows(&raw, 8, 2, 2), vec![0, 1, 2, 3, 4, 5, 8, 9, 10, 11, 12, 13]);
}

#[test]
fn last_row_needs_no_padding() {
    let raw: Vec<u8> = (0..14).collect();
    assert!(rows_fit(14, 8, 2, 2));
    assert!(!rows_fit(13, 8, 2, 2));
    assert_eq!(pack_rows(&raw, 8, 2, 2), vec![0, 1, 2, 3, 4, 5, 8, 9, 10, 11, 12, 13]);
}

#[test]
fn tight_rows_stay_as_they_are() {
    let raw: Vec<u8> = (0..20).collect();
    assert_eq!(pack_rows(&raw, 6, 2, 3), (0..18).collect::<Vec<u8>>());
}

#[test]
fn every_pixel_keeps_its_place() {
    let (width, height, stride) = (5u32, 4u32, 32usize);
    let raw: Vec<u8> = (0..stride * 4).map(|i| (i % 251) as u8).collect();
    let packed = pack_rows(&raw, stride, width, height);
    assert_eq!(packed.len(), 60);
    for y in 0..4usize {
        for x in 0..15usize {
            assert_eq!(packed[y * 15 + x], raw[y * stride + x]);
        }
    }
}

#[test]
fn empty_pictures_are_empty() {
    assert!(rows_fit(0, 8, 2, 0));
    assert_eq!(pack_rows(&[], 8, 2, 0), Vec::<u8>::new());
    assert!(rows_fit(0, 0, 0, 5));
    assert!(!rows_fit(0, 1, 0, 5));
    assert_eq!(pack_rows(&[], 0, 0, 5), Vec::<u8>::new());
}

#[test]
fn pictures_that_no_vector_holds_do_not_fit() {
    assert!(!rows_fit(usize::MAX, 0, u32::MAX, u32::MAX));
    assert!(!rows_fit(usize::MAX, usize::MAX, 1, 3));
}

#[test]
fn decoded_picture_becomes_an_array() {
    let raw: Vec<u8> = (0..16).collect();
    let image = rgb_from_decoded(&raw, 8, 2, 2).unwrap();
    assert_eq!(image.shape(), (2, 2, 3));
    assert_eq!(image.into_pixels(), vec![0, 1, 2, 3, 4, 5, 8, 9, 10, 11, 12, 13]);
}

#[test]
fn height_comes_before_width() {
    let image = RgbImage::from_pixels((0..18).collect(), 3, 2).unwrap();
    assert_eq!(image.shape(), (2, 3, 3));
    assert_eq!(image.into_pixels(), (0..18).collect::<Vec<u8>>());
}

#[test]
fn too_few_pixels_are_refused() {
    let r = RgbImage::from_pixels(vec![0; 11], 2, 2);
    assert!(matches!(r, Err(MediaError::Array(ShapeFault::OutOfBounds))));
}

#[test]
fn too_many_pixels_are_refused() {
    let r = RgbImage::from_pixels(vec![0; 13], 2, 2);
    assert!(matches!(r, Err(MediaError::Array(ShapeFault::IncompatibleShape))));
}

#[test]
fn shapes_beyond_all_memory_are_refused() {
    let r = RgbImage::from_pixels(vec![0; 12], u32::MAX, u32::MAX);
    assert!(matches!(r, Err(MediaError::Array(ShapeFault::Overflow))));
}

#[test]
fn picture_without_pixels_is_a_picture() {
    let image = RgbImage::from_pixels(Vec::new(), 0, 7).unwrap();
    assert_eq!(image.shape(), (7, 0, 3));
    assert_eq!(image.into_pixels(), Vec::<u8>::new());
}

#[test]
fn fault_texts_are_those_of_the_array_library() {
    let faults = [
        (ShapeFault::Overflow, numpy::ndarray::ErrorKind::Overflow),
        (ShapeFault::OutOfBounds, numpy::ndarray::ErrorKind::OutOfBounds),
        (ShapeFault::IncompatibleShape, numpy::ndarray::ErrorKind::IncompatibleShape),
    ];
    for (fault, kind) in faults {
        assert_eq!(fault.describe(), numpy::ndarray::ShapeError::from_kind(kind).to_string());
    }
}

#[test]
fn packed_bytes_are_the_bytes_of_the_picture() {
    let raw: Vec<u8> = (0..200).collect();
    for (stride, width, height) in [(8, 2, 2), (32, 5, 4), (3, 1, 9), (0, 0, 3), (7, 2, 0)] {
        let packed = pack_rows(&raw, stride, width, height);
        let image = rgb_from_decoded(&raw, stride, width, height).unwrap();
        assert_eq!(image.shape(), (height as usize, width as usize, 3));
        assert_eq!(image.into_pixels(), packed);
    }
}
