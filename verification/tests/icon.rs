use sands::icon::{icon_from_image, load_icon, IconError};

fn png(width: u32, height: u32) -> Vec<u8> {
    let image = image::RgbaImage::from_fn(width, height, |x, y| image::Rgba([x as u8, y as u8, 30, 255]));
    let mut bytes = std::io::Cursor::new(Vec::new());
    image.write_to(&mut bytes, image::ImageFormat::Png).unwrap();
    bytes.into_inner()
}

#[test]
fn icon_from_valid_png() {
    let image = load_icon(&png(3, 2)).unwrap();
    assert_eq!(image.dimensions(), (3, 2));
    let pixels = image.pixels();
    assert_eq!(pixels.len(), 4 * 3 * 2);
    // row by row: pixel (x = 2, y = 1) is the sixth
    assert_eq!(&pixels[20..24], &[2, 1, 30, 255]);
    assert!(image.into_icon().is_ok());
}

#[test]
fn icon_from_garbage_fails_to_decode() {
    assert!(matches!(load_icon(b"not an image at all"), Err(IconError::Decode(_))));
    assert!(matches!(load_icon(&[]), Err(IconError::Decode(_))));
}

#[test]
fn icon_from_raw_pixels() {
    let image = icon_from_image(vec![1, 2, 3, 4, 5, 6, 7, 8], 2, 1).unwrap();
    assert_eq!(image.dimensions(), (2, 1));
    assert_eq!(image.pixels(), &vec![1, 2, 3, 4, 5, 6, 7, 8]);
    assert!(image.into_icon().is_ok());
    let empty = icon_from_image(vec![], 0, 0).unwrap();
    assert_eq!(empty.dimensions(), (0, 0));
    assert!(empty.into_icon().is_ok());
}

#[test]
fn icon_byte_count_not_divisible_by_4() {
    match icon_from_image(vec![0; 5], 1, 1) {
        Err(IconError::ByteCountNotDivisibleBy4 { byte_count }) => assert_eq!(byte_count, 5),
        other => panic!("unexpected {:?}", other.err()),
    }
}

#[test]
fn icon_dimensions_vs_pixel_count() {
    match icon_from_image(vec![0; 8], 3, 1) {
        Err(IconError::DimensionsVsPixelCount { width, height, width_x_height, pixel_count }) => {
            assert_eq!((width, height, width_x_height, pixel_count), (3, 1, 3, 2));
        }
        other => panic!("unexpected {:?}", other.err()),
    }
}

#[test]
fn icon_too_large() {
    match icon_from_image(vec![0; 4], 65536, 65536) {
        Err(IconError::TooLarge { width, height }) => assert_eq!((width, height), (65536, 65536)),
        other => panic!("unexpected {:?}", other.err()),
    }
}
