use egui_screensaver_matrix::png::{decode_png_flipped, flip_vertical, flipped_for_upload, image_dimensions};

/// A 1x2 RGBA PNG: a red pixel above a blue one.
const RED_OVER_BLUE: [u8; 74] = [
    137, 80, 78, 71, 13, 10, 26, 10, 0, 0, 0, 13, 73, 72, 68, 82, 0, 0, 0, 1, 0, 0, 0, 2, 8, 6,
    0, 0, 0, 153, 129, 182, 39, 0, 0, 0, 17, 73, 68, 65, 84, 120, 156, 99, 248, 207, 192, 0, 68,
    12, 255, 255, 3, 0, 17, 248, 3, 253, 117, 2, 46, 72, 0, 0, 0, 0, 73, 69, 78, 68, 174, 66,
    96, 130,
];

/// A 3x2 RGBA PNG.
const THREE_BY_TWO: [u8; 71] = [
    137, 80, 78, 71, 13, 10, 26, 10, 0, 0, 0, 13, 73, 72, 68, 82, 0, 0, 0, 3, 0, 0, 0, 2, 8, 6,
    0, 0, 0, 157, 116, 102, 26, 0, 0, 0, 14, 73, 68, 65, 84, 120, 156, 99, 96, 64, 6, 255, 145,
    0, 0, 77, 204, 11, 245, 138, 109, 137, 156, 0, 0, 0, 0, 73, 69, 78, 68, 174, 66, 96, 130,
];

#[test]
fn dimensions_of_a_png() {
    assert_eq!(image_dimensions(&THREE_BY_TWO), Ok((3, 2)));
    assert_eq!(image_dimensions(&RED_OVER_BLUE), Ok((1, 2)));
}

#[test]
fn invalid_bytes_do_not_decode() {
    let err = image_dimensions(b"not a png").unwrap_err();
    assert!(err.starts_with("failed to decode bundled PNG: "));
    match decode_png_flipped(&[]) {
        Err(message) => assert!(message.starts_with("failed to decode bundled PNG: ")),
        Ok(_) => panic!("empty bytes decoded"),
    }
}

#[test]
fn decoding_flips_rows() {
    let img = decode_png_flipped(&RED_OVER_BLUE).unwrap();
    assert_eq!((img.width, img.height), (1, 2));
    assert_eq!(img.pixels, vec![0, 0, 255, 255, 255, 0, 0, 255]);
}

#[test]
fn decoding_keeps_size() {
    let img = decode_png_flipped(&THREE_BY_TWO).unwrap();
    assert_eq!((img.width, img.height), (3, 2));
    assert_eq!(img.pixels.len(), 3 * 2 * 4);
    assert_eq!(&img.pixels[..12], &[255; 12]);
    assert_eq!(&img.pixels[12..], &[0; 12]);
}

#[test]
fn flip_reverses_rows() {
    // 2x3 image, one byte value per row.
    let mut pixels = Vec::new();
    for row in 0..3u8 {
        pixels.extend_from_slice(&[row; 8]);
    }
    let flipped = flip_vertical(2, 3, &pixels);
    let mut expected = Vec::new();
    for row in (0..3u8).rev() {
        expected.extend_from_slice(&[row; 8]);
    }
    assert_eq!(flipped, expected);
}

#[test]
fn flip_ignores_trailing_bytes_and_empty_images() {
    let pixels = vec![1, 2, 3, 4, 5, 6, 7, 8, 99];
    assert_eq!(flip_vertical(1, 2, &pixels), vec![5, 6, 7, 8, 1, 2, 3, 4]);
    assert!(flip_vertical(4, 0, &pixels).is_empty());
}

#[test]
fn packaging_keeps_size_and_flips() {
    let pixels = vec![1, 1, 1, 1, 2, 2, 2, 2, 3, 3, 3, 3, 4, 4, 4, 4, 5, 5, 5, 5, 6, 6, 6, 6];
    let img = flipped_for_upload(3, 2, &pixels);
    assert_eq!((img.width, img.height), (3, 2));
    assert_eq!(
        img.pixels,
        vec![4, 4, 4, 4, 5, 5, 5, 5, 6, 6, 6, 6, 1, 1, 1, 1, 2, 2, 2, 2, 3, 3, 3, 3]
    );
}
