use pathtracer::image::{decimal_digits, pixel_bytes, ppm_filename, ppm_header};

#[test]
fn decimal_of_single_digits() {
    assert_eq!(decimal_digits(0), b"0".to_vec());
    assert_eq!(decimal_digits(9), b"9".to_vec());
}

#[test]
fn decimal_of_longer_numbers() {
    assert_eq!(decimal_digits(10), b"10".to_vec());
    assert_eq!(decimal_digits(426), b"426".to_vec());
    assert_eq!(decimal_digits(2880), b"2880".to_vec());
    assert_eq!(decimal_digits(1000), b"1000".to_vec());
}

#[test]
fn header_of_smallest_preset() {
    assert_eq!(ppm_header(426, 240), b"P6\n426 240\n255\n".to_vec());
}

#[test]
fn header_of_full_hd() {
    assert_eq!(ppm_header(1920, 1080), b"P6\n1920 1080\n255\n".to_vec());
}

#[test]
fn filename_names_the_height() {
    assert_eq!(ppm_filename(240), b"scene_240p.ppm".to_vec());
    assert_eq!(ppm_filename(1080), b"scene_1080p.ppm".to_vec());
}

#[test]
fn pixels_flatten_in_channel_order() {
    let pixels = vec![(1u8, 2u8, 3u8), (4u8, 5u8, 6u8)];
    assert_eq!(pixel_bytes(&pixels), vec![1u8, 2, 3, 4, 5, 6]);
}

#[test]
fn no_pixels_no_bytes() {
    let pixels: Vec<(u8, u8, u8)> = Vec::new();
    assert_eq!(pixel_bytes(&pixels), Vec::<u8>::new());
}

#[test]
fn three_bytes_per_pixel() {
    let pixels = vec![(255u8, 0u8, 128u8); 7];
    let bytes = pixel_bytes(&pixels);
    assert_eq!(bytes.len(), 21);
    assert_eq!(bytes[18], 255);
    assert_eq!(bytes[19], 0);
    assert_eq!(bytes[20], 128);
}
