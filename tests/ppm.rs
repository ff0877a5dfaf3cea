use raytracer::ppm::{header, pixel_line, push_decimal, Rgb};

fn text(bytes: Vec<u8>) -> String {
    String::from_utf8(bytes).unwrap()
}

#[test]
fn header_names_size_and_maximum() {
    assert_eq!(text(header(100, 56)), "P3\n100 56\n255\n");
}

#[test]
fn header_of_large_image() {
    assert_eq!(text(header(1200, 675)), "P3\n1200 675\n255\n");
}

#[test]
fn header_of_empty_image() {
    assert_eq!(text(header(0, 0)), "P3\n0 0\n255\n");
}

#[test]
fn white_pixel_line() {
    let white = Rgb { r: 255, g: 255, b: 255 };
    assert_eq!(text(pixel_line(white)), "255 255 255\n");
}

#[test]
fn black_pixel_line() {
    let black = Rgb { r: 0, g: 0, b: 0 };
    assert_eq!(text(pixel_line(black)), "0 0 0\n");
}

#[test]
fn mixed_pixel_line() {
    let c = Rgb { r: 7, g: 42, b: 190 };
    assert_eq!(text(pixel_line(c)), "7 42 190\n");
}

#[test]
fn decimal_appends_after_existing_bytes() {
    let mut out: Vec<u8> = b"x=".to_vec();
    push_decimal(&mut out, 4294967295);
    assert_eq!(text(out), "x=4294967295");
}

#[test]
fn decimal_of_zero_and_ten() {
    let mut out: Vec<u8> = Vec::new();
    push_decimal(&mut out, 0);
    push_decimal(&mut out, 10);
    assert_eq!(text(out), "010");
}
