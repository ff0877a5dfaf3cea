use raytracer::scan::{Pixel, Scan};

fn all_pixels(width: u32, height: u32) -> Vec<(u32, u32)> {
    let mut scan = Scan::new(width, height);
    let mut out = Vec::new();
    while let Some(Pixel { i, j }) = scan.next_pixel() {
        out.push((i, j));
    }
    out
}

#[test]
fn rows_from_top_left_to_right() {
    assert_eq!(
        all_pixels(3, 2),
        vec![(0, 0), (1, 0), (2, 0), (0, 1), (1, 1), (2, 1)]
    );
}

#[test]
fn single_column() {
    assert_eq!(all_pixels(1, 3), vec![(0, 0), (0, 1), (0, 2)]);
}

#[test]
fn zero_width_has_no_pixels() {
    assert!(all_pixels(0, 5).is_empty());
}

#[test]
fn zero_height_has_no_pixels() {
    assert!(all_pixels(4, 0).is_empty());
}

#[test]
fn scan_stays_finished() {
    let mut scan = Scan::new(1, 1);
    assert_eq!(scan.next_pixel(), Some(Pixel { i: 0, j: 0 }));
    assert_eq!(scan.next_pixel(), None);
    assert_eq!(scan.next_pixel(), None);
}

#[test]
fn every_pixel_once() {
    let pixels = all_pixels(16, 9);
    assert_eq!(pixels.len(), 144);
    assert_eq!(pixels[17], (1, 1));
    assert_eq!(pixels[143], (15, 8));
}
