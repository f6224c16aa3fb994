use qrcode_backend::estimate::get_qr_element_size;
use qrcode_backend::gradient::add_gradient;
use qrcode_backend::logo::logo_target_size;
use qrcode_backend::raster::{Pixel, Raster};
use qrcode_backend::transparency::make_transparent;

fn px(r: u8, g: u8, b: u8, a: u8) -> Pixel {
    Pixel { r, g, b, a }
}

fn white() -> Pixel {
    px(255, 255, 255, 255)
}

fn black() -> Pixel {
    px(0, 0, 0, 255)
}

fn clear() -> Pixel {
    px(255, 255, 255, 0)
}

#[test]
fn transparency_rewrites_exactly_the_white_pixels() {
    let mut r = Raster::new(3, 2, white());
    r.put(1, 0, black());
    r.put(2, 0, px(200, 200, 200, 255));
    r.put(0, 1, px(255, 255, 255, 254));
    make_transparent(&mut r);
    assert_eq!(r.get(0, 0), clear());
    assert_eq!(r.get(1, 0), black());
    assert_eq!(r.get(2, 0), px(200, 200, 200, 255));
    assert_eq!(r.get(0, 1), px(255, 255, 255, 254));
    assert_eq!(r.get(1, 1), clear());
    assert_eq!(r.get(2, 1), clear());
}

#[test]
fn transparency_is_idempotent() {
    let mut once = Raster::new(4, 4, white());
    once.put(2, 2, black());
    once.put(3, 1, px(9, 9, 9, 9));
    let mut twice = Raster::new(4, 4, white());
    twice.put(2, 2, black());
    twice.put(3, 1, px(9, 9, 9, 9));
    make_transparent(&mut once);
    make_transparent(&mut twice);
    make_transparent(&mut twice);
    for y in 0..4 {
        for x in 0..4 {
            assert_eq!(once.get(x, y), twice.get(x, y));
        }
    }
}

#[test]
fn element_size_reads_the_first_black_run() {
    // A hand-constructed module grid: a 2-pixel quiet zone, then modules
    // 3 pixels wide; the diagonal shows white, white, then a black run of
    // exactly 3.
    let mut r = Raster::new(12, 12, white());
    for y in 2..5 {
        for x in 2..5 {
            r.put(x, y, black());
        }
    }
    assert_eq!(get_qr_element_size(&r), 3);
}

#[test]
fn element_size_defaults_to_one_without_a_diagonal_run() {
    let all_white = Raster::new(9, 9, white());
    assert_eq!(get_qr_element_size(&all_white), 1);
    // A run that reaches the far corner of the raster also falls back to 1.
    let all_black = Raster::new(9, 9, black());
    assert_eq!(get_qr_element_size(&all_black), 1);
}

#[test]
fn logo_size_is_maximal_under_the_bound() {
    // element 1, image 16: bound is 5, sizes go 1, 3, 5; 7 would not fit.
    assert_eq!(logo_target_size(1, 16), 5);
    let l = logo_target_size(1, 16);
    assert!(l <= 5 * 16 / 16);
    assert!(5 * 16 / 16 < l + 2);
    // element 4, image 1024: bound is 320, sizes go 4, 12, ..., 316.
    assert_eq!(logo_target_size(4, 1024), 316);
    // when even one growth step does not fit, a single module stays.
    assert_eq!(logo_target_size(1, 3), 1);
}

#[test]
fn gradient_recolors_black_and_keeps_the_rest() {
    let mut r = Raster::new(4, 4, white());
    r.put(2, 2, black());  // the center: distance 0, the first stop
    r.put(0, 0, black());  // distance 4 >= side, clamps to the last stop
    r.put(1, 2, px(7, 7, 7, 7));
    add_gradient(&mut r);
    assert_eq!(r.get(2, 2), px(100, 0, 100, 255));
    assert_eq!(r.get(0, 0), px(30, 5, 60, 255));
    assert_eq!(r.get(1, 2), px(7, 7, 7, 7));
    assert_eq!(r.get(0, 1), white());
    // every pixel that was black is now opaque and no longer pure black
    for &(x, y) in [(2usize, 2usize), (0, 0)].iter() {
        let p = r.get(x, y);
        assert_eq!(p.a, 255);
        assert_ne!(p, black());
    }
}

#[test]
fn gradient_interior_sample_is_interpolated() {
    // A black pixel at Manhattan distance 3 of an 8-sided image samples
    // the gradient at 3/8: channels round(100 - 70 * 3/8) = 74,
    // round(5 * 3/8) = 2, round(100 - 40 * 3/8) = 85.
    let mut r = Raster::new(8, 8, white());
    r.put(4, 7, black());
    add_gradient(&mut r);
    assert_eq!(r.get(4, 7), px(74, 2, 85, 255));
}
