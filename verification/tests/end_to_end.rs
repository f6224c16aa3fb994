use qrcode_backend::estimate::get_qr_element_size;
use qrcode_backend::logo::logo_target_size;
use qrcode_backend::pipeline::{generate, qrcode_impl, GenError, Options, QrResult};
use qrcode_backend::raster::{Pixel, Raster};

const SIZE: usize = 1024;

fn opts(add_logo: bool, add_gradient: bool, add_transparency: Option<bool>) -> Options {
    Options { add_logo, add_gradient, add_transparency }
}

fn square_logo_png(side: u32, rgba: [u8; 4]) -> Vec<u8> {
    let img = image::RgbaImage::from_pixel(side, side, image::Rgba(rgba));
    let mut bytes: Vec<u8> = Vec::new();
    image::DynamicImage::ImageRgba8(img)
        .write_to(&mut std::io::Cursor::new(&mut bytes), image::ImageOutputFormat::Png)
        .unwrap();
    bytes
}

fn decode(blob: &[u8]) -> image::RgbaImage {
    image::load_from_memory(blob).unwrap().to_rgba8()
}

fn as_raster(img: &image::RgbaImage) -> Raster {
    let pixels = img
        .pixels()
        .map(|p| Pixel { r: p.0[0], g: p.0[1], b: p.0[2], a: p.0[3] })
        .collect();
    Raster { width: img.width() as usize, height: img.height() as usize, pixels }
}

#[test]
fn plain_generate_yields_black_and_white_png_of_the_configured_size() {
    let logo = square_logo_png(8, [10, 20, 30, 255]);
    let blob = generate("HELLO".to_string(), opts(false, false, Some(false)), &logo, SIZE)
        .unwrap();
    let img = decode(&blob);
    assert_eq!(img.width(), SIZE as u32);
    assert_eq!(img.height(), SIZE as u32);
    let mut blacks: usize = 0;
    let mut whites: usize = 0;
    for p in img.pixels() {
        match p.0 {
            [0, 0, 0, 255] => blacks += 1,
            [255, 255, 255, 255] => whites += 1,
            other => panic!("unexpected pixel {:?}", other),
        }
    }
    assert!(blacks > 0);
    assert!(whites > 0);
}

#[test]
fn transparency_variant_has_no_opaque_white_left() {
    let logo = square_logo_png(8, [10, 20, 30, 255]);
    let blob = generate("HELLO".to_string(), opts(false, false, Some(true)), &logo, 512).unwrap();
    let img = decode(&blob);
    let mut clear: usize = 0;
    for p in img.pixels() {
        match p.0 {
            [0, 0, 0, 255] => (),
            [255, 255, 255, 0] => clear += 1,
            other => panic!("unexpected pixel {:?}", other),
        }
    }
    assert!(clear > 0);
}

#[test]
fn logo_overlay_is_centered_and_bounded() {
    let logo = square_logo_png(64, [10, 20, 30, 255]);
    let plain = decode(&generate("HELLO".to_string(), opts(false, false, None), &logo, SIZE)
        .unwrap());
    let with_logo = decode(&generate("HELLO".to_string(), opts(true, false, None), &logo, SIZE)
        .unwrap());
    let element = get_qr_element_size(&as_raster(&plain));
    let logo_side = logo_target_size(element, SIZE);
    // the covered square stays within 5/16 of the image side, hence well
    // under 5/16 of the image area
    assert!(logo_side <= 5 * SIZE / 16);
    assert!(16 * logo_side * logo_side <= 5 * SIZE * SIZE);
    let offset = (SIZE - logo_side) / 2;
    let mut differing: usize = 0;
    for y in 0..SIZE {
        for x in 0..SIZE {
            if plain.get_pixel(x as u32, y as u32) != with_logo.get_pixel(x as u32, y as u32) {
                differing += 1;
                assert!(offset <= x && x < offset + logo_side, "x {} outside the logo box", x);
                assert!(offset <= y && y < offset + logo_side, "y {} outside the logo box", y);
            }
        }
    }
    assert!(differing > 0);
}

#[test]
fn gradient_variant_leaves_no_pure_black() {
    let logo = square_logo_png(8, [10, 20, 30, 255]);
    let blob = generate("HELLO".to_string(), opts(false, true, Some(false)), &logo, 512).unwrap();
    let img = decode(&blob);
    let mut recolored: usize = 0;
    for p in img.pixels() {
        assert_ne!(p.0, [0, 0, 0, 255]);
        assert_eq!(p.0[3], 255);
        if p.0 != [255, 255, 255, 255] {
            recolored += 1;
            assert!(30 <= p.0[0] && p.0[0] <= 100);
        }
    }
    assert!(recolored > 0);
}

#[test]
fn too_small_a_size_is_a_render_error() {
    let logo = square_logo_png(8, [10, 20, 30, 255]);
    let r = generate("HELLO".to_string(), opts(false, false, None), &logo, 10);
    assert!(matches!(r, Err(GenError::Render)));
}

#[test]
fn too_long_an_input_is_a_render_error() {
    let logo = square_logo_png(8, [10, 20, 30, 255]);
    let text: String = std::iter::repeat('q').take(5000).collect();
    let r = generate(text, opts(false, false, None), &logo, SIZE);
    assert!(matches!(r, Err(GenError::Render)));
}

#[test]
fn unreadable_logo_bytes_are_a_logo_decode_error() {
    let r = generate("HELLO".to_string(), opts(true, false, None), &[1, 2, 3, 4], SIZE);
    assert!(matches!(r, Err(GenError::LogoDecode)));
    let msg = GenError::LogoDecode.message();
    assert_eq!(msg, "the supplied logo is not a valid image");
}

#[test]
fn qrcode_impl_picks_the_logo_variant_by_transparency() {
    let red = square_logo_png(64, [200, 0, 0, 255]);
    let blue = square_logo_png(64, [0, 0, 200, 255]);
    let with_clear = qrcode_impl(
        "HELLO".to_string(),
        opts(true, false, Some(true)),
        &red,
        &blue,
        SIZE,
    );
    let with_white = qrcode_impl("HELLO".to_string(), opts(true, false, None), &red, &blue, SIZE);
    let center = (SIZE / 2) as u32;
    match (with_clear, with_white) {
        (QrResult::Image(a), QrResult::Image(b)) => {
            let pa = *decode(&a).get_pixel(center, center);
            let pb = *decode(&b).get_pixel(center, center);
            assert!(pa.0[0] > 100 && pa.0[2] < 100, "transparent variant should be red");
            assert!(pb.0[2] > 100 && pb.0[0] < 100, "white variant should be blue");
        },
        _ => panic!("expected two images"),
    }
}

#[test]
fn qrcode_impl_reports_a_structured_failure() {
    let r = qrcode_impl("HELLO".to_string(), opts(false, false, None), &[], &[], 10);
    match r {
        QrResult::Failed(e) => {
            assert_eq!(
                e.message,
                "the renderer could not encode the input at the requested size"
            );
        },
        QrResult::Image(_) => panic!("a 10-pixel canvas cannot hold the code"),
    }
}
