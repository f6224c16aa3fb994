//! The PNG encoder collaborator: a raster in, its PNG serialization out.

use vstd::prelude::*;

use crate::raster::{Pixel, Raster};

verus! {

#[verifier::external_type_specification]
#[verifier::external_body]
pub struct ExImageError(image::ImageError);

/// What the PNG encoder produces for a raster of the given dimensions and
/// pixel contents, or nothing where encoding fails.
pub uninterp spec fn png_bytes(width: nat, height: nat, pixels: Seq<Pixel>) -> Option<Seq<u8>>;

/// Relies on image's PNG encoder, reached through
/// DynamicImage::write_to: the encoded bytes are a deterministic function
/// of the dimensions and the RGBA pixel contents alone (the encoder
/// writes no timestamps). The byte buffer and the u32 dimensions the
/// encoder takes must exist, hence the size bounds.
#[verifier::external_body]
pub(crate) fn encode_png(r: &Raster) -> (res: Result<Vec<u8>, image::ImageError>)
    requires
        r.wf(),
        r.width <= u32::MAX,
        r.height <= u32::MAX,
        4 * r.width * r.height <= usize::MAX,
    ensures
        res is Ok <==> png_bytes(r.width as nat, r.height as nat, r.pixels@) is Some,
        res matches Ok(v) ==> v@ == png_bytes(r.width as nat, r.height as nat, r.pixels@).unwrap(),
{
    let mut bytes: Vec<u8> = Vec::with_capacity(r.pixels.len() * 4);
    for p in r.pixels.iter() {
        bytes.extend_from_slice(&[p.r, p.g, p.b, p.a]);
    }
    let img: image::RgbaImage =
        image::ImageBuffer::from_vec(r.width as u32, r.height as u32, bytes).unwrap();
    let mut out: Vec<u8> = Vec::new();
    image::DynamicImage::ImageRgba8(img)
        .write_to(&mut std::io::Cursor::new(&mut out), image::ImageOutputFormat::Png)?;
    Ok(out)
}

} // verus!
