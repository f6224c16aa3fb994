//! The QR renderer collaborator: text in, square black-and-white raster
//! out, at a fixed quartile (roughly 25%) error-correction level.

use vstd::prelude::*;

use crate::raster::{black, white, Pixel, Raster};

verus! {

#[verifier::external_type_specification]
#[verifier::external_body]
pub struct ExQrCodeError(qrcode_generator::QRCodeError);

/// What the renderer produces for `text` at pixel side `size`: the pixel
/// buffer of the rendered code, or nothing where the renderer rejects the
/// input (text too long for the symbol, or a size the symbol cannot fit).
pub uninterp spec fn qr_raster(text: Seq<char>, size: nat) -> Option<Seq<Pixel>>;

/// Relies on qrcode_generator::to_image_buffer: rendering is a
/// deterministic function of the text and the requested pixel size; on
/// success the buffer is size-by-size and each byte is exactly 0 or 255,
/// here widened from grayscale to opaque RGBA black or white. The
/// error-correction level is fixed at quartile. The call reports failure
/// through its result and does not panic.
#[verifier::external_body]
pub(crate) fn render_qr(text: &str, size: usize) -> (r: Result<
    Raster,
    qrcode_generator::QRCodeError,
>)
    ensures
        r is Ok <==> qr_raster(text@, size as nat) is Some,
        r matches Ok(q) ==> {
            &&& q.wf()
            &&& q.width == size
            &&& q.height == size
            &&& q.pixels@ == qr_raster(text@, size as nat).unwrap()
            &&& forall|i: int|
                0 <= i < q.pixels@.len() ==> (q.pixels@[i] == black() || q.pixels@[i] == white())
        },
{
    let buf = qrcode_generator::to_image_buffer(text, qrcode_generator::QrCodeEcc::Quartile, size)?;
    let pixels: Vec<Pixel> = buf.as_raw().iter().map(|v| Pixel { r: *v, g: *v, b: *v, a: 255 }).collect();
    Ok(Raster { width: size, height: size, pixels })
}

} // verus!
