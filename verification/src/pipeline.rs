//! The pipeline: render the QR code, then apply the optional transparency,
//! logo and gradient steps in that fixed order, then encode the result as
//! PNG. Every error aborts the invocation; no partial image is returned.

use vstd::prelude::*;

use crate::gradient::{add_gradient, gradient_map};
use crate::logo::{add_logo, compose_spec, logo_limit, logo_raster};
use crate::png::{encode_png, png_bytes};
use crate::raster::Pixel;
use crate::render::{qr_raster, render_qr};
use crate::transparency::{make_transparent, transparent_map};

verus! {

broadcast use vstd::string::to_string_from_display_ensures_for_str;

/// The configuration record: which optional steps to run. An absent
/// `add_transparency` counts as "not enabled"; it also selects which logo
/// variant the caller hands over.
#[derive(Clone, Copy, Debug)]
pub struct Options {
    pub add_logo: bool,
    pub add_gradient: bool,
    pub add_transparency: Option<bool>,
}

/// Why an invocation failed. Each kind carries a fixed descriptive
/// message, reachable through `message`.
#[derive(Clone, Copy, PartialEq, Eq, Structural, Debug)]
pub enum GenError {
    /// The renderer rejected the input, the size, or their combination.
    Render,
    /// The supplied logo bytes are not a valid image.
    LogoDecode,
    /// Serializing the final raster failed.
    Encode,
}

impl GenError {
    /// The human-readable description of this failure.
    pub open spec fn spec_message(self) -> Seq<char> {
        match self {
            GenError::Render => "the renderer could not encode the input at the requested size"@,
            GenError::LogoDecode => "the supplied logo is not a valid image"@,
            GenError::Encode => "the final image could not be serialized"@,
        }
    }

    pub fn message(&self) -> (m: String)
        ensures
            m@ == self.spec_message(),
    {
        match self {
            GenError::Render => "the renderer could not encode the input at the requested size"
                .to_string(),
            GenError::LogoDecode => "the supplied logo is not a valid image".to_string(),
            GenError::Encode => "the final image could not be serialized".to_string(),
        }
    }
}

/// A structured failure value: the descriptive message of the error.
pub struct QrError {
    pub message: String,
}

/// The outcome of one invocation: the PNG blob, or a structured failure.
pub enum QrResult {
    Image(Vec<u8>),
    Failed(QrError),
}

/// The pixel buffer after the three optional steps, applied in the fixed
/// order transparency, logo, gradient on a square raster of side `size`,
/// or nothing where the logo step was requested and the logo bytes do not
/// decode.
pub open spec fn pipeline_pixels(
    qr0: Seq<Pixel>,
    opts: Options,
    logo: Seq<u8>,
    size: int,
) -> Option<Seq<Pixel>> {
    let p1 = if opts.add_transparency == Some(true) {
        transparent_map(qr0)
    } else {
        qr0
    };
    if opts.add_logo {
        let l = logo_limit(p1, size, size);
        match logo_raster(logo, l as nat) {
            Option::None => Option::None,
            Option::Some(lg) => {
                let p2 = compose_spec(
                    p1,
                    size,
                    lg.2,
                    lg.0 as int,
                    lg.1 as int,
                    (size - l) / 2,
                    (size - l) / 2,
                );
                Option::Some(
                    if opts.add_gradient {
                        gradient_map(p2, size, size)
                    } else {
                        p2
                    },
                )
            },
        }
    } else {
        Option::Some(
            if opts.add_gradient {
                gradient_map(p1, size, size)
            } else {
                p1
            },
        )
    }
}

/// The full outcome of `generate`: the PNG bytes of the post-processed
/// raster, or the error of the first stage that fails.
pub open spec fn generate_spec(text: Seq<char>, opts: Options, logo: Seq<u8>, size: int) -> Result<
    Seq<u8>,
    GenError,
> {
    match qr_raster(text, size as nat) {
        Option::None => Result::Err(GenError::Render),
        Option::Some(qr0) => match pipeline_pixels(qr0, opts, logo, size) {
            Option::None => Result::Err(GenError::LogoDecode),
            Option::Some(pf) => match png_bytes(size as nat, size as nat, pf) {
                Option::None => Result::Err(GenError::Encode),
                Option::Some(b) => Result::Ok(b),
            },
        },
    }
}

/// Renders `input` as a QR code of `image_size` by `image_size` pixels,
/// applies the steps `options` enables in the fixed order (transparency,
/// logo, gradient), and returns the PNG serialization of the result.
pub fn generate(input: String, options: Options, logo: &[u8], image_size: usize) -> (r: Result<
    Vec<u8>,
    GenError,
>)
    requires
        1 <= image_size,
        4 * image_size * image_size <= usize::MAX,
    ensures
        (match r {
            Ok(v) => generate_spec(input@, options, logo@, image_size as int) == Result::<
                Seq<u8>,
                GenError,
            >::Ok(v@),
            Err(e) => generate_spec(input@, options, logo@, image_size as int) == Result::<
                Seq<u8>,
                GenError,
            >::Err(e),
        }),
{
    let mut qr = match render_qr(input.as_str(), image_size) {
        Ok(q) => q,
        Err(_) => {
            return Err(GenError::Render);
        },
    };
    match options.add_transparency {
        Some(true) => make_transparent(&mut qr),
        _ => (),
    }
    if options.add_logo {
        match add_logo(&mut qr, logo) {
            Ok(u) => u,
            Err(e) => {
                return Err(e);
            },
        }
    }
    if options.add_gradient {
        add_gradient(&mut qr);
    }
    proof {
        assert(image_size <= u32::MAX) by (nonlinear_arith)
            requires
                4 * image_size * image_size <= usize::MAX,
                1 <= image_size,
        ;
    }
    match encode_png(&qr) {
        Ok(v) => Ok(v),
        Err(_) => Err(GenError::Encode),
    }
}

/// One invocation as the service entry point sees it: picks the logo
/// variant that matches the transparency option, runs `generate`, and
/// wraps the outcome, mapping an error to its descriptive message.
pub fn qrcode_impl(
    input: String,
    options: Options,
    logo_transparent: &[u8],
    logo_white: &[u8],
    image_size: usize,
) -> (r: QrResult)
    requires
        1 <= image_size,
        4 * image_size * image_size <= usize::MAX,
    ensures
        ({
            let chosen = if options.add_transparency == Some(true) {
                logo_transparent@
            } else {
                logo_white@
            };
            match generate_spec(input@, options, chosen, image_size as int) {
                Result::Ok(b) => r matches QrResult::Image(v) && v@ == b,
                Result::Err(e) => r matches QrResult::Failed(q) && q.message@ == e.spec_message(),
            }
        }),
{
    let logo: &[u8] = match options.add_transparency {
        Some(true) => logo_transparent,
        _ => logo_white,
    };
    match generate(input, options, logo, image_size) {
        Ok(blob) => QrResult::Image(blob),
        Err(e) => QrResult::Failed(QrError { message: e.message() }),
    }
}

} // verus!
