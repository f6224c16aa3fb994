//! The logo compositor: pick the largest logo square that stays within a
//! conservative fraction of the image (5/16 of the side, which keeps the
//! covered area well under the quartile error-correction tolerance), decode
//! and resize the supplied logo bytes, and overwrite the centered region
//! with the logo's pixels.

use vstd::prelude::*;

use crate::estimate::{element_size_spec, get_qr_element_size};
use crate::pipeline::GenError;
use crate::raster::{lemma_row_major, Pixel, Raster};

verus! {

/// The logo side length the sizing loop reaches from `cur`: keep adding
/// `2 * e` (one module of margin on each side) while the next value still
/// fits under `bound`.
pub open spec fn logo_size_spec(cur: int, e: int, bound: int) -> int
    decreases bound - cur,
{
    if e < 1 {
        cur
    } else if cur + 2 * e <= bound {
        logo_size_spec(cur + 2 * e, e, bound)
    } else {
        cur
    }
}

/// The chosen logo side length for a module width of `element_size` on a
/// square image of side `image_size`: start at one module and grow by two
/// modules at a time while the result stays within `5 * image_size / 16`.
pub fn logo_target_size(element_size: usize, image_size: usize) -> (l: usize)
    requires
        1 <= element_size,
        element_size <= image_size,
        5 * image_size <= usize::MAX,
    ensures
        l == logo_size_spec(
            element_size as int,
            element_size as int,
            5 * image_size as int / 16,
        ),
        element_size <= l,
        l <= image_size,
{
    let bound: usize = 5 * image_size / 16;
    assert(bound <= image_size);
    let mut l: usize = element_size;
    while l + 2 * element_size <= bound
        invariant
            1 <= element_size <= image_size,
            5 * image_size <= usize::MAX,
            element_size <= l <= image_size,
            bound == 5 * image_size as int / 16,
            bound <= image_size,
            logo_size_spec(element_size as int, element_size as int, bound as int)
                == logo_size_spec(l as int, element_size as int, bound as int),
        decreases bound - l,
    {
        l = l + 2 * element_size;
    }
    l
}

/// The value the sizing loop settles on is maximal: it fits under the
/// bound, and one more growth step would not. This needs the loop to run
/// at least once, i.e. `3 * e <= bound`; when even the first step does not
/// fit, the result is the single module width `e`, which may already
/// exceed the bound.
proof fn lemma_lss_maximal(cur: int, e: int, bound: int)
    requires
        1 <= e,
        cur + 2 * e <= bound,
    ensures
        logo_size_spec(cur, e, bound) <= bound,
        bound < logo_size_spec(cur, e, bound) + 2 * e,
    decreases bound - cur,
{
    let next = cur + 2 * e;
    if next + 2 * e <= bound {
        lemma_lss_maximal(next, e, bound);
    } else {
        assert(logo_size_spec(cur, e, bound) == logo_size_spec(next, e, bound));
        assert(logo_size_spec(next, e, bound) == next);
    }
}

/// Maximality of the chosen logo size, whenever at least one growth step
/// fits: the result `l` satisfies `l <= 5 * s / 16 < l + 2 * e`, so the
/// logo plus its two-module margin is the first size over the bound.
pub proof fn lemma_logo_size_maximal(e: int, s: int)
    requires
        1 <= e,
        3 * e <= 5 * s / 16,
    ensures
        logo_size_spec(e, e, 5 * s / 16) <= 5 * s / 16,
        5 * s / 16 < logo_size_spec(e, e, 5 * s / 16) + 2 * e,
{
    lemma_lss_maximal(e, e, 5 * s / 16);
}

/// The area invariant behind the sizing rule: whenever the sizing loop
/// can run at all (`3 * e <= 5 * s / 16`), the chosen logo square covers
/// at most 5/16 of the total image area, which keeps it under the
/// quartile error-correction tolerance.
pub proof fn lemma_logo_area_bound(e: int, s: int)
    requires
        1 <= e,
        3 * e <= 5 * s / 16,
        0 <= s,
    ensures
        16 * logo_size_spec(e, e, 5 * s / 16) * logo_size_spec(e, e, 5 * s / 16) <= 5 * (s * s),
{
    lemma_lss_maximal(e, e, 5 * s / 16);
    let q = 5 * s / 16;
    let l = logo_size_spec(e, e, q);
    assert(16 * q <= 5 * s);
    assert(q <= s);
    assert(16 * l * l <= 5 * (s * s)) by (nonlinear_arith)
        requires
            1 <= l,
            l <= q,
            16 * q <= 5 * s,
            q <= s,
            0 <= s,
    ;
}

/// Whether flat index `i` of a row-major buffer of width `w` falls in the
/// rectangle of width `sw` and height `sh` whose top-left corner is at
/// `(ox, oy)`.
pub open spec fn in_overlay(w: int, ox: int, oy: int, sw: int, sh: int, i: int) -> bool {
    ox <= i % w < ox + sw && oy <= i / w < oy + sh
}

/// The buffer `dst` (row-major, width `w`) with the rectangle at `(ox, oy)`
/// overwritten by the `sw` by `sh` buffer `src`.
pub open spec fn compose_spec(
    dst: Seq<Pixel>,
    w: int,
    src: Seq<Pixel>,
    sw: int,
    sh: int,
    ox: int,
    oy: int,
) -> Seq<Pixel> {
    Seq::new(
        dst.len(),
        |i: int|
            if in_overlay(w, ox, oy, sw, sh, i) {
                src[(i / w - oy) * sw + (i % w - ox)]
            } else {
                dst[i]
            },
    )
}

/// The flat index of column `x`, row `y` decomposes back into them.
pub proof fn lemma_grid_index(w: int, x: int, y: int)
    requires
        0 <= x < w,
        0 <= y,
    ensures
        (y * w + x) % w == x,
        (y * w + x) / w == y,
{
    vstd::arithmetic::div_mod::lemma_fundamental_div_mod_converse(y * w + x, w, y, x);
}

/// Overwrites the rectangle of `dst` at `(ox, oy)` with the pixels of
/// `src`, alpha included: the logo replaces, it is not blended.
pub fn composite(dst: &mut Raster, src: &Raster, ox: usize, oy: usize)
    requires
        old(dst).wf(),
        src.wf(),
        ox + src.width <= old(dst).width,
        oy + src.height <= old(dst).height,
    ensures
        final(dst).wf(),
        final(dst).width == old(dst).width,
        final(dst).height == old(dst).height,
        final(dst).pixels@ == compose_spec(
            old(dst).pixels@,
            old(dst).width as int,
            src.pixels@,
            src.width as int,
            src.height as int,
            ox as int,
            oy as int,
        ),
{
    let ghost w = old(dst).width as int;
    let ghost target = compose_spec(
        old(dst).pixels@,
        w,
        src.pixels@,
        src.width as int,
        src.height as int,
        ox as int,
        oy as int,
    );
    let mut y: usize = 0;
    while y < src.height
        invariant
            y <= src.height,
            dst.wf(),
            src.wf(),
            dst.width == old(dst).width,
            dst.height == old(dst).height,
            w == old(dst).width as int,
            ox + src.width <= dst.width,
            oy + src.height <= dst.height,
            target == compose_spec(
                old(dst).pixels@,
                w,
                src.pixels@,
                src.width as int,
                src.height as int,
                ox as int,
                oy as int,
            ),
            dst.pixels@.len() == old(dst).pixels@.len(),
            forall|i: int|
                0 <= i < dst.pixels@.len() ==> dst.pixels@[i] == (if in_overlay(
                    w,
                    ox as int,
                    oy as int,
                    src.width as int,
                    src.height as int,
                    i,
                ) && i / w < oy + y {
                    target[i]
                } else {
                    old(dst).pixels@[i]
                }),
        decreases src.height - y,
    {
        let mut x: usize = 0;
        while x < src.width
            invariant
                x <= src.width,
                y < src.height,
                dst.wf(),
                src.wf(),
                dst.width == old(dst).width,
                dst.height == old(dst).height,
                w == old(dst).width as int,
                ox + src.width <= dst.width,
                oy + src.height <= dst.height,
                target == compose_spec(
                    old(dst).pixels@,
                    w,
                    src.pixels@,
                    src.width as int,
                    src.height as int,
                    ox as int,
                    oy as int,
                ),
                dst.pixels@.len() == old(dst).pixels@.len(),
                forall|i: int|
                    0 <= i < dst.pixels@.len() ==> dst.pixels@[i] == (if in_overlay(
                        w,
                        ox as int,
                        oy as int,
                        src.width as int,
                        src.height as int,
                        i,
                    ) && (i / w < oy + y || (i / w == oy + y && i % w < ox + x)) {
                        target[i]
                    } else {
                        old(dst).pixels@[i]
                    }),
            decreases src.width - x,
        {
            let p = src.get(x, y);
            let dx: usize = ox + x;
            let dy: usize = oy + y;
            proof {
                lemma_grid_index(w, dx as int, dy as int);
                lemma_row_major(w, dst.height as int, dx as int, dy as int);
                lemma_grid_index(src.width as int, x as int, y as int);
                lemma_row_major(src.width as int, src.height as int, x as int, y as int);
            }
            let ghost prev = dst.pixels@;
            dst.put(dx, dy, p);
            proof {
                let idx = dy as int * w + dx as int;
                let sw = src.width as int;
                let sh = src.height as int;
                assert(target[idx] == src.pixels@[y as int * sw + x as int]);
                assert(dst.pixels@[idx] == target[idx]);
                assert forall|i: int|
                    0 <= i < dst.pixels@.len() implies dst.pixels@[i] == (if in_overlay(
                    w,
                    ox as int,
                    oy as int,
                    sw,
                    sh,
                    i,
                ) && (i / w < oy + y || (i / w == oy + y && i % w < ox + x + 1)) {
                    target[i]
                } else {
                    old(dst).pixels@[i]
                }) by {
                    vstd::arithmetic::div_mod::lemma_fundamental_div_mod(i, w);
                    assert(prev[i] == (if in_overlay(w, ox as int, oy as int, sw, sh, i) && (
                    i / w < oy + y || (i / w == oy + y && i % w < ox + x)) {
                        target[i]
                    } else {
                        old(dst).pixels@[i]
                    }));
                    if i == idx {
                        assert(dst.pixels@[i] == target[i]);
                    } else {
                        assert(dst.pixels@[i] == prev[i]);
                        if i / w == oy + y && i % w == ox + x {
                            assert(i == w * (i / w) + (i % w));
                            assert(w * (i / w) == (i / w) * w) by (nonlinear_arith);
                            assert(i == idx);
                        }
                    }
                }
            }
            x = x + 1;
        }
        y = y + 1;
    }
    proof {
        assert forall|i: int| 0 <= i < dst.pixels@.len() implies dst.pixels@[i] == target[i] by {
            if in_overlay(w, ox as int, oy as int, src.width as int, src.height as int, i) {
            } else {
                assert(target[i] == old(dst).pixels@[i]);
            }
        }
        assert(dst.pixels@ =~= target);
    }
}

/// The logo side length the compositor aims for on the raster `s` of
/// width `w` and side `size`: grown from the estimated module width under
/// the `5 * size / 16` bound.
pub open spec fn logo_limit(s: Seq<Pixel>, w: int, size: int) -> int {
    logo_size_spec(
        element_size_spec(s, w, size),
        element_size_spec(s, w, size),
        5 * size / 16,
    )
}

/// What decoding the logo bytes and shrinking the result to fit within a
/// square of side `limit` yields: the resized logo's width, height and
/// pixel buffer, or nothing where the bytes are not a recognizable image.
pub uninterp spec fn logo_raster(bytes: Seq<u8>, limit: nat) -> Option<(nat, nat, Seq<Pixel>)>;

/// Relies on image's format-guessing decoder (io::Reader) and on
/// DynamicImage::resize with the Lanczos3 filter: both are deterministic
/// functions of the bytes and the target size. Resize preserves the
/// aspect ratio and scales to the largest size that fits within the
/// limit-by-limit square, so the result's sides are between 1 and
/// `limit`. Decoding failure is reported through the result; reading
/// from an in-memory cursor cannot fail.
#[verifier::external_body]
pub(crate) fn decode_logo(bytes: &[u8], limit: usize) -> (res: Result<Raster, image::ImageError>)
    requires
        1 <= limit,
        limit <= u32::MAX,
    ensures
        res is Ok <==> logo_raster(bytes@, limit as nat) is Some,
        res matches Ok(l) ==> {
            &&& l.wf()
            &&& (l.width as nat, l.height as nat, l.pixels@) == logo_raster(
                bytes@,
                limit as nat,
            ).unwrap()
            &&& 1 <= l.width <= limit
            &&& 1 <= l.height <= limit
        },
{
    let reader = match image::io::Reader::new(std::io::Cursor::new(bytes)).with_guessed_format() {
        Ok(r) => r,
        Err(e) => return Err(image::ImageError::IoError(e)),
    };
    let img = reader.decode()?.resize(limit as u32, limit as u32, image::imageops::FilterType::Lanczos3);
    let rgba = img.to_rgba8();
    let (w, h) = (rgba.width() as usize, rgba.height() as usize);
    let pixels: Vec<Pixel> =
        rgba.pixels().map(|p| Pixel { r: p.0[0], g: p.0[1], b: p.0[2], a: p.0[3] }).collect();
    Ok(Raster { width: w, height: h, pixels })
}

/// Decodes the supplied logo bytes, resizes them to the largest centered
/// square that stays under 5/16 of the image side (with a one-module
/// margin counted on each side while growing), and overwrites the
/// centered region of `qr` with the result. On a decode failure the
/// raster is left unchanged.
pub fn add_logo(qr: &mut Raster, logo: &[u8]) -> (res: Result<(), GenError>)
    requires
        old(qr).wf(),
        1 <= old(qr).spec_side(),
    ensures
        final(qr).wf(),
        final(qr).width == old(qr).width,
        final(qr).height == old(qr).height,
        res is Ok <==> logo_raster(
            logo@,
            logo_limit(old(qr).pixels@, old(qr).width as int, old(qr).spec_side()) as nat,
        ) is Some,
        res matches Err(e) ==> (e == GenError::LogoDecode && final(qr).pixels@ == old(
            qr,
        ).pixels@),
        res is Ok ==> final(qr).pixels@ == ({
            let size = old(qr).spec_side();
            let l = logo_limit(old(qr).pixels@, old(qr).width as int, size);
            let lg = logo_raster(logo@, l as nat).unwrap();
            compose_spec(
                old(qr).pixels@,
                old(qr).width as int,
                lg.2,
                lg.0 as int,
                lg.1 as int,
                (size - l) / 2,
                (size - l) / 2,
            )
        }),
{
    let ghost w = old(qr).width as int;
    let ghost hh = old(qr).height as int;
    let n: usize = qr.pixels.len();
    let size: usize = qr.side();
    proof {
        assert(size * size <= w * hh) by (nonlinear_arith)
            requires
                0 <= size <= w,
                size <= hh,
        ;
        assert(5 * size <= usize::MAX && size <= u32::MAX) by (nonlinear_arith)
            requires
                size * size <= usize::MAX,
                1 <= size,
        ;
    }
    let element_size = get_qr_element_size(qr);
    let logo_size = logo_target_size(element_size, size);
    let offset: usize = (size - logo_size) / 2;
    let resized = match decode_logo(logo, logo_size) {
        Ok(l) => l,
        Err(_) => {
            return Err(GenError::LogoDecode);
        },
    };
    assert(offset + resized.width <= qr.width);
    assert(offset + resized.height <= qr.height);
    composite(qr, &resized, offset, offset);
    Ok(())
}

} // verus!
