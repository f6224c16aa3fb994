//! The transparency step: opaque white background pixels become fully
//! transparent white; every other pixel is left untouched.

use vstd::prelude::*;

use crate::raster::{clear_white, clear_white_pixel, white, white_pixel, Pixel, Raster};

verus! {

/// What one pass of the transparency step does to a pixel buffer.
pub open spec fn transparent_map(s: Seq<Pixel>) -> Seq<Pixel> {
    s.map(|i: int, p: Pixel| if p == white() { clear_white() } else { p })
}

/// Rewrites every opaque white pixel to transparent white, in place.
pub fn make_transparent(qr: &mut Raster)
    ensures
        final(qr).width == old(qr).width,
        final(qr).height == old(qr).height,
        final(qr).pixels@ == transparent_map(old(qr).pixels@),
{
    let n: usize = qr.pixels.len();
    let w = white_pixel();
    let clear = clear_white_pixel();
    let mut i: usize = 0;
    while i < n
        invariant
            i <= n,
            n == old(qr).pixels@.len(),
            qr.width == old(qr).width,
            qr.height == old(qr).height,
            qr.pixels@.len() == n,
            w == white(),
            clear == clear_white(),
            forall|j: int| 0 <= j < i ==> qr.pixels@[j] == transparent_map(old(qr).pixels@)[j],
            forall|j: int| i <= j < n ==> qr.pixels@[j] == old(qr).pixels@[j],
        decreases n - i,
    {
        let p = qr.pixels[i];
        if p == w {
            qr.pixels.set(i, clear);
        }
        i = i + 1;
    }
    proof {
        assert(qr.pixels@ =~= transparent_map(old(qr).pixels@));
    }
}

/// Applying the transparency step twice gives the same buffer as applying
/// it once: the second pass finds no opaque white pixel left to rewrite.
pub proof fn lemma_transparent_idempotent(s: Seq<Pixel>)
    ensures
        transparent_map(transparent_map(s)) == transparent_map(s),
{
    assert(transparent_map(transparent_map(s)) =~= transparent_map(s));
}

/// On a buffer with no transparent-white pixel (a freshly rendered QR code
/// has none), a pixel of the output is transparent white exactly when the
/// input pixel was opaque white, and every non-white pixel is unchanged.
pub proof fn lemma_white_iff_clear(s: Seq<Pixel>)
    requires
        forall|i: int| 0 <= i < s.len() ==> s[i] != clear_white(),
    ensures
        forall|i: int|
            0 <= i < s.len() ==> (s[i] == white() <==> transparent_map(s)[i] == clear_white()),
        forall|i: int| 0 <= i < s.len() && s[i] != white() ==> transparent_map(s)[i] == s[i],
{
}

} // verus!
