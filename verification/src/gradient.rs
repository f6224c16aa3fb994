//! The gradient painter: every pixel that is still pure black is recolored
//! by a two-stop linear gradient, keyed on the pixel's Manhattan distance
//! from the image center divided by the image side (clamped into the
//! gradient's domain). All other pixels are untouched.

use vstd::prelude::*;

use crate::logo::lemma_grid_index;
use crate::raster::{black, black_pixel, Pixel, Raster};

verus! {

/// The color colorgrad's fixed two-stop gradient yields at sample `i` of
/// `n` evenly spaced positions across its domain.
pub uninterp spec fn gradient_color(i: nat, n: nat) -> Pixel;

/// Relies on colorgrad (CustomGradient and Gradient::colors): a two-stop
/// linear RGB gradient from opaque (100,0,100) to opaque (30,5,60),
/// sampled at `n` evenly spaced positions in its domain [0,1]; the samples
/// depend on `n` alone. Both stops are fully opaque, so every
/// interpolated sample keeps alpha 255, and the red channel stays between
/// the stops' red values 30 and 100; the first and last samples are
/// exactly the two stops. Building this fixed gradient cannot fail.
#[verifier::external_body]
pub(crate) fn gradient_samples(n: usize) -> (v: Vec<Pixel>)
    requires
        2 <= n,
    ensures
        v@.len() == n,
        forall|i: int| 0 <= i < n ==> v@[i] == gradient_color(i as nat, n as nat),
        forall|i: int| 0 <= i < n ==> (v@[i].a == 255 && 30 <= v@[i].r <= 100),
        v@[0] == (Pixel { r: 100, g: 0, b: 100, a: 255 }),
        v@[n - 1] == (Pixel { r: 30, g: 5, b: 60, a: 255 }),
{
    let stops = [
        colorgrad::Color::from_rgba8(100, 0, 100, 255),
        colorgrad::Color::from_rgba8(30, 5, 60, 255),
    ];
    let gradient = colorgrad::CustomGradient::new().colors(&stops).build().unwrap();
    let to_pixel = |c: &colorgrad::Color| {
        let [r, g, b, a] = c.to_rgba8();
        Pixel { r, g, b, a }
    };
    gradient.colors(n).iter().map(to_pixel).collect()
}

/// The Manhattan distance of flat index `i` (in a row-major buffer of
/// width `w`) from the center of a square of side `size`.
pub open spec fn grad_dist(w: int, size: int, i: int) -> int {
    let c = size / 2;
    let dx = if i % w >= c {
        i % w - c
    } else {
        c - i % w
    };
    let dy = if i / w >= c {
        i / w - c
    } else {
        c - i / w
    };
    dx + dy
}

/// The gradient sample a pixel at flat index `i` is recolored with: the
/// Manhattan distance, capped at `size` (positions past the far end of
/// the domain clamp to the gradient's last stop).
pub open spec fn grad_index(w: int, size: int, i: int) -> int {
    if grad_dist(w, size, i) >= size {
        size
    } else {
        grad_dist(w, size, i)
    }
}

/// What the gradient step does to a pixel buffer of width `w` on an image
/// of side `size`: pure black pixels take the gradient color at their
/// distance from the center, everything else is unchanged.
pub open spec fn gradient_map(s: Seq<Pixel>, w: int, size: int) -> Seq<Pixel> {
    Seq::new(
        s.len(),
        |i: int|
            if s[i] == black() {
                gradient_color(grad_index(w, size, i) as nat, (size + 1) as nat)
            } else {
                s[i]
            },
    )
}

/// Recolors every pure-black pixel with the gradient color at its
/// normalized Manhattan distance from the image center, in place. Black
/// pixels come out opaque and no longer pure black; all other pixels are
/// bit-for-bit unchanged.
pub fn add_gradient(qr: &mut Raster)
    requires
        old(qr).wf(),
    ensures
        final(qr).wf(),
        final(qr).width == old(qr).width,
        final(qr).height == old(qr).height,
        final(qr).pixels@ == gradient_map(
            old(qr).pixels@,
            old(qr).width as int,
            old(qr).spec_side(),
        ),
        forall|i: int|
            0 <= i < old(qr).pixels@.len() && old(qr).pixels@[i] == black() ==> (
            final(qr).pixels@[i].a == 255 && final(qr).pixels@[i] != black()),
        forall|i: int|
            0 <= i < old(qr).pixels@.len() && old(qr).pixels@[i] != black()
                ==> final(qr).pixels@[i] == old(qr).pixels@[i],
{
    let ghost s0 = old(qr).pixels@;
    let ghost w = old(qr).width as int;
    let ghost hh = old(qr).height as int;
    let ghost sz = old(qr).spec_side();
    let n: usize = qr.pixels.len();
    let size: usize = qr.side();
    if size == 0 {
        proof {
            assert(old(qr).width == 0 || old(qr).height == 0);
            assert(s0.len() == 0) by (nonlinear_arith)
                requires
                    s0.len() == w * hh,
                    w == 0 || hh == 0,
            ;
            assert(qr.pixels@ =~= gradient_map(s0, w, sz));
        }
        return;
    }
    proof {
        assert(size * size <= w * hh) by (nonlinear_arith)
            requires
                size <= w,
                size <= hh,
                0 <= size,
        ;
        assert(size < usize::MAX) by (nonlinear_arith)
            requires
                size * size <= usize::MAX,
                1 <= size,
        ;
        assert(w + hh <= n + 1) by (nonlinear_arith)
            requires
                1 <= w,
                1 <= hh,
                n == w * hh,
        ;
    }
    let samples = gradient_samples(size + 1);
    let bp = black_pixel();
    let c: usize = size / 2;
    let mut i: usize = 0;
    let mut x: usize = 0;
    let mut y: usize = 0;
    while i < n
        invariant
            qr.wf(),
            qr.width == old(qr).width,
            qr.height == old(qr).height,
            s0 == old(qr).pixels@,
            w == old(qr).width as int,
            hh == old(qr).height as int,
            sz == old(qr).spec_side(),
            n == s0.len(),
            n == w * hh,
            qr.pixels@.len() == n,
            1 <= size,
            size == sz,
            size <= w,
            size <= hh,
            size < usize::MAX,
            w + hh <= n + 1,
            c == size / 2,
            bp == black(),
            samples@.len() == size + 1,
            forall|k: int|
                0 <= k < samples@.len() ==> samples@[k] == gradient_color(
                    k as nat,
                    (size + 1) as nat,
                ),
            forall|k: int|
                0 <= k < samples@.len() ==> (samples@[k].a == 255 && 30 <= samples@[k].r <= 100),
            i == y * w + x,
            x < w,
            y <= hh,
            forall|j: int| 0 <= j < i ==> qr.pixels@[j] == gradient_map(s0, w, sz)[j],
            forall|j: int| i <= j < n ==> qr.pixels@[j] == s0[j],
        decreases n - i,
    {
        let p = qr.pixels[i];
        if p == bp {
            proof {
                lemma_grid_index(w, x as int, y as int);
            }
            let dx: usize = if x >= c {
                x - c
            } else {
                c - x
            };
            let dy: usize = if y >= c {
                y - c
            } else {
                c - y
            };
            let d: usize = dx + dy;
            let gi: usize = if d >= size {
                size
            } else {
                d
            };
            proof {
                assert(gi == grad_index(w, sz, i as int));
            }
            qr.pixels.set(i, samples[gi]);
        }
        proof {
            assert(y < hh) by (nonlinear_arith)
                requires
                    i == y * w + x,
                    i < n,
                    n == w * hh,
                    0 <= x < w,
                    1 <= w,
                    hh >= 0,
                    y >= 0,
            ;
        }
        i = i + 1;
        x = x + 1;
        if x == qr.width {
            proof {
                assert((y + 1) * w == y * w + w) by (nonlinear_arith);
            }
            x = 0;
            y = y + 1;
        }
    }
    proof {
        assert(qr.pixels@ =~= gradient_map(s0, w, sz));
        assert forall|i2: int|
            0 <= i2 < s0.len() && s0[i2] == black() implies (qr.pixels@[i2].a == 255
            && qr.pixels@[i2] != black()) by {
            assert(qr.pixels@[i2] == samples@[grad_index(w, sz, i2)]);
        }
    }
}

} // verus!
