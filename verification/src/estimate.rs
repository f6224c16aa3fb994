//! The element-size estimator: the pixel width of one QR module, measured
//! by walking the main diagonal of the raster. The white quiet zone ends at
//! the first black pixel (the top-left finder pattern), and the width of
//! that first black run is the module width. This assumes the renderer's
//! fixed, unrotated layout; if no black run can be measured the estimate
//! falls back to 1.

use vstd::prelude::*;

use crate::raster::{black, black_pixel, Raster};
use crate::raster::Pixel;

verus! {

/// The pixel on the main diagonal at offset `i`, in a buffer of row width `w`.
pub open spec fn diag_pix(s: Seq<Pixel>, w: int, i: int) -> Pixel {
    s[i * w + i]
}

/// The first diagonal offset in `[i, size)` whose pixel is pure black,
/// or `size` if there is none.
pub open spec fn diag_first_black(s: Seq<Pixel>, w: int, size: int, i: int) -> int
    decreases size - i,
{
    if i < 0 || i >= size {
        size
    } else if diag_pix(s, w, i) == black() {
        i
    } else {
        diag_first_black(s, w, size, i + 1)
    }
}

/// Scanning the diagonal from `start`, the first offset `i >= i0` at which
/// the pixel differs from pure black, or 1 if the scan runs off the raster
/// without a change.
pub open spec fn diag_scan_width(s: Seq<Pixel>, w: int, size: int, start: int, i: int) -> int
    decreases size - start - i,
{
    if i < 0 || i >= size - start {
        1
    } else if diag_pix(s, w, start + i) != black() {
        i
    } else {
        diag_scan_width(s, w, size, start, i + 1)
    }
}

/// The estimated module width of the raster: the width of the first black
/// run on the main diagonal, or 1 if there is no black pixel on the
/// diagonal or the run reaches the raster's edge.
pub open spec fn element_size_spec(s: Seq<Pixel>, w: int, size: int) -> int {
    diag_scan_width(s, w, size, diag_first_black(s, w, size, 0), 0)
}

/// Measures the pixel width of one QR module by scanning the main diagonal.
pub fn get_qr_element_size(qr: &Raster) -> (e: usize)
    requires
        qr.wf(),
    ensures
        e == element_size_spec(qr.pixels@, qr.width as int, qr.spec_side()),
        1 <= e,
        qr.spec_side() >= 1 ==> e <= qr.spec_side(),
{
    let ghost s = qr.pixels@;
    let ghost w = qr.width as int;
    let size: usize = qr.side();
    let bp = black_pixel();

    let mut start: usize = size;
    let mut i: usize = 0;
    while i < size
        invariant_except_break
            i <= size,
            start == size,
            qr.wf(),
            s == qr.pixels@,
            w == qr.width as int,
            size == qr.spec_side(),
            bp == black(),
            diag_first_black(s, w, size as int, 0) == diag_first_black(s, w, size as int, i as int),
        ensures
            qr.wf(),
            s == qr.pixels@,
            w == qr.width as int,
            size == qr.spec_side(),
            bp == black(),
            start == diag_first_black(s, w, size as int, 0),
            start <= size,
            start < size ==> diag_pix(s, w, start as int) == black(),
        decreases size - i,
    {
        if qr.get(i, i) == bp {
            start = i;
            proof {
                assert(diag_pix(s, w, i as int) == black());
            }
            break;
        }
        proof {
            assert(diag_pix(s, w, i as int) != black());
        }
        i = i + 1;
    }

    let mut e: usize = 1;
    let mut j: usize = 0;
    while j < size - start
        invariant_except_break
            j <= size - start,
            start <= size,
            e == 1,
            qr.wf(),
            s == qr.pixels@,
            w == qr.width as int,
            size == qr.spec_side(),
            bp == black(),
            start < size ==> diag_pix(s, w, start as int) == black(),
            diag_scan_width(s, w, size as int, start as int, 0) == diag_scan_width(
                s,
                w,
                size as int,
                start as int,
                j as int,
            ),
        ensures
            e == diag_scan_width(s, w, size as int, start as int, 0),
            1 <= e,
            e == 1 || e < size - start,
        decreases size - start - j,
    {
        if !(qr.get(start + j, start + j) == bp) {
            proof {
                assert(diag_pix(s, w, start as int + j as int) != black());
                if j == 0 {
                    assert(diag_pix(s, w, start as int) == black());
                }
            }
            e = j;
            break;
        }
        proof {
            assert(diag_pix(s, w, start as int + j as int) == black());
        }
        j = j + 1;
    }
    e
}

/// A lemma for locating the end of the quiet zone: if the diagonal is
/// non-black on `[i, start)` and black at `start`, the scan from `i`
/// stops exactly at `start`.
proof fn lemma_dfb_finds(s: Seq<Pixel>, w: int, size: int, i: int, start: int)
    requires
        0 <= i <= start < size,
        forall|j: int| i <= j < start ==> diag_pix(s, w, j) != black(),
        diag_pix(s, w, start) == black(),
    ensures
        diag_first_black(s, w, size, i) == start,
    decreases start - i,
{
    if i < start {
        lemma_dfb_finds(s, w, size, i + 1, start);
    }
}

/// A lemma for measuring a black run: if the diagonal is black on
/// `[start + i, start + m)` and non-black at `start + m`, the scan from
/// offset `i` stops exactly at `m`.
proof fn lemma_scan_finds(s: Seq<Pixel>, w: int, size: int, start: int, i: int, m: int)
    requires
        0 <= i <= m,
        0 <= start,
        start + m < size,
        forall|j: int| start + i <= j < start + m ==> diag_pix(s, w, j) == black(),
        diag_pix(s, w, start + m) != black(),
    ensures
        diag_scan_width(s, w, size, start, i) == m,
    decreases m - i,
{
    if i < m {
        lemma_scan_finds(s, w, size, start, i + 1, m);
    }
}

/// On a raster whose main diagonal shows a quiet zone of `start` non-black
/// pixels followed by a black run of exactly `m` pixels that ends before
/// the raster does, the estimator returns exactly `m`.
pub proof fn lemma_element_size_exact(s: Seq<Pixel>, w: int, size: int, start: int, m: int)
    requires
        0 <= start,
        1 <= m,
        start + m < size,
        forall|j: int| 0 <= j < start ==> diag_pix(s, w, j) != black(),
        forall|j: int| start <= j < start + m ==> diag_pix(s, w, j) == black(),
        diag_pix(s, w, start + m) != black(),
    ensures
        element_size_spec(s, w, size) == m,
{
    lemma_dfb_finds(s, w, size, 0, start);
    lemma_scan_finds(s, w, size, start, 0, m);
}

} // verus!
