//! The in-memory image model: RGBA pixels in a row-major grid.

use vstd::prelude::*;

verus! {

/// One RGBA pixel, 8 bits per channel.
#[derive(Clone, Copy, PartialEq, Eq, Structural, Debug)]
pub struct Pixel {
    pub r: u8,
    pub g: u8,
    pub b: u8,
    pub a: u8,
}

/// Opaque white, the background of a freshly rendered QR code.
pub open spec fn white() -> Pixel {
    Pixel { r: 255, g: 255, b: 255, a: 255 }
}

/// Opaque black, the color of the "on" modules.
pub open spec fn black() -> Pixel {
    Pixel { r: 0, g: 0, b: 0, a: 255 }
}

/// Fully transparent white, what the background becomes when transparency
/// is requested.
pub open spec fn clear_white() -> Pixel {
    Pixel { r: 255, g: 255, b: 255, a: 0 }
}

/// A raster of RGBA pixels, stored row-major: the pixel at column `x` of
/// row `y` sits at index `y * width + x`.
pub struct Raster {
    pub width: usize,
    pub height: usize,
    pub pixels: Vec<Pixel>,
}

/// Index `0 <= x < w`, `0 <= y < h` stays inside a `w * h` row-major grid.
pub proof fn lemma_row_major(w: int, h: int, x: int, y: int)
    by (nonlinear_arith)
    requires
        0 <= x < w,
        0 <= y < h,
    ensures
        0 <= y * w + x < w * h,
{
}

impl Raster {
    /// The pixel buffer holds exactly one pixel per grid cell.
    pub open spec fn wf(self) -> bool {
        self.pixels@.len() == self.width * self.height
    }

    /// The pixel at column `x` of row `y`.
    pub open spec fn pix(self, x: int, y: int) -> Pixel {
        self.pixels@[y * self.width + x]
    }

    /// The shorter side of the raster; a square raster's side length.
    pub open spec fn spec_side(self) -> int {
        if self.width <= self.height {
            self.width as int
        } else {
            self.height as int
        }
    }

    pub fn side(&self) -> (s: usize)
        ensures
            s == self.spec_side(),
    {
        if self.width <= self.height {
            self.width
        } else {
            self.height
        }
    }

    /// A raster with every pixel set to `fill`.
    pub fn new(width: usize, height: usize, fill: Pixel) -> (r: Raster)
        requires
            width * height <= usize::MAX,
        ensures
            r.wf(),
            r.width == width,
            r.height == height,
            forall|i: int| 0 <= i < r.pixels@.len() ==> r.pixels@[i] == fill,
    {
        let n: usize = width * height;
        let mut pixels: Vec<Pixel> = Vec::new();
        let mut i: usize = 0;
        while i < n
            invariant
                i <= n,
                pixels@.len() == i,
                forall|j: int| 0 <= j < i ==> pixels@[j] == fill,
            decreases n - i,
        {
            pixels.push(fill);
            i = i + 1;
        }
        Raster { width, height, pixels }
    }

    pub fn get(&self, x: usize, y: usize) -> (p: Pixel)
        requires
            self.wf(),
            x < self.width,
            y < self.height,
        ensures
            p == self.pix(x as int, y as int),
    {
        // reading the length bounds it by usize::MAX, which bounds the index
        let n: usize = self.pixels.len();
        proof {
            lemma_row_major(self.width as int, self.height as int, x as int, y as int);
        }
        self.pixels[y * self.width + x]
    }

    pub fn put(&mut self, x: usize, y: usize, p: Pixel)
        requires
            old(self).wf(),
            x < old(self).width,
            y < old(self).height,
        ensures
            final(self).wf(),
            final(self).width == old(self).width,
            final(self).height == old(self).height,
            final(self).pixels@ == old(self).pixels@.update(
                y as int * old(self).width as int + x as int,
                p,
            ),
    {
        // reading the length bounds it by usize::MAX, which bounds the index
        let n: usize = self.pixels.len();
        proof {
            lemma_row_major(self.width as int, self.height as int, x as int, y as int);
        }
        let idx: usize = y * self.width + x;
        self.pixels.set(idx, p);
    }
}

/// Builds the pixel an exec caller compares against `white()`.
pub fn white_pixel() -> (p: Pixel)
    ensures
        p == white(),
{
    Pixel { r: 255, g: 255, b: 255, a: 255 }
}

/// Builds the pixel an exec caller compares against `black()`.
pub fn black_pixel() -> (p: Pixel)
    ensures
        p == black(),
{
    Pixel { r: 0, g: 0, b: 0, a: 255 }
}

/// Builds the pixel an exec caller compares against `clear_white()`.
pub fn clear_white_pixel() -> (p: Pixel)
    ensures
        p == clear_white(),
{
    Pixel { r: 255, g: 255, b: 255, a: 0 }
}

} // verus!
