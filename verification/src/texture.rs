//! Image texture storage and texel addressing.
//!
//! An image texture holds a decoded RGB image as a flat byte buffer, three
//! bytes per pixel, rows laid out one after another. The floating-point
//! texture lookup maps its unit-square coordinates to a (column, row) pair
//! and reads the pixel through [`ImageTexture::texel`], which clamps both
//! coordinates into the image and addresses the right three bytes.

use vstd::prelude::*;

verus! {

/// A decoded RGB image used to texture a surface.
#[derive(Clone)]
pub struct ImageTexture {
    pub data: Vec<u8>,
    pub width: u32,
    pub height: u32,
}

impl ImageTexture {
    /// True iff the buffer holds three bytes for every (column, row) pair.
    pub open spec fn well_formed(self) -> bool {
        self.data@.len() == 3 * (self.width as int) * (self.height as int)
    }

    /// Byte offset of the pixel at column `i`, row `j`.
    pub open spec fn spec_offset(self, i: int, j: int) -> int {
        3 * i + 3 * (self.width as int) * j
    }

    /// Column index clamped into the image.
    pub open spec fn spec_clamp_col(self, i: int) -> int {
        if i < self.width as int {
            i
        } else {
            self.width as int - 1
        }
    }

    /// Row index clamped into the image.
    pub open spec fn spec_clamp_row(self, j: int) -> int {
        if j < self.height as int {
            j
        } else {
            self.height as int - 1
        }
    }

    pub fn new(data: Vec<u8>, width: u32, height: u32) -> (r: ImageTexture)
        ensures
            r.data == data,
            r.width == width,
            r.height == height,
    {
        ImageTexture { data, width, height }
    }

    /// The three bytes of the pixel at column `i`, row `j`, each coordinate
    /// first clamped into the image; coordinates at or past the edge read
    /// the last column or row.
    pub fn texel(&self, i: usize, j: usize) -> (rgb: (u8, u8, u8))
        requires
            self.well_formed(),
            self.width >= 1,
            self.height >= 1,
        ensures
            ({
                let idx = self.spec_offset(self.spec_clamp_col(i as int), self.spec_clamp_row(j as int));
                rgb == (self.data@[idx], self.data@[idx + 1], self.data@[idx + 2])
            }),
    {
        let w = self.width as usize;
        let h = self.height as usize;
        let ci = if i > w - 1 {
            w - 1
        } else {
            i
        };
        let cj = if j > h - 1 {
            h - 1
        } else {
            j
        };
        let n = self.data.len();
        proof {
            assert(3 * ci + 3 * w * cj + 2 < 3 * w * h && 3 * w <= 3 * w * h) by (nonlinear_arith)
                requires
                    1 <= w,
                    1 <= h,
                    ci <= w - 1,
                    cj <= h - 1,
            ;
            assert(3 * ci + 3 * w * cj + 2 < n);
        }
        let idx = 3 * ci + 3 * w * cj;
        (self.data[idx], self.data[idx + 1], self.data[idx + 2])
    }
}

} // verus!
