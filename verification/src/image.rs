//! The pixel buffer that a job reads.

use crate::color::Color;
use vstd::prelude::*;

verus! {

/// An image with four bytes per pixel, red, green, blue and alpha, row by
/// row from the top left.
#[derive(Clone, Debug)]
pub struct ColorImage {
    pub pixels: Vec<u8>,
    pub width: usize,
    pub height: usize,
}

/// An image as a mathematical value.
pub struct Raster {
    pub pixels: Seq<u8>,
    pub width: nat,
    pub height: nat,
}

impl Raster {
    /// Whether the buffer holds exactly four bytes for each pixel.
    pub open spec fn wf(self) -> bool {
        self.pixels.len() == 4 * (self.width * self.height)
    }

    /// The number of pixels.
    pub open spec fn len(self) -> nat {
        self.width * self.height
    }

    /// The colour of the pixel with index `i`.
    pub open spec fn pixel(self, i: int) -> Color {
        Color {
            r: self.pixels[4 * i],
            g: self.pixels[4 * i + 1],
            b: self.pixels[4 * i + 2],
            a: self.pixels[4 * i + 3],
        }
    }

    /// The colour of the pixel in column `x` of row `y`.
    pub open spec fn at(self, x: int, y: int) -> Color {
        self.pixel(y * self.width + x)
    }
}

impl View for ColorImage {
    type V = Raster;

    open spec fn view(&self) -> Raster {
        Raster { pixels: self.pixels@, width: self.width as nat, height: self.height as nat }
    }
}

/// A pixel of an image has an index below the number of pixels.
pub proof fn pixel_index_in_range(x: int, y: int, width: int, height: int)
    requires
        0 <= x < width,
        0 <= y < height,
    ensures
        0 <= y * width + x < width * height,
{
    assert(y * width + x < width * height) by (nonlinear_arith)
        requires
            0 <= x < width,
            0 <= y < height,
    ;
    assert(0 <= y * width) by (nonlinear_arith)
        requires
            0 <= y,
            0 <= width,
    ;
}

impl ColorImage {
    /// The image without pixels.
    pub fn new() -> (image: ColorImage)
        ensures
            image@.pixels.len() == 0,
            image@.width == 0,
            image@.height == 0,
            image@.wf(),
    {
        ColorImage { pixels: Vec::new(), width: 0, height: 0 }
    }

    /// The number of pixels, if the buffer holds exactly four bytes for
    /// each.
    pub fn pixel_count(&self) -> (count: Option<usize>)
        ensures
            count is Some <==> self@.wf(),
            count matches Some(n) ==> n == self@.len(),
    {
        let bytes = self.pixels.len();
        if self.width == 0 || self.height == 0 {
            proof {
                assert(self@.width * self@.height == 0) by (nonlinear_arith)
                    requires
                        self@.width == 0 || self@.height == 0,
                ;
            }
            return if bytes == 0 {
                Some(0)
            } else {
                None
            };
        }
        let quads = bytes / 4;
        // the buffer has room for `quads / width` rows
        if bytes % 4 != 0 || quads / self.width != self.height || quads % self.width != 0 {
            proof {
                let w = self.width as int;
                let h = self.height as int;
                if self@.wf() {
                    assert(self@.width * self@.height == w * h);
                    assert(quads == w * h);
                    vstd::arithmetic::div_mod::lemma_fundamental_div_mod_converse(quads as int, w, h, 0);
                }
            }
            return None;
        }
        proof {
            let w = self.width as int;
            vstd::arithmetic::div_mod::lemma_fundamental_div_mod(quads as int, w);
            assert(self@.width * self@.height == w * (quads as int / w));
        }
        Some(quads)
    }

    /// The colour of the pixel in column `x` of row `y`.
    pub fn get_pixel(&self, x: usize, y: usize) -> (c: Color)
        requires
            self@.wf(),
            x < self.width,
            y < self.height,
        ensures
            c == self@.at(x as int, y as int),
    {
        let bytes = self.pixels.len();
        proof {
            let w = self.width as int;
            let h = self.height as int;
            pixel_index_in_range(x as int, y as int, w, h);
            assert(self@.pixels.len() == 4 * (self@.width * self@.height));
            assert(self@.width * self@.height == w * h);
            assert(0 <= (y as int) * w) by (nonlinear_arith)
                requires
                    0 <= y,
                    0 <= w,
            ;
            assert(4 * ((y as int) * w + x) + 3 < bytes);
        }
        let index = (y * self.width + x) * 4;
        Color::new_rgba(
            self.pixels[index],
            self.pixels[index + 1],
            self.pixels[index + 2],
            self.pixels[index + 3],
        )
    }
}

} // verus!
