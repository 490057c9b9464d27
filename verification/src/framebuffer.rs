//! The image buffer a render fills: quantized pixels in raster order.

use vstd::prelude::*;
use crate::color::Rgb;

verus! {

/// A rasterized image: `width * height` pixels, row by row from the top.
pub struct Image {
    pub width: u32,
    pub height: u32,
    pub pixels: Vec<Rgb>,
}

/// The entry for column `x` of row `y` in a raster-ordered pixel buffer.
pub open spec fn pixel_entry(pixels: Seq<Rgb>, width: u32, x: u32, y: u32) -> Rgb {
    pixels[y * width + x]
}

/// The pixel an image stores at column `x` of row `y`.
pub open spec fn spec_pixel(img: Image, x: u32, y: u32) -> Rgb {
    pixel_entry(img.pixels@, img.width, x, y)
}

impl Image {
    /// The pixel buffer covers exactly the stated dimensions.
    pub open spec fn wf(&self) -> bool {
        self.pixels@.len() == self.width * self.height
    }

    /// The pixel at column `x` of row `y`.
    pub fn pixel(&self, x: u32, y: u32) -> (r: Rgb)
        requires
            self.wf(),
            x < self.width,
            y < self.height,
        ensures
            r == self.pixels@[y * self.width + x],
            r == spec_pixel(*self, x, y),
    {
        let n = self.pixels.len();
        proof {
            vstd::arithmetic::mul::lemma_mul_inequality(
                y as int + 1,
                self.height as int,
                self.width as int,
            );
            assert((y as int + 1) * self.width == y * self.width + self.width)
                by (nonlinear_arith);
            assert(self.height * self.width == self.width * self.height) by (nonlinear_arith);
            assert(y * self.width + x < self.pixels@.len());
            assert(((y as usize) as int) * ((self.width as usize) as int) == (y as int) * (
            self.width as int)) by (nonlinear_arith)
                requires
                    (y as usize) as int == y as int,
                    (self.width as usize) as int == self.width as int,
            ;
        }
        self.pixels[(y as usize) * (self.width as usize) + (x as usize)]
    }
}

} // verus!
