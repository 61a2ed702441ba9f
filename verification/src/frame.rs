//! The raster frame model: a rectangular grid of 24-bit RGB pixels,
//! stored row-major, as the renderer receives it from the frame source.

use vstd::prelude::*;

verus! {

/// One 24-bit RGB pixel.
#[derive(Clone, Copy, Debug, PartialEq, Eq, Structural)]
pub struct Pixel {
    pub r: u8,
    pub g: u8,
    pub b: u8,
}

/// An immutable rectangular grid of pixels. The grid is stored row-major:
/// the pixel at column `x` of row `y` sits at index `y * width + x`.
#[derive(Debug)]
pub struct Frame {
    width: u16,
    height: u16,
    pixels: Vec<Pixel>,
}

impl Frame {
    /// The grid holds exactly one pixel per position.
    pub open spec fn wf(self) -> bool {
        self.grid().len() == self.spec_width() * self.spec_height()
    }

    pub closed spec fn spec_width(self) -> u16 {
        self.width
    }

    pub closed spec fn spec_height(self) -> u16 {
        self.height
    }

    /// The pixels in row-major order.
    pub closed spec fn grid(self) -> Seq<Pixel> {
        self.pixels@
    }

    /// The pixel at column `x` of row `y`.
    pub open spec fn spec_pixel(self, x: int, y: int) -> Pixel {
        self.grid()[y * self.spec_width() + x]
    }

    /// Builds a frame from a pixel vector, rejecting a vector whose
    /// length does not match the dimensions.
    pub fn new(width: u16, height: u16, pixels: Vec<Pixel>) -> (r: Option<Frame>)
        ensures
            r is Some <==> pixels@.len() == width * height,
            r matches Some(f) ==> f.wf() && f.spec_width() == width && f.spec_height() == height
                && f.grid() == pixels@,
    {
        proof {
            assert((width * height) as int <= 65535 * 65535) by (nonlinear_arith)
                requires width <= 65535 && height <= 65535;
        }
        let count: usize = (width as usize) * (height as usize);
        if pixels.len() == count {
            Some(Frame { width, height, pixels })
        } else {
            None
        }
    }

    /// Builds a frame from raw bytes, three per pixel in R, G, B order,
    /// row-major — the layout an 8-bit RGB image buffer hands out.
    /// Rejects a byte slice whose length does not match the dimensions.
    pub fn from_raw(width: u16, height: u16, bytes: &[u8]) -> (r: Option<Frame>)
        ensures
            r is Some <==> bytes@.len() == 3 * (width * height),
            r matches Some(f) ==> f.wf() && f.spec_width() == width && f.spec_height() == height
                && (forall|i: int| 0 <= i < width * height ==> f.grid()[i] == (Pixel {
                    r: bytes@[3 * i],
                    g: bytes@[3 * i + 1],
                    b: bytes@[3 * i + 2],
                })),
    {
        proof {
            assert((width * height) as int <= 65535 * 65535) by (nonlinear_arith)
                requires width <= 65535 && height <= 65535;
        }
        let count: usize = (width as usize) * (height as usize);
        let total: usize = bytes.len();
        if (total as u64) != 3 * (count as u64) {
            return None;
        }
        let mut pixels: Vec<Pixel> = Vec::new();
        let mut i: usize = 0;
        while i < count
            invariant
                count == width * height,
                total == bytes@.len(),
                total == 3 * count,
                i <= count,
                pixels@.len() == i,
                forall|j: int| 0 <= j < i ==> pixels@[j] == (Pixel {
                    r: bytes@[3 * j],
                    g: bytes@[3 * j + 1],
                    b: bytes@[3 * j + 2],
                }),
            decreases count - i,
        {
            let p = Pixel { r: bytes[3 * i], g: bytes[3 * i + 1], b: bytes[3 * i + 2] };
            pixels.push(p);
            i = i + 1;
        }
        Some(Frame { width, height, pixels })
    }

    pub fn width(&self) -> (w: u16)
        ensures
            w == self.spec_width(),
    {
        self.width
    }

    pub fn height(&self) -> (h: u16)
        ensures
            h == self.spec_height(),
    {
        self.height
    }

    /// The pixel at row-major position `i`.
    pub fn pixel_at(&self, i: usize) -> (p: Pixel)
        requires
            i < self.grid().len(),
        ensures
            p == self.grid()[i as int],
    {
        self.pixels[i]
    }

    /// The pixel at column `x` of row `y`.
    pub fn pixel(&self, x: u16, y: u16) -> (p: Pixel)
        requires
            self.wf(),
            x < self.spec_width(),
            y < self.spec_height(),
        ensures
            p == self.spec_pixel(x as int, y as int),
    {
        proof {
            assert(y * self.width + x < self.width * self.height && self.width * self.height
                <= 65535 * 65535) by (nonlinear_arith)
                requires x < self.width && y < self.height && self.width <= 65535
                    && self.height <= 65535;
        }
        let idx: usize = (y as usize) * (self.width as usize) + (x as usize);
        self.pixels[idx]
    }
}

} // verus!
