use vstd::prelude::*;
use vstd::pervasive::VecAdditionalExecFns;

verus! {

/// An in-memory RGBA image: 8 bits per channel, rows stored top to bottom,
/// four bytes per pixel in R, G, B, A order.
#[derive(Debug)]
pub struct Raster {
    pub width: u32,
    pub height: u32,
    pub pixels: Vec<u8>,
}

/// Byte index of channel `c` of the pixel at column `x`, row `y`, in a raster
/// that is `w` pixels wide.
pub open spec fn pixel_index(w: int, x: int, y: int, c: int) -> int {
    (y * w + x) * 4 + c
}

impl Raster {
    /// The buffer holds exactly four bytes for every pixel.
    pub open spec fn wf(&self) -> bool {
        self.pixels@.len() == self.width * self.height * 4
    }

    /// Channel `c` of the pixel at `(x, y)`, as a spec value.
    pub open spec fn channel(&self, x: int, y: int, c: int) -> u8 {
        self.pixels@[pixel_index(self.width as int, x, y, c)]
    }

    /// The R, G, B, A bytes of the pixel at `(x, y)`.
    pub fn get_pixel(&self, x: u32, y: u32) -> (r: (u8, u8, u8, u8))
        requires
            self.wf(),
            x < self.width,
            y < self.height,
        ensures
            r.0 == self.channel(x as int, y as int, 0),
            r.1 == self.channel(x as int, y as int, 1),
            r.2 == self.channel(x as int, y as int, 2),
            r.3 == self.channel(x as int, y as int, 3),
    {
        let base = self.channel_base_index(x, y);
        (self.pixels[base], self.pixels[base + 1], self.pixels[base + 2], self.pixels[base + 3])
    }

    /// Overwrite the pixel at `(x, y)` with the given R, G, B, A bytes; every
    /// other pixel keeps its value.
    pub fn set_pixel(&mut self, x: u32, y: u32, px: (u8, u8, u8, u8))
        requires
            old(self).wf(),
            x < old(self).width,
            y < old(self).height,
        ensures
            final(self).wf(),
            final(self).width == old(self).width,
            final(self).height == old(self).height,
            forall|x2: int, y2: int, c2: int|
                0 <= x2 < old(self).width && 0 <= y2 < old(self).height && 0 <= c2 < 4
                    ==> #[trigger] final(self).channel(x2, y2, c2) == (
                    if x2 == x && y2 == y {
                        if c2 == 0 { px.0 } else if c2 == 1 { px.1 } else if c2 == 2 { px.2 }
                        else { px.3 }
                    } else {
                        old(self).channel(x2, y2, c2)
                    }
                ),
    {
        let base = self.channel_base_index(x, y);
        self.pixels.set(base, px.0);
        self.pixels.set(base + 1, px.1);
        self.pixels.set(base + 2, px.2);
        self.pixels.set(base + 3, px.3);
        proof {
            let w = self.width as int;
            let h = self.height as int;
            lemma_pixel_index_bounds(w, h, x as int, y as int, 0);
            lemma_pixel_index_bounds(w, h, x as int, y as int, 3);
            assert(pixel_index(w, x as int, y as int, 0) == base);
            assert(pixel_index(w, x as int, y as int, 1) == base + 1);
            assert(pixel_index(w, x as int, y as int, 2) == base + 2);
            assert(pixel_index(w, x as int, y as int, 3) == base + 3);
            assert forall|x2: int, y2: int, c2: int|
                0 <= x2 < w && 0 <= y2 < h && 0 <= c2 < 4 implies #[trigger] self.channel(
                x2, y2, c2,
            ) == (
                if x2 == x && y2 == y {
                    if c2 == 0 { px.0 } else if c2 == 1 { px.1 } else if c2 == 2 { px.2 }
                    else { px.3 }
                } else {
                    old(self).channel(x2, y2, c2)
                }
            ) by {
                lemma_pixel_index_bounds(w, h, x2, y2, c2);
                if x2 == x && y2 == y {
                } else {
                    assert forall|c3: int| 0 <= c3 < 4 implies pixel_index(w, x2, y2, c2)
                        != pixel_index(w, x as int, y as int, c3) by {
                        if pixel_index(w, x2, y2, c2) == pixel_index(w, x as int, y as int, c3) {
                            lemma_pixel_index_injective(w, x2, y2, c2, x as int, y as int, c3);
                        }
                    }
                }
            }
        }
    }

    /// Byte index of channel 0 of the pixel at `(x, y)`, with its bound.
    fn channel_base_index(&self, x: u32, y: u32) -> (r: usize)
        requires
            self.wf(),
            x < self.width,
            y < self.height,
        ensures
            r == pixel_index(self.width as int, x as int, y as int, 0),
            r + 3 < self.pixels@.len(),
    {
        let n = self.pixels.len();
        proof {
            lemma_pixel_index_bounds(self.width as int, self.height as int, x as int, y as int, 0);
            lemma_pixel_index_bounds(self.width as int, self.height as int, x as int, y as int, 3);
            assert(0 <= (y as int) * (self.width as int)) by (nonlinear_arith);
        }
        (y as usize * self.width as usize + x as usize) * 4
    }
}

/// The byte index of any in-bounds channel lies inside the buffer.
pub proof fn lemma_pixel_index_bounds(w: int, h: int, x: int, y: int, c: int)
    by (nonlinear_arith)
    requires
        0 <= x < w,
        0 <= y < h,
        0 <= c < 4,
    ensures
        0 <= pixel_index(w, x, y, c) < w * h * 4,
{
}

/// Distinct in-bounds coordinates are stored at distinct byte indexes.
pub proof fn lemma_pixel_index_injective(w: int, x1: int, y1: int, c1: int, x2: int, y2: int, c2: int)
    by (nonlinear_arith)
    requires
        0 <= x1 < w,
        0 <= x2 < w,
        0 <= y1,
        0 <= y2,
        0 <= c1 < 4,
        0 <= c2 < 4,
        pixel_index(w, x1, y1, c1) == pixel_index(w, x2, y2, c2),
    ensures
        x1 == x2 && y1 == y2 && c1 == c2,
{
}

} // verus!
