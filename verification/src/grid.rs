//! Pixel grids: rectangular, row-major RGBA images.

use vstd::prelude::*;

verus! {

/// One RGBA pixel. An alpha of zero is fully transparent; any other alpha is
/// treated as opaque.
#[derive(Clone, Copy, Debug, PartialEq, Eq, Structural)]
pub struct Pixel {
    pub r: u8,
    pub g: u8,
    pub b: u8,
    pub a: u8,
}

/// The mathematical content of a grid: its dimensions and its pixels, row
/// after row.
pub struct GridView {
    pub width: nat,
    pub height: nat,
    pub pixels: Seq<Pixel>,
}

impl GridView {
    /// The pixel sequence has one entry per position.
    pub open spec fn wf(self) -> bool {
        self.pixels.len() == self.width * self.height
    }

    /// The pixel in row `row`, column `col`.
    pub open spec fn pixel(self, row: int, col: int) -> Pixel {
        self.pixels[row * self.width + col]
    }
}

/// An immutable rectangle of pixels in row-major order.
pub struct PixelGrid {
    width: u32,
    height: u32,
    pixels: Vec<Pixel>,
}

/// The position of `(row, col)` in row-major order lies inside the grid.
pub proof fn lemma_position_in_range(width: int, height: int, row: int, col: int)
    requires
        0 <= row < height,
        0 <= col < width,
    ensures
        0 <= row * width,
        row * width + col < width * height,
{
    assert(0 <= row * width && row * width + width <= width * height) by (nonlinear_arith)
        requires
            0 <= row,
            row + 1 <= height,
            0 <= width,
    ;
}

/// The product of two 32-bit numbers fits in 64 bits.
proof fn lemma_area_fits(width: u32, height: u32)
    ensures
        0 <= width * height <= u64::MAX,
{
    assert(0 <= width * height <= 0xffff_ffff * 0xffff_ffff) by (nonlinear_arith)
        requires
            0 <= width <= 0xffff_ffff,
            0 <= height <= 0xffff_ffff,
    ;
}

impl View for PixelGrid {
    type V = GridView;

    closed spec fn view(&self) -> GridView {
        GridView { width: self.width as nat, height: self.height as nat, pixels: self.pixels@ }
    }
}

impl PixelGrid {
    #[verifier::type_invariant]
    spec fn well_formed(self) -> bool {
        self.pixels@.len() == self.width * self.height
    }

    /// Builds a grid from its dimensions and its pixels in row-major order.
    /// The pixel count has to match the dimensions.
    pub fn new(width: u32, height: u32, pixels: Vec<Pixel>) -> (grid: Option<PixelGrid>)
        ensures
            grid is Some <==> pixels@.len() == width * height,
            grid matches Some(g) ==> g@ == (GridView {
                width: width as nat,
                height: height as nat,
                pixels: pixels@,
            }),
    {
        proof {
            lemma_area_fits(width, height);
        }
        let expected: u64 = width as u64 * height as u64;
        if pixels.len() as u64 == expected {
            Some(PixelGrid { width, height, pixels })
        } else {
            None
        }
    }

    /// Builds a grid from RGBA bytes, four per pixel, in row-major order.
    pub fn from_rgba(width: u32, height: u32, bytes: &[u8]) -> (grid: Option<PixelGrid>)
        ensures
            grid is Some <==> bytes@.len() == 4 * (width * height),
            grid matches Some(g) ==> {
                &&& g@.width == width
                &&& g@.height == height
                &&& g@.pixels.len() == width * height
                &&& forall|i: int|
                    0 <= i < width * height ==> #[trigger] g@.pixels[i] == (Pixel {
                        r: bytes@[4 * i],
                        g: bytes@[4 * i + 1],
                        b: bytes@[4 * i + 2],
                        a: bytes@[4 * i + 3],
                    })
            },
    {
        proof {
            lemma_area_fits(width, height);
        }
        let count: u64 = width as u64 * height as u64;
        let len: usize = bytes.len();
        if len % 4 != 0 || (len / 4) as u64 != count {
            return None;
        }
        let n: usize = len / 4;
        let mut pixels: Vec<Pixel> = Vec::with_capacity(n);
        let mut i: usize = 0;
        while i < n
            invariant
                i <= n,
                len == bytes@.len(),
                len == 4 * n,
                pixels@.len() == i,
                forall|j: int|
                    0 <= j < i ==> #[trigger] pixels@[j] == (Pixel {
                        r: bytes@[4 * j],
                        g: bytes@[4 * j + 1],
                        b: bytes@[4 * j + 2],
                        a: bytes@[4 * j + 3],
                    }),
            decreases n - i,
        {
            let at: usize = 4 * i;
            pixels.push(Pixel { r: bytes[at], g: bytes[at + 1], b: bytes[at + 2], a: bytes[at + 3] });
            i += 1;
        }
        Some(PixelGrid { width, height, pixels })
    }

    /// The number of pixel columns.
    pub fn width(&self) -> (width: u32)
        ensures
            width == self@.width,
            self@.wf(),
    {
        proof {
            use_type_invariant(self);
        }
        self.width
    }

    /// The number of pixel rows.
    pub fn height(&self) -> (height: u32)
        ensures
            height == self@.height,
            self@.wf(),
    {
        proof {
            use_type_invariant(self);
        }
        self.height
    }

    /// The pixel in row `row`, column `col`.
    pub fn pixel(&self, row: u32, col: u32) -> (pixel: Pixel)
        requires
            row < self@.height,
            col < self@.width,
        ensures
            pixel == self@.pixel(row as int, col as int),
    {
        let count: usize = self.pixels.len();
        proof {
            use_type_invariant(self);
            lemma_position_in_range(self.width as int, self.height as int, row as int, col as int);
            assert(row * self.width + col < count);
        }
        let at: usize = row as usize * self.width as usize + col as usize;
        self.pixels[at]
    }

    /// The pixel in row `row`, column `col`, if the grid has one there.
    pub fn get(&self, row: u32, col: u32) -> (pixel: Option<Pixel>)
        ensures
            pixel == if row < self@.height && col < self@.width {
                Some(self@.pixel(row as int, col as int))
            } else {
                None
            },
    {
        if row < self.height && col < self.width {
            Some(self.pixel(row, col))
        } else {
            None
        }
    }
}

} // verus!
