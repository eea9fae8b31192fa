//! The canvas: a width-by-height RGBA pixel buffer, row-major.

use vstd::prelude::*;
use vstd::arithmetic::mul::*;
use crate::color::Color;

verus! {

/// A pixel buffer of `width * height` RGBA pixels in row-major order, four
/// bytes per pixel.
#[derive(Debug)]
pub struct Canvas {
    width: u32,
    height: u32,
    pixels: Vec<u8>,
}

/// The color of pixel `i` in a raw RGBA byte sequence.
pub open spec fn pixel_of(bytes: Seq<u8>, i: int) -> Color {
    Color { r: bytes[4 * i], g: bytes[4 * i + 1], b: bytes[4 * i + 2], a: bytes[4 * i + 3] }
}

impl Canvas {
    pub closed spec fn spec_width(self) -> u32 {
        self.width
    }

    pub closed spec fn spec_height(self) -> u32 {
        self.height
    }

    /// The raw RGBA bytes of the canvas.
    pub closed spec fn bytes(self) -> Seq<u8> {
        self.pixels@
    }

    /// Well-formedness: the byte buffer holds exactly four bytes per pixel.
    pub open spec fn wf(self) -> bool {
        self.bytes().len() == 4 * self.spec_width() * self.spec_height()
    }

    /// The color of the pixel at (row-major) index `i`.
    pub open spec fn spec_pixel_at(self, i: int) -> Color {
        pixel_of(self.bytes(), i)
    }

    pub fn width(&self) -> (w: u32)
        ensures
            w == self.spec_width(),
    {
        self.width
    }

    pub fn height(&self) -> (h: u32)
        ensures
            h == self.spec_height(),
    {
        self.height
    }

    /// A canvas of the requested dimensions with every pixel set to `color`.
    pub fn filled(width: u32, height: u32, color: Color) -> (c: Canvas)
        requires
            4 * (width as int) * (height as int) <= usize::MAX,
        ensures
            c.wf(),
            c.spec_width() == width,
            c.spec_height() == height,
            forall|i: int|
                0 <= i < (width as int) * (height as int) ==> c.spec_pixel_at(i) == color,
    {
        proof {
            lemma_mul_nonnegative(width as int, height as int);
            lemma_mul_is_associative(4, width as int, height as int);
        }
        let count: usize = (width as usize) * (height as usize);
        let mut pixels: Vec<u8> = Vec::new();
        let mut i: usize = 0;
        while i < count
            invariant
                0 <= i <= count,
                count == (width as int) * (height as int),
                4 * count <= usize::MAX,
                pixels@.len() == 4 * i,
                forall|j: int| 0 <= j < i ==> pixel_of(pixels@, j) == color,
            decreases count - i,
        {
            let ghost prev = pixels@;
            pixels.push(color.r);
            pixels.push(color.g);
            pixels.push(color.b);
            pixels.push(color.a);
            proof {
                assert(pixels@ =~= prev + seq![color.r, color.g, color.b, color.a]);
                assert forall|j: int| 0 <= j <= i implies pixel_of(pixels@, j) == color by {
                    if j < i {
                        assert(pixel_of(prev, j) == color);
                        assert(pixel_of(pixels@, j) == pixel_of(prev, j));
                    }
                }
            }
            i += 1;
        }
        let c = Canvas { width, height, pixels };
        proof {
            assert forall|k: int|
                0 <= k < (width as int) * (height as int) implies c.spec_pixel_at(k) == color by {
                assert(pixel_of(c.bytes(), k) == color);
            }
        }
        c
    }

    /// Wraps an existing RGBA byte buffer as a canvas; rejects a buffer whose
    /// length does not match the dimensions.
    pub fn from_rgba(width: u32, height: u32, pixels: Vec<u8>) -> (c: Option<Canvas>)
        ensures
            c is Some <==> pixels@.len() == 4 * (width as int) * (height as int),
            c matches Some(cv) ==> cv.wf() && cv.spec_width() == width && cv.spec_height()
                == height && cv.bytes() == pixels@,
    {
        proof {
            lemma_mul_nonnegative(width as int, height as int);
            lemma_mul_is_associative(4, width as int, height as int);
            lemma_mul_upper_bound(width as int, 0xffff_ffff, height as int, 0xffff_ffff);
        }
        let len = pixels.len();
        let wh: u64 = (width as u64) * (height as u64);
        if wh > u64::MAX / 4 {
            return None;
        }
        let need: u64 = 4 * wh;
        if (len as u64) == need {
            Some(Canvas { width, height, pixels })
        } else {
            None
        }
    }

    /// Hands the raw RGBA bytes back, consuming the canvas.
    pub fn into_rgba(self) -> (b: Vec<u8>)
        ensures
            b@ == self.bytes(),
    {
        self.pixels
    }

    /// Borrows the raw RGBA bytes.
    pub fn rgba_bytes(&self) -> (b: &Vec<u8>)
        ensures
            b@ == self.bytes(),
    {
        &self.pixels
    }

    /// The color of the pixel at column `x`, row `y`.
    pub fn pixel(&self, x: u32, y: u32) -> (p: Color)
        requires
            self.wf(),
            x < self.spec_width(),
            y < self.spec_height(),
        ensures
            p == self.spec_pixel_at((y as int) * (self.spec_width() as int) + (x as int)),
    {
        proof {
            lemma_row_major_in_range(
                self.spec_width() as int,
                self.spec_height() as int,
                x as int,
                y as int,
            );
        }
        let len: usize = self.pixels.len();
        let idx: usize = (y as usize) * (self.width as usize) + (x as usize);
        let base: usize = 4 * idx;
        assert(base + 3 < len);
        Color {
            r: self.pixels[base],
            g: self.pixels[base + 1],
            b: self.pixels[base + 2],
            a: self.pixels[base + 3],
        }
    }
}

proof fn lemma_row_major_in_range(w: int, h: int, x: int, y: int)
    requires
        0 <= x < w,
        0 <= y < h,
    ensures
        0 <= y * w + x,
        y * w + x < w * h,
        4 * (y * w + x) + 3 < 4 * w * h,
        0 <= w * h,
{
    assert(y * w + x < w * h && 0 <= y * w) by (nonlinear_arith)
        requires
            0 <= x < w,
            0 <= y < h,
    ;
    lemma_mul_is_associative(4, w, h);
}

} // verus!
