//! The eager, contiguous-buffer image: all pixels stored as one flat
//! row-major RGBA byte buffer, built by sampling any image-capable source
//! exactly once per coordinate.

use vstd::prelude::*;
use crate::image::Image;
use crate::pixel::Rgba;

verus! {

/// The pixel stored at coordinate `(x, y)` of a row-major RGBA byte buffer
/// with the given width: the four channel bytes at offset
/// `4 * (y * width + x)`, red first.
pub open spec fn pixel_at(bytes: Seq<u8>, width: nat, x: int, y: int) -> Rgba {
    let off = 4 * (y * width + x);
    Rgba(bytes[off], bytes[off + 1], bytes[off + 2], bytes[off + 3])
}

/// The four buffer bytes where a pixel lies are exactly that pixel's channel
/// bytes: reading a pixel back out of a row-major buffer is the exact
/// inverse of writing it there.
pub proof fn lemma_pixel_at_bytes(bytes: Seq<u8>, width: nat, x: int, y: int)
    requires
        0 <= x < width,
        0 <= y,
        4 * (y * width + x) + 4 <= bytes.len(),
    ensures
        bytes.subrange(4 * (y * width + x), 4 * (y * width + x) + 4) == pixel_at(
            bytes,
            width,
            x,
            y,
        ).spec_bytes(),
{
    assert(bytes.subrange(4 * (y * width + x), 4 * (y * width + x) + 4) =~= pixel_at(
        bytes,
        width,
        x,
        y,
    ).spec_bytes());
}

/// In a `width`-by-`height` grid, the flat offset of an in-bounds coordinate
/// leaves room for its four bytes inside a `width * height * 4`-byte buffer.
proof fn lemma_flat_offset_bound(w: int, h: int, x: int, y: int)
    requires
        0 <= x < w,
        0 <= y < h,
    ensures
        y * w + x < w * h,
{
    assert(y * w + x < w * h) by (nonlinear_arith)
        requires
            0 <= x < w,
            0 <= y < h,
    ;
}

/// Flat offsets respect the row-major traversal order: a coordinate of an
/// earlier row, or an earlier column of the same row, has a smaller offset.
proof fn lemma_flat_offset_order(w: int, i: int, j: int, x: int, y: int)
    requires
        0 <= i < w,
        0 <= j,
        0 <= x,
        j < y || (j == y && i < x),
    ensures
        j * w + i < y * w + x,
{
    assert(j * w + i < y * w + x) by (nonlinear_arith)
        requires
            0 <= i < w,
            0 <= j,
            0 <= x,
            j < y || (j == y && i < x),
    ;
}

/// A raw RGBA image that can be converted easily to/from a PNG.
///
/// Owns a byte buffer of exactly `width * height * 4` bytes, row-major: row
/// zero first, each row left to right, four bytes per pixel, no row padding.
/// The length invariant holds for the lifetime of the value; a mismatched
/// buffer is rejected at construction.
pub struct Png {
    width: usize,
    height: usize,
    buffer: Vec<u8>,
}

impl Png {
    /// The buffer holds exactly four bytes for every pixel of the grid.
    #[verifier::type_invariant]
    pub closed spec fn wf(self) -> bool {
        self.buffer@.len() == self.width * self.height * 4
    }

    /// The width, in pixels.
    pub closed spec fn spec_width(self) -> nat {
        self.width as nat
    }

    /// The height, in pixels.
    pub closed spec fn spec_height(self) -> nat {
        self.height as nat
    }

    /// The raw row-major RGBA bytes.
    pub closed spec fn spec_buffer(self) -> Seq<u8> {
        self.buffer@
    }

    /// The pixel at `(x, y)`, as stored in the flat buffer.
    pub open spec fn spec_pixel(self, x: int, y: int) -> Rgba {
        pixel_at(self.spec_buffer(), self.spec_width(), x, y)
    }

    /// Creates a new PNG given the width, height, and raw RGBA image data.
    ///
    /// The buffer must hold exactly `width * height * 4` bytes; callers that
    /// cannot show this use `try_from_bytes`, which rejects a mismatch at
    /// run time instead.
    pub fn from_bytes(width: usize, height: usize, buffer: Vec<u8>) -> (png: Png)
        requires
            buffer@.len() == width * height * 4,
        ensures
            png.spec_width() == width as nat,
            png.spec_height() == height as nat,
            png.spec_buffer() == buffer@,
    {
        Png { width, height, buffer }
    }

    /// Checked construction: accepts the buffer exactly when it holds
    /// `width * height * 4` bytes, and rejects every mismatched length,
    /// too short or too long.
    pub fn try_from_bytes(width: usize, height: usize, buffer: Vec<u8>) -> (r: Option<Png>)
        ensures
            buffer@.len() == width * height * 4 ==> (r matches Some(png) && png.spec_width()
                == width as nat && png.spec_height() == height as nat && png.spec_buffer()
                == buffer@),
            buffer@.len() != width * height * 4 ==> r is None,
    {
        let n = buffer.len();
        let pixels = match width.checked_mul(height) {
            Some(p) => p,
            None => {
                return None;
            },
        };
        let bytes_needed = match pixels.checked_mul(4) {
            Some(b) => b,
            None => {
                return None;
            },
        };
        if n == bytes_needed {
            Some(Png { width, height, buffer })
        } else {
            None
        }
    }

    /// Borrows the buffer that the PNG was created with.
    pub fn buffer(&self) -> (buf: &Vec<u8>)
        ensures
            buf@ == self.spec_buffer(),
            buf@.len() == self.spec_width() * self.spec_height() * 4,
    {
        proof {
            use_type_invariant(self);
        }
        &self.buffer
    }

    /// Recovers the buffer that the PNG was created with.
    ///
    /// This operation destroys the PNG, since mutations to the buffer could
    /// alter its length and so break the layout invariant.
    pub fn into_buffer(self) -> (buf: Vec<u8>)
        ensures
            buf@ == self.spec_buffer(),
            buf@.len() == self.spec_width() * self.spec_height() * 4,
    {
        proof {
            use_type_invariant(&self);
        }
        let Png { width: _, height: _, buffer } = self;
        buffer
    }

    /// Creates a new image from the given frame, sampling it exactly once
    /// per coordinate.
    ///
    /// Materialization walks the grid row-major — each row from the top,
    /// each row left to right — and appends the four channel bytes of every
    /// sampled pixel, so the result stores the same grid of pixels as the
    /// source.
    pub fn new<I: Image>(frame: I) -> (png: Png)
        requires
            frame.img_width() * frame.img_height() * 4 <= usize::MAX,
        ensures
            png.spec_width() == frame.img_width(),
            png.spec_height() == frame.img_height(),
            png.spec_buffer().len() == frame.img_width() * frame.img_height() * 4,
            forall|x: int, y: int|
                0 <= x < frame.img_width() && 0 <= y < frame.img_height() ==> #[trigger] png
                    .spec_pixel(x, y) == frame.img_pixel(x, y),
    {
        let w = frame.width();
        let h = frame.height();
        let mut buffer: Vec<u8> = Vec::new();
        let mut y: usize = 0;
        while y < h
            invariant
                w as nat == frame.img_width(),
                h as nat == frame.img_height(),
                w * h * 4 <= usize::MAX,
                y <= h,
                buffer@.len() == 4 * (y * w),
                forall|i: int, j: int|
                    0 <= i < w && 0 <= j < y ==> #[trigger] pixel_at(buffer@, w as nat, i, j)
                        == frame.img_pixel(i, j),
            decreases h - y,
        {
            let mut x: usize = 0;
            while x < w
                invariant
                    w as nat == frame.img_width(),
                    h as nat == frame.img_height(),
                    w * h * 4 <= usize::MAX,
                    y < h,
                    x <= w,
                    buffer@.len() == 4 * (y * w + x),
                    forall|i: int, j: int|
                        0 <= i < w && 0 <= j < y ==> #[trigger] pixel_at(buffer@, w as nat, i, j)
                            == frame.img_pixel(i, j),
                    forall|i: int|
                        0 <= i < x ==> #[trigger] pixel_at(buffer@, w as nat, i, y as int)
                            == frame.img_pixel(i, y as int),
                decreases w - x,
            {
                let p = frame.pixel(x, y);
                proof {
                    lemma_flat_offset_bound(w as int, h as int, x as int, y as int);
                }
                let ghost prev = buffer@;
                buffer.push(p.0);
                buffer.push(p.1);
                buffer.push(p.2);
                buffer.push(p.3);
                proof {
                    assert(buffer@.len() == prev.len() + 4);
                    assert(forall|k: int| 0 <= k < prev.len() ==> buffer@[k] == prev[k]);
                    assert forall|i: int, j: int|
                        0 <= i < w && (0 <= j < y || (j == y && 0 <= i < x)) implies #[trigger] pixel_at(
                        buffer@,
                        w as nat,
                        i,
                        j,
                    ) == pixel_at(prev, w as nat, i, j) by {
                        lemma_flat_offset_order(w as int, i, j, x as int, y as int);
                        assert(4 * (j * w + i) + 3 < prev.len());
                    }
                    assert(pixel_at(buffer@, w as nat, x as int, y as int) == p);
                }
                x = x + 1;
            }
            proof {
                assert(y * w + w == (y + 1) * w) by (nonlinear_arith);
            }
            y = y + 1;
        }
        proof {
            assert(4 * (h * w) == w * h * 4) by (nonlinear_arith);
        }
        Png { width: w, height: h, buffer }
    }
}

impl Image for Png {
    open spec fn img_width(&self) -> nat {
        self.spec_width()
    }

    open spec fn img_height(&self) -> nat {
        self.spec_height()
    }

    open spec fn img_pixel(&self, x: int, y: int) -> Rgba {
        self.spec_pixel(x, y)
    }

    fn width(&self) -> usize {
        self.width
    }

    fn height(&self) -> usize {
        self.height
    }

    fn pixel(&self, x: usize, y: usize) -> (p: Rgba) {
        proof {
            use_type_invariant(self);
            lemma_flat_offset_bound(self.width as int, self.height as int, x as int, y as int);
        }
        let n = self.buffer.len();
        assert(4 * (y * self.width + x) + 4 <= n);
        let off = 4 * (y * self.width + x);
        Rgba(self.buffer[off], self.buffer[off + 1], self.buffer[off + 2], self.buffer[off + 3])
    }
}

} // verus!
