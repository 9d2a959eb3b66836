//! The image capability: the width/height/pixel-access contract that every
//! image representation satisfies, plus a lazy pixel-wise transform.

use vstd::prelude::*;
use crate::pixel::Rgba;

verus! {

/// Anything that can report a width and a height and produce the pixel at
/// any in-bounds coordinate.
///
/// The fast accessor `pixel` demands a proof that the coordinate is in
/// bounds; the checked accessor `pixel_checked` turns an out-of-bounds
/// coordinate into `None` instead.
pub trait Image: Sized {
    /// The width of the image, in pixels.
    spec fn img_width(&self) -> nat;

    /// The height of the image, in pixels.
    spec fn img_height(&self) -> nat;

    /// The pixel at coordinate `(x, y)`; meaningful only when `0 <= x < width`
    /// and `0 <= y < height`.
    spec fn img_pixel(&self, x: int, y: int) -> Rgba;

    /// The width of the image, in pixels.
    fn width(&self) -> (w: usize)
        ensures
            w as nat == self.img_width(),
    ;

    /// The height of the image, in pixels.
    fn height(&self) -> (h: usize)
        ensures
            h as nat == self.img_height(),
    ;

    /// Unchecked pixel access: the caller must show the coordinate in bounds.
    fn pixel(&self, x: usize, y: usize) -> (p: Rgba)
        requires
            (x as nat) < self.img_width(),
            (y as nat) < self.img_height(),
        ensures
            p == self.img_pixel(x as int, y as int),
    ;

    /// Checked pixel access: out-of-bounds coordinates yield `None`.
    fn pixel_checked(&self, x: usize, y: usize) -> (p: Option<Rgba>)
        ensures
            ((x as nat) < self.img_width() && (y as nat) < self.img_height()) ==> (p
                == Some(self.img_pixel(x as int, y as int))),
            !((x as nat) < self.img_width() && (y as nat) < self.img_height()) ==> (p is None),
    {
        if x < self.width() && y < self.height() {
            Some(self.pixel(x, y))
        } else {
            None
        }
    }
}

/// A pure pixel-for-pixel color transform.
pub trait PixelTransform: Sized {
    /// The color the transform assigns to an input color.
    ///
    /// An implementation inside verified code overrides this to state what
    /// `transform` computes; an unverified implementation may leave the
    /// default, which specifies the identity.
    open spec fn spec_transform(&self, p: Rgba) -> Rgba {
        p
    }

    /// Applies the transform to one pixel.
    fn transform(&self, p: Rgba) -> (q: Rgba)
        ensures
            q == self.spec_transform(p),
    ;
}

/// A lazy pixel-wise mapping over another image: same dimensions, each pixel
/// transformed on access, no eager allocation.
pub struct Mapped<I, T> {
    inner: I,
    transform: T,
}

impl<I: Image, T: PixelTransform> Mapped<I, T> {
    /// Wraps `inner` so that every pixel read is passed through `transform`.
    pub fn new(inner: I, transform: T) -> (m: Mapped<I, T>)
        ensures
            m.img_width() == inner.img_width(),
            m.img_height() == inner.img_height(),
            forall|x: int, y: int|
                #[trigger] m.img_pixel(x, y) == transform.spec_transform(inner.img_pixel(x, y)),
    {
        Mapped { inner, transform }
    }
}

impl<I: Image, T: PixelTransform> Image for Mapped<I, T> {
    closed spec fn img_width(&self) -> nat {
        self.inner.img_width()
    }

    closed spec fn img_height(&self) -> nat {
        self.inner.img_height()
    }

    closed spec fn img_pixel(&self, x: int, y: int) -> Rgba {
        self.transform.spec_transform(self.inner.img_pixel(x, y))
    }

    fn width(&self) -> usize {
        self.inner.width()
    }

    fn height(&self) -> usize {
        self.inner.height()
    }

    fn pixel(&self, x: usize, y: usize) -> Rgba {
        self.transform.transform(self.inner.pixel(x, y))
    }
}

} // verus!
