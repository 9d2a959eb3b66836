//! The lazy, function-backed image: a pure coordinate-to-pixel mapping plus
//! dimensions, with no pixel storage at all.

use vstd::prelude::*;
use crate::image::Image;
use crate::pixel::Rgba;

verus! {

/// A pure coordinate-to-pixel mapping, the backing of a lazy image.
pub trait PixelMap: Sized {
    /// The color the mapping assigns to a coordinate.
    ///
    /// An implementation inside verified code overrides this to state what
    /// `at` computes; an unverified implementation may leave the default,
    /// which specifies nothing beyond a fixed color.
    open spec fn spec_at(&self, x: int, y: int) -> Rgba {
        Rgba(0, 0, 0, 0)
    }

    /// Computes the color at one coordinate.
    fn at(&self, x: usize, y: usize) -> (p: Rgba)
        ensures
            p == self.spec_at(x as int, y as int),
    ;
}

/// An image backed by a pure mapping: `pixel(x, y)` recomputes the mapping
/// on every access, so arbitrarily large procedural images exist without
/// allocating a buffer until they are materialized.
pub struct Lazy<M> {
    width: usize,
    height: usize,
    mapping: M,
}

impl<M: PixelMap> Lazy<M> {
    /// Wraps a mapping and the dimensions it should be sampled over.
    pub fn new(width: usize, height: usize, mapping: M) -> (img: Lazy<M>)
        ensures
            img.img_width() == width as nat,
            img.img_height() == height as nat,
            forall|x: int, y: int| #[trigger] img.img_pixel(x, y) == mapping.spec_at(x, y),
    {
        Lazy { width, height, mapping }
    }
}

impl<M: PixelMap> Image for Lazy<M> {
    closed spec fn img_width(&self) -> nat {
        self.width as nat
    }

    closed spec fn img_height(&self) -> nat {
        self.height as nat
    }

    closed spec fn img_pixel(&self, x: int, y: int) -> Rgba {
        self.mapping.spec_at(x, y)
    }

    fn width(&self) -> usize {
        self.width
    }

    fn height(&self) -> usize {
        self.height
    }

    fn pixel(&self, x: usize, y: usize) -> Rgba {
        self.mapping.at(x, y)
    }
}

} // verus!
