//! The pixel value type: a fixed 4-byte RGBA color.

use vstd::prelude::*;

verus! {

/// A color value with four 8-bit channels, in the order red, green, blue,
/// alpha. One pixel occupies exactly four bytes; no padding, no
/// premultiplication.
#[derive(Clone, Copy, Debug, PartialEq, Eq, Structural)]
pub struct Rgba(pub u8, pub u8, pub u8, pub u8);

impl Rgba {
    /// The four channel bytes of this pixel, in the order they are stored
    /// and transmitted: red first, alpha last.
    pub open spec fn spec_bytes(self) -> Seq<u8> {
        seq![self.0, self.1, self.2, self.3]
    }
}

} // verus!
