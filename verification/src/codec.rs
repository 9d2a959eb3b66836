//! The codec adapter: converts an eager image to and from compressed PNG
//! bytes through the external codec, collapsing every codec failure into one
//! opaque error.

use vstd::prelude::*;
use crate::eager::Png;
use crate::image::Image;

verus! {

/// An unknown error.
///
/// Usually the error is obvious, though. For example, when decoding, the
/// error was probably caused by an invalid PNG. In other cases, the error's
/// source might be ambiguous, in which case you're out of luck.
#[derive(Clone, Copy, Debug, PartialEq, Eq, Hash, Structural)]
pub struct Error;

/// The external codec's PNG encoding of a `width`-by-`height` row-major RGBA
/// byte buffer: the compressed byte stream, or nothing where the codec
/// reports an error. A pure function of the bytes and dimensions alone.
pub uninterp spec fn png_encoding(data: Seq<u8>, width: nat, height: nat) -> Option<Seq<u8>>;

/// The external codec's reading of a PNG byte stream: the width, the height
/// and the row-major RGBA bytes of the decoded image, or nothing where the
/// stream is not a PNG the codec accepts. A pure function of the input bytes
/// alone.
pub uninterp spec fn png_decoding(data: Seq<u8>) -> Option<(nat, nat, Seq<u8>)>;

/// Relies on lodepng::encode32: deterministic compression of a row-major
/// RGBA byte buffer, with the dimensions passed alongside, into PNG bytes;
/// every failure is reported as an error value.
#[verifier::external_body]
fn encode_rgba(bytes: &Vec<u8>, width: usize, height: usize) -> (r: Result<Vec<u8>, Error>)
    requires
        bytes@.len() == width * height * 4,
    ensures
        r matches Ok(v) ==> png_encoding(bytes@, width as nat, height as nat) == Some(v@),
        r matches Err(e) ==> png_encoding(bytes@, width as nat, height as nat) is None,
{
    match lodepng::encode32(bytes.as_slice(), width, height) {
        Ok(v) => Ok(v),
        Err(_) => Err(Error),
    }
}

/// Relies on lodepng::decode32: deterministic decoding of PNG bytes into the
/// image's dimensions and its pixels, four 8-bit channels per pixel in the
/// order red, green, blue, alpha; the decoded grid always carries exactly
/// four bytes per pixel, and every failure is reported as an error value.
#[verifier::external_body]
fn decode_rgba(bytes: &[u8]) -> (r: Result<(usize, usize, Vec<u8>), Error>)
    ensures
        r matches Ok(t) ==> png_decoding(bytes@) == Some(((t.0 as nat), (t.1 as nat), t.2@))
            && t.2@.len() == t.0 * t.1 * 4,
        r matches Err(e) ==> png_decoding(bytes@) is None,
{
    match lodepng::decode32(bytes) {
        Ok(bmp) => {
            let buffer = bmp.buffer.iter().flat_map(|p| [p.r, p.g, p.b, p.a]).collect();
            Ok((bmp.width, bmp.height, buffer))
        },
        Err(_) => Err(Error),
    }
}

/// Exactly how an `encode` outcome relates to the image it encodes: `Ok`
/// carries the codec's encoding of the image's bytes and dimensions, and
/// `Err` carries the opaque error, exactly when the codec has no encoding
/// for them.
pub open spec fn encode_post(
    data: Seq<u8>,
    width: nat,
    height: nat,
    r: Result<Seq<u8>, Error>,
) -> bool {
    match r {
        Ok(v) => png_encoding(data, width, height) == Some(v),
        Err(e) => png_encoding(data, width, height) is None && e == Error,
    }
}

/// Idempotent re-encode: encoding the same eager image twice yields
/// byte-identical output. Any two outcomes of `encode` on the same image
/// bytes and dimensions are the same outcome.
pub proof fn lemma_encode_deterministic(
    data: Seq<u8>,
    width: nat,
    height: nat,
    r1: Result<Seq<u8>, Error>,
    r2: Result<Seq<u8>, Error>,
)
    requires
        encode_post(data, width, height, r1),
        encode_post(data, width, height, r2),
    ensures
        r1 == r2,
{
}

impl Png {
    /// Encodes the PNG, allocating the necessary memory for the encoded data.
    ///
    /// The output is an array of bytes with the compressed PNG data, suitable
    /// for sending over a network or writing to a file.
    pub fn encode(&self) -> (r: Result<Vec<u8>, Error>)
        ensures
            r matches Ok(v) ==> encode_post(
                self.spec_buffer(),
                self.spec_width(),
                self.spec_height(),
                Ok(v@),
            ),
            r matches Err(e) ==> encode_post(
                self.spec_buffer(),
                self.spec_width(),
                self.spec_height(),
                Err(e),
            ),
    {
        let width = self.width();
        let height = self.height();
        encode_rgba(self.buffer(), width, height)
    }

    /// Decodes the image which has been encoded in the given bytes.
    ///
    /// The decoded grid carries exactly four bytes per pixel, so the result
    /// satisfies the eager layout invariant by construction.
    pub fn decode(bytes: &[u8]) -> (r: Result<Png, Error>)
        ensures
            r matches Ok(png) ==> png_decoding(bytes@) == Some(
                (png.spec_width(), png.spec_height(), png.spec_buffer()),
            ),
            r matches Err(e) ==> png_decoding(bytes@) is None && e == Error,
    {
        match decode_rgba(bytes) {
            Ok((width, height, buffer)) => Ok(Png::from_bytes(width, height, buffer)),
            Err(e) => Err(e),
        }
    }
}

} // verus!
