//! A simple PNG serialization library.
//!
//! Images are represented either lazily (a pure coordinate-to-pixel mapping)
//! or eagerly (a contiguous row-major RGBA byte buffer), and the eager form
//! can be encoded to and decoded from PNG bytes through an external codec.

pub mod codec;
pub mod eager;
pub mod image;
pub mod lazy;
pub mod pixel;

pub use codec::Error;
pub use codec::encode_post;
pub use codec::lemma_encode_deterministic;
pub use codec::png_decoding;
pub use codec::png_encoding;
pub use eager::Png;
pub use eager::lemma_pixel_at_bytes;
pub use eager::pixel_at;
pub use image::Image;
pub use image::Mapped;
pub use image::PixelTransform;
pub use lazy::Lazy;
pub use lazy::PixelMap;
pub use pixel::Rgba;
