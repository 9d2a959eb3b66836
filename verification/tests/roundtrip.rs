use png_framing::{Lazy, Image, PixelMap, Png, Rgba};

/// The gradient mapping used for the round-trip checks.
struct Gradient;

impl PixelMap for Gradient {
    fn at(&self, x: usize, y: usize) -> Rgba {
        Rgba((x % 256) as u8, (y % 256) as u8, 0, 255)
    }
}

#[test]
fn lossless() {
    let ugly_gradient = Lazy::new(1920, 1080, Gradient);

    let png = Png::new(ugly_gradient);
    let recoded = Png::decode(png.encode().unwrap().as_slice()).unwrap();

    let before = png.buffer();
    let after = recoded.buffer();

    assert_eq!(before, after);
}

#[test]
fn tiny_image_roundtrips() {
    let png = Png::from_bytes(1, 1, vec![10, 20, 30, 255]);
    let encoded = png.encode().unwrap();
    let recoded = Png::decode(encoded.as_slice()).unwrap();
    assert_eq!(recoded.width(), 1);
    assert_eq!(recoded.height(), 1);
    assert_eq!(recoded.buffer(), &vec![10, 20, 30, 255]);
}

#[test]
fn decode_of_empty_input_is_an_error() {
    let decoded = Png::decode(&[]);
    assert!(matches!(decoded, Err(png_framing::Error)));
}

#[test]
fn decode_of_corrupt_input_is_an_error() {
    let garbage: Vec<u8> = (0..64u32).map(|i| (i * 37 % 251) as u8).collect();
    assert!(Png::decode(garbage.as_slice()).is_err());

    // A valid stream with its tail chopped off is no longer a valid stream.
    let encoded = Png::from_bytes(2, 2, vec![0; 16]).encode().unwrap();
    assert!(Png::decode(&encoded[..encoded.len() / 2]).is_err());
}

#[test]
fn reencoding_is_byte_identical() {
    let png = Png::from_bytes(3, 2, vec![7; 24]);
    let first = png.encode().unwrap();
    let second = png.encode().unwrap();
    assert_eq!(first, second);
}

#[test]
fn encoded_stream_starts_with_the_png_signature() {
    let encoded = Png::from_bytes(1, 1, vec![1, 2, 3, 4]).encode().unwrap();
    assert_eq!(&encoded[..8], &[137, 80, 78, 71, 13, 10, 26, 10]);
}

#[test]
fn decoding_in_a_loop_is_safe() {
    let encoded = Png::from_bytes(2, 1, vec![1, 2, 3, 4, 5, 6, 7, 8]).encode().unwrap();
    for _ in 0..1000 {
        let decoded = Png::decode(encoded.as_slice()).unwrap();
        assert_eq!(decoded.buffer().len(), 8);
        // `decoded` and its byte view end their lifetime here; the buffer is
        // released exactly once per iteration.
    }
}
