use png_framing::{Image, Lazy, Mapped, PixelMap, PixelTransform, Png, Rgba};

/// A small procedural mapping with distinct values per coordinate.
struct Checker;

impl PixelMap for Checker {
    fn at(&self, x: usize, y: usize) -> Rgba {
        Rgba(x as u8, y as u8, (x + y) as u8, 255)
    }
}

/// Swaps the red and blue channels.
struct SwapRedBlue;

impl PixelTransform for SwapRedBlue {
    fn transform(&self, p: Rgba) -> Rgba {
        Rgba(p.2, p.1, p.0, p.3)
    }
}

#[test]
fn construction_rejects_a_short_buffer() {
    assert!(Png::try_from_bytes(2, 2, vec![0; 15]).is_none());
}

#[test]
fn construction_rejects_a_long_buffer() {
    assert!(Png::try_from_bytes(2, 2, vec![0; 17]).is_none());
}

#[test]
fn construction_accepts_an_exact_buffer() {
    let png = Png::try_from_bytes(2, 2, vec![0; 16]).unwrap();
    assert_eq!(png.width(), 2);
    assert_eq!(png.height(), 2);
}

#[test]
fn materialization_matches_the_source() {
    let lazy = Lazy::new(5, 4, Checker);
    let eager = Png::new(lazy);
    let lazy_again = Lazy::new(5, 4, Checker);
    assert_eq!(eager.width(), 5);
    assert_eq!(eager.height(), 4);
    for y in 0..4 {
        for x in 0..5 {
            assert_eq!(eager.pixel_checked(x, y), lazy_again.pixel_checked(x, y));
        }
    }
}

#[test]
fn pixels_are_stored_row_major() {
    let bytes = vec![
        1, 2, 3, 4, 5, 6, 7, 8, // row 0: pixels (0,0) and (1,0)
        9, 10, 11, 12, 13, 14, 15, 16, // row 1: pixels (0,1) and (1,1)
    ];
    let png = Png::from_bytes(2, 2, bytes);
    assert_eq!(png.buffer()[0], 1); // first byte is the (0,0) red channel
    assert_eq!(png.pixel_checked(0, 0), Some(Rgba(1, 2, 3, 4)));
    assert_eq!(png.pixel_checked(1, 0), Some(Rgba(5, 6, 7, 8)));
    assert_eq!(png.pixel_checked(0, 1), Some(Rgba(9, 10, 11, 12)));
    assert_eq!(png.pixel_checked(1, 1), Some(Rgba(13, 14, 15, 16)));
}

#[test]
fn out_of_bounds_access_is_rejected() {
    let png = Png::from_bytes(2, 1, vec![0; 8]);
    assert_eq!(png.pixel_checked(2, 0), None);
    assert_eq!(png.pixel_checked(0, 1), None);
    assert_eq!(png.pixel_checked(2, 1), None);
}

#[test]
fn into_buffer_recovers_the_bytes() {
    let bytes = vec![9, 8, 7, 6];
    let png = Png::from_bytes(1, 1, bytes.clone());
    assert_eq!(png.into_buffer(), bytes);
}

#[test]
fn mapping_transforms_every_pixel() {
    let mapped = Mapped::new(Lazy::new(3, 2, Checker), SwapRedBlue);
    assert_eq!(mapped.width(), 3);
    assert_eq!(mapped.height(), 2);
    assert_eq!(mapped.pixel_checked(2, 1), Some(Rgba(3, 1, 2, 255)));
    let eager = Png::new(mapped);
    assert_eq!(eager.pixel_checked(2, 1), Some(Rgba(3, 1, 2, 255)));
    assert_eq!(eager.pixel_checked(0, 0), Some(Rgba(0, 0, 0, 255)));
}
