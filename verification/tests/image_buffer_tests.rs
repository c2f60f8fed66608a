use snapclip::image_buffer::ImageBuffer;

fn rgba_bytes(pixels: usize) -> Vec<u8> {
    let mut v = Vec::with_capacity(pixels * 4);
    for i in 0..pixels * 4 {
        v.push((i % 251) as u8);
    }
    v
}

#[test]
fn from_raw_accepts_exact_buffer() {
    let bytes = rgba_bytes(10 * 10);
    let img = ImageBuffer::from_raw(10, 10, bytes.clone()).expect("valid 10x10 buffer");
    assert_eq!(img.width, 10);
    assert_eq!(img.height, 10);
    assert_eq!(img.bytes, bytes);
}

#[test]
fn from_raw_round_trips_unchanged() {
    // The triple that publish hands over rebuilds to the very same image.
    let bytes = rgba_bytes(3 * 7);
    let img = ImageBuffer::from_raw(3, 7, bytes).expect("valid 3x7 buffer");
    let rebuilt =
        ImageBuffer::from_raw(img.width, img.height, img.bytes.clone()).expect("round trip");
    assert_eq!(rebuilt.width, img.width);
    assert_eq!(rebuilt.height, img.height);
    assert_eq!(rebuilt.bytes, img.bytes);
}

#[test]
fn from_raw_rejects_short_buffer() {
    let bytes = rgba_bytes(10 * 10 - 1);
    assert!(ImageBuffer::from_raw(10, 10, bytes).is_none());
}

#[test]
fn from_raw_rejects_long_buffer() {
    let mut bytes = rgba_bytes(10 * 10);
    bytes.push(0);
    assert!(ImageBuffer::from_raw(10, 10, bytes).is_none());
}

#[test]
fn from_raw_rejects_zero_dimensions() {
    assert!(ImageBuffer::from_raw(0, 10, Vec::new()).is_none());
    assert!(ImageBuffer::from_raw(10, 0, Vec::new()).is_none());
    assert!(ImageBuffer::from_raw(0, 0, Vec::new()).is_none());
}

#[test]
fn from_raw_rejects_overflowing_dimensions() {
    assert!(ImageBuffer::from_raw(usize::MAX, 2, rgba_bytes(8)).is_none());
    assert!(ImageBuffer::from_raw(usize::MAX / 2, usize::MAX / 2, rgba_bytes(4)).is_none());
}

#[test]
fn from_raw_single_pixel() {
    let img = ImageBuffer::from_raw(1, 1, vec![9, 8, 7, 255]).expect("one pixel");
    assert_eq!(img.bytes, vec![9, 8, 7, 255]);
}
