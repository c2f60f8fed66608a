use snapclip::encode::encode_image_png;
use snapclip::image_buffer::ImageBuffer;

fn gradient_image(width: usize, height: usize) -> ImageBuffer {
    let mut bytes = Vec::with_capacity(width * height * 4);
    for y in 0..height {
        for x in 0..width {
            bytes.push((x * 23 % 256) as u8);
            bytes.push((y * 31 % 256) as u8);
            bytes.push(((x + y) * 7 % 256) as u8);
            bytes.push(255);
        }
    }
    ImageBuffer::from_raw(width, height, bytes).expect("valid test image")
}

#[test]
fn encoded_stream_is_a_decodable_png_of_same_size() {
    let img = gradient_image(10, 10);
    let original_bytes = img.bytes.clone();
    let data = encode_image_png(img).expect("encoding succeeds");
    let decoded = image::load_from_memory_with_format(&data, image::ImageFormat::Png)
        .expect("the stream decodes as a PNG")
        .to_rgba8();
    assert_eq!(decoded.width(), 10);
    assert_eq!(decoded.height(), 10);
    assert_eq!(decoded.as_raw(), &original_bytes);
}

#[test]
fn encoded_stream_differs_from_raw_pixels() {
    let img = gradient_image(4, 3);
    let raw = img.bytes.clone();
    let data = encode_image_png(img).expect("encoding succeeds");
    assert_ne!(data, raw);
    assert_eq!(&data[1..4], b"PNG");
}

#[test]
fn encoding_is_a_function_of_the_pixels_alone() {
    let a = encode_image_png(gradient_image(5, 5)).expect("encoding succeeds");
    let b = encode_image_png(gradient_image(5, 5)).expect("encoding succeeds");
    assert_eq!(a, b);
    let c = encode_image_png(gradient_image(5, 6)).expect("encoding succeeds");
    assert_ne!(a, c);
}
