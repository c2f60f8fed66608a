//! PNG encoding.
//!
//! The encoder of the `image` crate does the encoding behind a trusted
//! wrapper; its output is named by [`png_encoding_of`], a pure function
//! of the dimensions and pixel bytes alone, so callers' contracts can
//! speak of the encoded stream exactly.

use vstd::prelude::*;
use crate::error::Error;
use crate::image_buffer::ImageBuffer;

verus! {

/// The PNG byte stream that encoding an RGBA8 image of the given width,
/// height and pixel bytes yields.
pub uninterp spec fn png_encoding_of(width: u32, height: u32, bytes: Seq<u8>) -> Seq<u8>;

/// Relies on `image::RgbaImage::from_raw` (which accepts any buffer of
/// at least `width * height * 4` bytes — here exactly that many) and
/// `ImageBuffer::write_to` with the PNG format: encodes the pixels as a
/// PNG byte stream. The encoder is deterministic, so the stream is a
/// function of the dimensions and bytes alone; it rejects only zero
/// dimensions, and writing into a `Vec` cannot fail, so with positive
/// dimensions the encoding succeeds.
#[verifier::external_body]
fn encode_png(width: u32, height: u32, bytes: Vec<u8>) -> (r: Result<Vec<u8>, String>)
    requires
        bytes@.len() == width * height * 4,
    ensures
        r matches Ok(data) ==> data@ == png_encoding_of(width, height, bytes@),
        width > 0 && height > 0 ==> r is Ok,
{
    let img = match image::RgbaImage::from_raw(width, height, bytes) {
        Some(img) => img,
        None => {
            return Err(String::from("the buffer does not match the dimensions"));
        },
    };
    let mut cursor = std::io::Cursor::new(Vec::new());
    match img.write_to(&mut cursor, image::ImageFormat::Png) {
        Ok(()) => Ok(cursor.into_inner()),
        Err(e) => Err(e.to_string()),
    }
}

/// Encodes a well-formed image as a PNG byte stream.
///
/// Succeeds whenever the dimensions fit the encoder's 32-bit bounds —
/// the one way encoding a well-formed image can fail — and the stream is
/// then exactly the PNG encoding of the image's dimensions and bytes.
pub fn encode_image_png(image: ImageBuffer) -> (r: Result<Vec<u8>, Error>)
    requires
        image@.wf(),
    ensures
        image.width <= u32::MAX && image.height <= u32::MAX ==> r is Ok,
        r matches Ok(data) ==> {
            &&& image.width <= u32::MAX
            &&& image.height <= u32::MAX
            &&& data@ == png_encoding_of(image.width as u32, image.height as u32, image.bytes@)
        },
        r matches Err(e) ==> e is Io,
{
    if image.width > u32::MAX as usize || image.height > u32::MAX as usize {
        return Err(Error::Io(String::from_str("the image is too large to encode")));
    }
    let width = image.width as u32;
    let height = image.height as u32;
    match encode_png(width, height, image.bytes) {
        Ok(data) => Ok(data),
        Err(e) => Err(Error::Io(e)),
    }
}

} // verus!
