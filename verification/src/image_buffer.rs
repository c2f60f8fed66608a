//! The image buffer: width, height and raw RGBA8 pixel bytes.
//!
//! The one invariant of the data model: the byte buffer's length is
//! exactly `width * height * 4`, with both dimensions positive.
//! Construction through [`ImageBuffer::from_raw`] either establishes the
//! invariant or fails; nothing ever truncates or pads a buffer.

use vstd::prelude::*;

verus! {

/// The mathematical model of an image buffer.
pub struct ImageModel {
    pub width: nat,
    pub height: nat,
    pub bytes: Seq<u8>,
}

impl ImageModel {
    /// Well-formedness: positive dimensions and exactly four bytes
    /// (RGBA8) per pixel.
    pub open spec fn wf(self) -> bool {
        &&& self.width > 0
        &&& self.height > 0
        &&& self.bytes.len() == self.width * self.height * 4
    }
}

/// What building an image buffer from a raw triple yields: the model,
/// if and only if the triple satisfies the invariant.
pub open spec fn decode_raw(width: nat, height: nat, bytes: Seq<u8>) -> Option<ImageModel> {
    let m = ImageModel { width, height, bytes };
    if m.wf() {
        Some(m)
    } else {
        None
    }
}

/// A raw RGBA8 image: `bytes` holds exactly `width * height * 4` bytes,
/// one row after another, four bytes (red, green, blue, alpha) per pixel.
pub struct ImageBuffer {
    pub width: usize,
    pub height: usize,
    pub bytes: Vec<u8>,
}

impl View for ImageBuffer {
    type V = ImageModel;

    open spec fn view(&self) -> ImageModel {
        ImageModel { width: self.width as nat, height: self.height as nat, bytes: self.bytes@ }
    }
}

impl ImageBuffer {
    /// Builds an image buffer from a width, a height and a byte buffer.
    /// Succeeds exactly when the triple satisfies the invariant, and
    /// keeps the bytes as given: no truncation, no padding.
    pub fn from_raw(width: usize, height: usize, bytes: Vec<u8>) -> (r: Option<ImageBuffer>)
        ensures
            match r {
                Some(img) => decode_raw(width as nat, height as nat, bytes@) == Some(img@),
                None => decode_raw(width as nat, height as nat, bytes@) is None,
            },
    {
        let len = bytes.len();
        proof {
            assert(width * height * 4 == (width * height) * 4) by (nonlinear_arith);
        }
        let pixels = match width.checked_mul(height) {
            Some(p) => p,
            None => {
                return None;
            },
        };
        let expected = match pixels.checked_mul(4) {
            Some(e) => e,
            None => {
                return None;
            },
        };
        if width > 0 && height > 0 && len == expected {
            Some(ImageBuffer { width, height, bytes })
        } else {
            None
        }
    }
}

/// An image buffer decomposed into the triple that crosses the clipboard
/// (publish hands over width, height and bytes; read receives them back)
/// rebuilds to the very same image: same width, same height, same bytes.
/// This holds of every well-formed image, whatever its size.
pub proof fn lemma_publish_read_round_trip(m: ImageModel)
    requires
        m.wf(),
    ensures
        decode_raw(m.width, m.height, m.bytes) == Some(m),
{
}

/// A raw triple whose byte count is not exactly `width * height * 4`
/// (or whose dimensions are not positive) never yields an image buffer:
/// malformed clipboard data is rejected, never truncated or padded.
pub proof fn lemma_malformed_raw_rejected(width: nat, height: nat, bytes: Seq<u8>)
    requires
        bytes.len() != width * height * 4 || width == 0 || height == 0,
    ensures
        decode_raw(width, height, bytes) is None,
{
}

} // verus!
