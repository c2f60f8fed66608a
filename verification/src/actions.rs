//! The two composite actions an invocation can perform: capture the
//! screen and publish it to the clipboard, and read the clipboard image
//! and prepare it for saving as a PNG file.

use vstd::prelude::*;
use crate::clipboard::{publish_image_to_clipboard, read_image_from_clipboard};
use crate::encode::{encode_image_png, png_encoding_of};
use crate::error::Error;
use crate::filename::{png_file_name, png_file_name_spec};
use crate::screen::capture_primary_screen;

verus! {

/// Captures the first screen and publishes the frame to the clipboard.
/// With `offer_until_read` the publish blocks until another process has
/// read the data. Fails with a capture error or a clipboard error;
/// nothing is published when the capture failed.
pub fn capture_and_publish(cb: &mut arboard::Clipboard, offer_until_read: bool) -> (r: Result<
    (),
    Error,
>)
    ensures
        r matches Err(e) ==> e is Capture || e is Clipboard,
{
    let image = match capture_primary_screen() {
        Ok(image) => image,
        Err(e) => {
            return Err(e);
        },
    };
    publish_image_to_clipboard(cb, image, offer_until_read)
}

/// Reads the image on the clipboard and prepares it for saving: the PNG
/// byte stream, and the file name `<unix_secs>.png` derived from the
/// Unix timestamp in whole seconds. Writing the stream to that file in
/// the working directory is the caller's one remaining step, so no file
/// comes into being when the clipboard is empty or its data malformed.
pub fn save_clipboard_image(cb: &mut arboard::Clipboard, unix_secs: u64) -> (r: Result<
    (String, Vec<u8>),
    Error,
>)
    ensures
        r matches Ok((name, data)) ==> {
            &&& name@ == png_file_name_spec(unix_secs as nat)
            &&& exists|w: u32, h: u32, px: Seq<u8>|
                px.len() == w * h * 4 && w > 0 && h > 0 && data@ == #[trigger] png_encoding_of(
                    w,
                    h,
                    px,
                )
        },
        r matches Err(e) ==> e is Clipboard || e is MalformedImage || e is Io,
{
    let image = match read_image_from_clipboard(cb) {
        Ok(image) => image,
        Err(e) => {
            return Err(e);
        },
    };
    let data = match encode_image_png(image) {
        Ok(data) => data,
        Err(e) => {
            return Err(e);
        },
    };
    let name = png_file_name(unix_secs);
    Ok((name, data))
}

} // verus!
