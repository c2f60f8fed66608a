//! The clipboard adapter.
//!
//! The system clipboard is reached through the `arboard` crate behind
//! trusted wrappers; everything the clipboard hands back is validated
//! here before it becomes an [`ImageBuffer`]. On the platform whose
//! clipboard server requires the publishing process to stay alive while
//! the data is offered, publishing goes through the blocking
//! wait-until-read call; the caller selects that with one flag.

use vstd::prelude::*;
use arboard::SetExtLinux;
use crate::error::Error;
use crate::image_buffer::ImageBuffer;

verus! {

/// The system clipboard handle of the `arboard` crate: a scoped
/// resource standing for access to the one OS-global clipboard slot.
/// Opaque to the library's proofs.
#[verifier::external_type_specification]
#[verifier::external_body]
pub struct ExClipboard(arboard::Clipboard);

/// Relies on `arboard::Clipboard::new`: opens a handle to the system
/// clipboard, or fails where the platform offers none.
#[verifier::external_body]
fn clipboard_new() -> Result<arboard::Clipboard, String> {
    match arboard::Clipboard::new() {
        Ok(cb) => Ok(cb),
        Err(e) => Err(e.to_string()),
    }
}

/// Relies on `arboard::Clipboard::get_image`: hands back the clipboard
/// image's declared width and height and its decoded RGBA8 bytes, or an
/// error when the clipboard is empty or holds no convertible image.
#[verifier::external_body]
fn clipboard_get_image(cb: &mut arboard::Clipboard) -> Result<(usize, usize, Vec<u8>), String> {
    match cb.get_image() {
        Ok(data) => Ok((data.width, data.height, data.bytes.into_owned())),
        Err(e) => Err(e.to_string()),
    }
}

/// Relies on `arboard::Clipboard::set_image`: places the RGBA8 image on
/// the clipboard and returns once the clipboard has accepted it. On the
/// platform that converts the image to PNG before offering it, the
/// dimensions are truncated to 32 bits first, and the encoder insists on
/// a byte count of exactly `width * height * 4` against the truncated
/// dimensions and panics otherwise — so only buffers of exactly that
/// count, with both dimensions within 32 bits, are admitted here.
#[verifier::external_body]
fn clipboard_set_image(
    cb: &mut arboard::Clipboard,
    width: usize,
    height: usize,
    bytes: Vec<u8>,
) -> Result<(), String>
    requires
        bytes@.len() == width * height * 4,
        width <= u32::MAX as usize,
        height <= u32::MAX as usize,
{
    let data = arboard::ImageData { width, height, bytes: std::borrow::Cow::Owned(bytes) };
    match cb.set_image(data) {
        Ok(()) => Ok(()),
        Err(e) => Err(e.to_string()),
    }
}

/// Relies on `arboard::SetExtLinux::wait` with `Set::image`: places the
/// RGBA8 image on the clipboard and then keeps serving paste requests,
/// returning only once some new clipboard owner has overwritten the
/// contents — so the data stays available for as long as this process
/// serves it. The image is converted to PNG before it is offered, with
/// the dimensions truncated to 32 bits first, and the encoder insists on
/// a byte count of exactly `width * height * 4` against the truncated
/// dimensions and panics otherwise — so only buffers of exactly that
/// count, with both dimensions within 32 bits, are admitted here.
#[verifier::external_body]
fn clipboard_set_image_wait(
    cb: &mut arboard::Clipboard,
    width: usize,
    height: usize,
    bytes: Vec<u8>,
) -> Result<(), String>
    requires
        bytes@.len() == width * height * 4,
        width <= u32::MAX as usize,
        height <= u32::MAX as usize,
{
    let data = arboard::ImageData { width, height, bytes: std::borrow::Cow::Owned(bytes) };
    match cb.set().wait().image(data) {
        Ok(()) => Ok(()),
        Err(e) => Err(e.to_string()),
    }
}

/// Acquires the clipboard handle for this invocation.
pub fn open_clipboard() -> (r: Result<arboard::Clipboard, Error>)
    ensures
        r matches Err(e) ==> e is Clipboard,
{
    match clipboard_new() {
        Ok(cb) => Ok(cb),
        Err(e) => Err(Error::Clipboard(e)),
    }
}

/// Reads the image currently on the clipboard.
///
/// Whatever the clipboard declares is validated here: the byte count
/// must be exactly `width * height * 4` with positive dimensions, or the
/// data is rejected as malformed — never truncated, never padded. Every
/// image handed out is well-formed.
pub fn read_image_from_clipboard(cb: &mut arboard::Clipboard) -> (r: Result<ImageBuffer, Error>)
    ensures
        r matches Ok(img) ==> img@.wf(),
        r matches Err(e) ==> e is Clipboard || e is MalformedImage,
        r matches Err(Error::MalformedImage { width, height, len }) ==> len != width * height * 4
            || width == 0 || height == 0,
{
    match clipboard_get_image(cb) {
        Err(e) => Err(Error::Clipboard(e)),
        Ok((width, height, bytes)) => {
            let len = bytes.len();
            match ImageBuffer::from_raw(width, height, bytes) {
                Some(img) => Ok(img),
                None => Err(Error::MalformedImage { width, height, len }),
            }
        },
    }
}

/// Publishes a well-formed image to the clipboard. With
/// `offer_until_read` the call blocks until another process has read the
/// data (the platform's clipboard would otherwise drop it on exit);
/// without it the call returns once the clipboard accepts the data.
/// Dimensions beyond the clipboard's 32-bit bounds are refused with a
/// clipboard error before anything is offered.
pub fn publish_image_to_clipboard(
    cb: &mut arboard::Clipboard,
    image: ImageBuffer,
    offer_until_read: bool,
) -> (r: Result<(), Error>)
    requires
        image@.wf(),
    ensures
        r matches Err(e) ==> e is Clipboard,
{
    if image.width > u32::MAX as usize || image.height > u32::MAX as usize {
        return Err(
            Error::Clipboard(String::from_str("the image is too large for the clipboard")),
        );
    }
    let ImageBuffer { width, height, bytes } = image;
    let sent = if offer_until_read {
        clipboard_set_image_wait(cb, width, height, bytes)
    } else {
        clipboard_set_image(cb, width, height, bytes)
    };
    match sent {
        Ok(()) => Ok(()),
        Err(e) => Err(Error::Clipboard(e)),
    }
}

} // verus!
