//! The screen capturer.
//!
//! The platform's screen enumeration and capture are reached through the
//! `screenshots` crate behind trusted wrappers. The first screen of the
//! platform's enumeration is captured, and the frame is validated into a
//! well-formed [`ImageBuffer`] before anything else touches it.

use vstd::prelude::*;
use crate::error::Error;
use crate::image_buffer::ImageBuffer;

verus! {

/// One display of the platform's enumeration, as the `screenshots`
/// crate reports it. Opaque to the library's proofs.
#[verifier::external_type_specification]
#[verifier::external_body]
pub struct ExScreen(screenshots::Screen);

/// Relies on `screenshots::Screen::all`: enumerates the displays the
/// platform reports, in the platform's own (deterministic) order.
#[verifier::external_body]
fn screens_all() -> Result<Vec<screenshots::Screen>, String> {
    match screenshots::Screen::all() {
        Ok(screens) => Ok(screens),
        Err(e) => Err(e.to_string()),
    }
}

/// Relies on `screenshots::Screen::capture` and the accessors of its
/// `Image` type: one captured frame, as width, height and RGBA8 bytes.
#[verifier::external_body]
fn screen_capture(screen: &screenshots::Screen) -> Result<(u32, u32, Vec<u8>), String> {
    match screen.capture() {
        Ok(frame) => Ok((frame.width(), frame.height(), frame.into())),
        Err(e) => Err(e.to_string()),
    }
}

/// Captures the first screen of the platform's enumeration.
///
/// Fails when no screen is enumerable or the platform capture call
/// fails; a frame whose byte count does not match its dimensions is
/// rejected rather than handed on. Every image handed out is
/// well-formed.
pub fn capture_primary_screen() -> (r: Result<ImageBuffer, Error>)
    ensures
        r matches Ok(img) ==> img@.wf(),
        r matches Err(e) ==> e is Capture,
{
    let screens = match screens_all() {
        Ok(screens) => screens,
        Err(e) => {
            return Err(Error::Capture(e));
        },
    };
    if screens.len() == 0 {
        return Err(Error::Capture(String::from_str("no screen could be enumerated")));
    }
    match screen_capture(&screens[0]) {
        Err(e) => Err(Error::Capture(e)),
        Ok((width, height, bytes)) => {
            match ImageBuffer::from_raw(width as usize, height as usize, bytes) {
                Some(img) => Ok(img),
                None => Err(
                    Error::Capture(
                        String::from_str("the captured frame does not match its dimensions"),
                    ),
                ),
            }
        },
    }
}

} // verus!
