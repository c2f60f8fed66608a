//! The error taxonomy of the library.
//!
//! Every failure is terminal for the current invocation: nothing is
//! retried. Each variant carries enough to render a human-readable
//! message through [`Error::message`].

use vstd::prelude::*;

verus! {

/// What went wrong during one invocation.
#[derive(Debug)]
pub enum Error {
    /// No screen could be enumerated, or the platform capture call failed.
    Capture(String),
    /// The platform clipboard failed, or holds no image.
    Clipboard(String),
    /// The clipboard declared width x height but handed over a byte count
    /// that is not width * height * 4; the data is neither truncated nor
    /// padded, it is rejected.
    MalformedImage { width: usize, height: usize, len: usize },
    /// PNG encoding failed, or the image dimensions cannot be encoded.
    Io(String),
    /// The argument is no recognized subcommand; carries the full
    /// diagnostic, with the offending token and the usage text embedded.
    Dispatch(String),
    /// The detached helper process could not be created.
    Spawn(String),
}

impl Error {
    /// The human-readable message for this error, as printed on the
    /// diagnostic stream.
    pub fn message(&self) -> (r: String)
        ensures
            r@ == self.message_spec(),
    {
        match self {
            Error::Capture(s) => String::from_str("screen capture failed: ").concat(s.as_str()),
            Error::Clipboard(s) => String::from_str("clipboard failure: ").concat(s.as_str()),
            Error::MalformedImage { width: _, height: _, len: _ } => String::from_str(
                "clipboard image data does not match its declared dimensions",
            ),
            Error::Io(s) => String::from_str("could not save the image: ").concat(s.as_str()),
            Error::Dispatch(s) => s.clone(),
            Error::Spawn(s) => String::from_str("could not detach the capture process: ").concat(
                s.as_str(),
            ),
        }
    }

    /// What [`Error::message`] returns, per variant.
    pub open spec fn message_spec(&self) -> Seq<char> {
        match self {
            Error::Capture(s) => "screen capture failed: "@ + s@,
            Error::Clipboard(s) => "clipboard failure: "@ + s@,
            Error::MalformedImage { .. } => {
                "clipboard image data does not match its declared dimensions"@
            },
            Error::Io(s) => "could not save the image: "@ + s@,
            Error::Dispatch(s) => s@,
            Error::Spawn(s) => "could not detach the capture process: "@ + s@,
        }
    }
}

/// The line printed to the diagnostic stream for a failed invocation.
pub fn diagnostic_line(message: &str) -> (r: String)
    ensures
        r@ == "ERROR: "@ + message@,
{
    String::from_str("ERROR: ").concat(message)
}

} // verus!
