//! The clipboard port: the capability interface the loops use to read and
//! write the OS clipboard, and the errors its operations can report.
//!
//! The concrete backends do process-level I/O and therefore live outside
//! the verified core; they implement [`Clipboard`] and hand plain values
//! across it. All its failures are recoverable for the loops: the output
//! loop treats a failed read as "no snapshot this cycle", the input loop
//! logs a failed write and drops the frame.

use vstd::prelude::*;
use vstd::string::StringExecFns;
use crate::snapshot::Image;

verus! {

/// Why a clipboard operation failed.
#[derive(Debug)]
pub enum ClipboardError {
    /// The clipboard holds no data at all.
    Empty,
    /// The clipboard holds data of the other kind than was asked for.
    WrongFormat,
    /// The clipboard offers its content under a MIME type the backend
    /// cannot decode.
    UnsupportedFormat,
    /// An image with zero width, zero height or an empty pixel buffer was
    /// handed to a write.
    InvalidImage,
    /// An opaque failure of the native backend, with its message.
    Backend(String),
}

impl ClipboardError {
    /// The text of the error's message.
    pub open spec fn spec_message(&self) -> Seq<char> {
        match self {
            ClipboardError::Empty => "clipboard is empty"@,
            ClipboardError::WrongFormat => "clipboard holds another kind of data"@,
            ClipboardError::UnsupportedFormat => "unsupported clipboard format"@,
            ClipboardError::InvalidImage => "empty image"@,
            ClipboardError::Backend(m) => m@,
        }
    }

    /// The error's message, for display.
    pub fn message(&self) -> (r: String)
        ensures
            r@ == self.spec_message(),
    {
        match self {
            ClipboardError::Empty => String::from_str("clipboard is empty"),
            ClipboardError::WrongFormat => String::from_str("clipboard holds another kind of data"),
            ClipboardError::UnsupportedFormat => String::from_str("unsupported clipboard format"),
            ClipboardError::InvalidImage => String::from_str("empty image"),
            ClipboardError::Backend(m) => m.clone(),
        }
    }
}

/// The line under which a recoverable clipboard error is logged.
pub fn log(err: &ClipboardError) -> (r: String)
    ensures
        r@ == "Error: "@ + err.spec_message(),
{
    let mut line = String::from_str("Error: ");
    let msg = err.message();
    line.append(msg.as_str());
    line
}

/// The capability set of a clipboard backend. Reads fail with
/// [`ClipboardError::Empty`] or [`ClipboardError::WrongFormat`] when no
/// data of the asked kind is available — callers treat that as "no
/// snapshot", never as fatal. `set_image` fails with
/// [`ClipboardError::InvalidImage`] on a zero-sized image. Every operation
/// touches the live OS clipboard, a single process-wide resource; the port
/// itself buffers nothing.
pub trait Clipboard {
    fn get_text(&mut self) -> Result<String, ClipboardError>;

    fn get_image(&mut self) -> Result<Image, ClipboardError>;

    fn set_text(&mut self, data: String) -> Result<(), ClipboardError>;

    fn set_image(&mut self, data: Image) -> Result<(), ClipboardError>;
}

} // verus!
