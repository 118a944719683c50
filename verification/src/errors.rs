//! Error taxonomy of the pipeline.
//!
//! A failure to read or decode the source is fatal: the session ends once
//! it is reported. A failure to resize is recoverable: the previously
//! displayed frame stays on screen and the loop continues.

use vstd::prelude::*;

verus! {

/// Fatal failure of the decode task. The source will not change, so no
/// retry is attempted; the render loop terminates the session when it
/// drains one of these from the decode channel.
#[derive(Clone, Copy, Debug, PartialEq, Eq, Structural)]
pub enum DecodeError {
    /// The source file could not be opened or read.
    SourceUnreadable,
    /// The bytes were read but are not a well-formed image.
    CorruptData,
    /// The image format is not supported by the decoder.
    UnsupportedFormat,
}

/// Recoverable failure of one resize request. The worker forwards it
/// through the response channel instead of crashing, and the holder keeps
/// the previous frame on display.
#[derive(Clone, Copy, Debug, PartialEq, Eq, Structural)]
pub enum ResizeError {
    /// The requested viewport had zero width or zero height.
    ZeroViewport,
    /// The external terminal-protocol encoder failed on an otherwise
    /// valid request.
    EncodeFailed,
}

} // verus!
