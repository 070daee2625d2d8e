//! The failures that registration, preloading and decoding report.

use vstd::prelude::*;

verus! {

/// Why a call on the video backend failed.
#[derive(Clone, Copy, Debug, PartialEq, Eq, Structural)]
pub enum Error {
    /// No decoder exists, or none is enabled, for the codec of a new stream.
    UnsupportedCodec,
    /// The handle names no stream of this backend.
    UnregisteredStream,
    /// The header of a frame could not be read.
    HeaderParseError,
    /// The codec engine could not be set up for the size its first frame declares.
    InitializationError,
    /// The picture type of a frame is none that a stream may hold.
    InvalidPictureType,
    /// A frame without pixel data arrived before any frame was decoded.
    MissingPriorFrameForSkip,
    /// The codec engine handed back something that is no picture of the expected shape.
    BufferTypeMismatch,
    /// The frame could not be decoded, or an answer arrived that was not asked for.
    BitstreamDecodeError,
}

impl Error {
    /// A short English description of the failure.
    pub fn message(&self) -> (text: &'static str)
        ensures
            text@ == error_text(*self),
    {
        match self {
            Error::UnsupportedCodec => "Unsupported video codec type",
            Error::UnregisteredStream => "Unregistered video stream",
            Error::HeaderParseError => "Error parsing frame header",
            Error::InitializationError => "Error initializing decoder",
            Error::InvalidPictureType => "Invalid picture type code!",
            Error::MissingPriorFrameForSkip => "No previous frame found when encountering a skip frame",
            Error::BufferTypeMismatch => "Unexpected buffer type after decoding a frame",
            Error::BitstreamDecodeError => "Decoder error",
        }
    }
}

/// The text that [`Error::message`] gives for each failure.
pub open spec fn error_text(error: Error) -> Seq<char> {
    match error {
        Error::UnsupportedCodec => "Unsupported video codec type"@,
        Error::UnregisteredStream => "Unregistered video stream"@,
        Error::HeaderParseError => "Error parsing frame header"@,
        Error::InitializationError => "Error initializing decoder"@,
        Error::InvalidPictureType => "Invalid picture type code!"@,
        Error::MissingPriorFrameForSkip => "No previous frame found when encountering a skip frame"@,
        Error::BufferTypeMismatch => "Unexpected buffer type after decoding a frame"@,
        Error::BitstreamDecodeError => "Decoder error"@,
    }
}

} // verus!
