//! The conversation between a decoder and the codec engine that does the
//! bitstream work for it: what the decoder asks for, what the engine
//! answers, and what a finished step hands back.
//!
//! A call for a frame is a run of steps. The first step is given
//! [`CodecEvent::Start`]. A step that hands back a [`CodecRequest`] waits
//! for the engine: the caller has the engine do what is asked and gives its
//! answer, with the same payload, to the next step. A step that hands back
//! a dependency, a frame or a failure ends the call.

use vstd::prelude::*;
use crate::error::Error;
use crate::frame::DecodedFrame;
use crate::frame::DecodedFrameView;
use crate::frame::FrameDependency;
use crate::planes::VideoBuffer;

verus! {

/// The type of an H.263 picture, as its header declares it.
#[derive(Clone, Copy, Debug, PartialEq, Eq, Structural)]
pub enum PictureTypeCode {
    IFrame,
    PFrame,
    PbFrame,
    ImprovedPbFrame,
    BFrame,
    EiFrame,
    EpFrame,
    Reserved(u8),
    DisposablePFrame,
}

/// What a decoder reads of a decoded H.263 picture: its size in pixels, if
/// the picture's format gives one.
#[derive(Clone, Copy, Debug)]
pub struct Picture {
    pub dimensions: Option<(u16, u16)>,
}

/// What a decoder reads of a VP6 frame header: the display size in
/// macroblocks.
#[derive(Clone, Copy, Debug, PartialEq, Eq, Structural)]
pub struct Vp6Header {
    pub disp_w: u8,
    pub disp_h: u8,
}

/// What the VP6 engine hands back for a decoded frame.
#[derive(Debug)]
pub enum DecodedBuffer {
    /// A planar picture of 8-bit samples.
    Video(VideoBuffer),
    /// Anything else.
    Other,
}

/// What a decoder asks the codec engine to do for the frame at hand.
#[derive(Clone, Copy, Debug, PartialEq, Eq, Structural)]
pub enum CodecRequest {
    /// Read the header of the H.263 picture in the payload.
    ParsePictureHeader,
    /// Decode the H.263 picture in the payload.
    DecodePicture,
    /// Convert the H.263 picture just decoded to RGBA.
    ConvertPicture,
    /// Read the VP6 frame header that starts `offset` bytes into the payload.
    ParseVp6Header { offset: usize },
    /// Set the VP6 engine up for pictures of this size, with or without an
    /// alpha plane.
    InitVp6 { width: usize, height: usize, with_alpha: bool },
    /// Decode the VP6 frame in the payload.
    DecodeVp6,
    /// Convert the luma and chroma planes that the decoder holds to RGBA.
    ConvertPlanes,
}

/// What the codec engine answers, or `Start` where nothing was asked yet.
#[derive(Debug)]
pub enum CodecEvent {
    /// A call for a frame begins.
    Start,
    /// The H.263 header was read; `None` where it could not be, or where the
    /// payload holds no picture.
    PictureHeader(Option<PictureTypeCode>),
    /// The H.263 picture was decoded; `None` where it could not be.
    Picture(Option<Picture>),
    /// The VP6 header was read; `None` where it could not be.
    Vp6Header(Option<Vp6Header>),
    /// The VP6 engine was set up, or could not be.
    Vp6Initialized(bool),
    /// The VP6 frame was decoded; `None` where it could not be.
    Vp6Frame(Option<DecodedBuffer>),
    /// The picture was converted to packed RGBA.
    Pixels(Vec<u8>),
}

/// What a decoder is waiting for between two steps of one frame.
#[derive(Clone, Copy, Debug, PartialEq, Eq, Structural)]
pub enum Awaiting {
    Nothing,
    Header,
    Init,
    Picture,
    Pixels,
}

/// How far preloading a frame has come.
#[derive(Clone, Copy, Debug, PartialEq, Eq, Structural)]
pub enum Preload {
    /// The frame's dependency is known.
    Ready(FrameDependency),
    /// The codec engine has to do this first.
    Request(CodecRequest),
}

/// How far decoding a frame has come.
#[derive(Debug)]
pub enum DecodeStep {
    /// The codec engine has to do this first.
    Request(CodecRequest),
    /// The frame is decoded. `undersized` says that the picture fell short
    /// of the stream's bounds, which is worth a warning and nothing more.
    Frame { frame: DecodedFrame, undersized: bool },
}

/// The result of a decoding step as a mathematical value.
pub enum Outcome {
    Request(CodecRequest),
    Frame { frame: DecodedFrameView, undersized: bool },
    Fail(Error),
}

/// What a step's result says.
pub open spec fn outcome_of(result: Result<DecodeStep, Error>) -> Outcome {
    match result {
        Ok(DecodeStep::Request(request)) => Outcome::Request(request),
        Ok(DecodeStep::Frame { frame, undersized }) => Outcome::Frame { frame: frame@, undersized },
        Err(error) => Outcome::Fail(error),
    }
}

} // verus!
