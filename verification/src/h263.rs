//! The H.263 decoder: it tells a frame's dependency from the picture type
//! in its header, and makes a frame of each picture that the codec engine
//! decodes.

use vstd::prelude::*;
use crate::codec::Awaiting;
use crate::codec::CodecEvent;
use crate::codec::CodecRequest;
use crate::codec::DecodeStep;
use crate::codec::Outcome;
use crate::codec::Picture;
use crate::codec::PictureTypeCode;
use crate::codec::Preload;
use crate::codec::outcome_of;
use crate::error::Error;
use crate::frame::DecodedFrame;
use crate::frame::DecodedFrameView;
use crate::frame::EncodedFrame;
use crate::frame::FrameDependency;

verus! {

/// How a picture of the given type depends on the pictures before it: an
/// intra-coded picture stands alone, a predicted one, disposable or not,
/// needs the picture before it, and no other type may occur.
pub open spec fn h263_dependency(picture_type: PictureTypeCode) -> Result<FrameDependency, Error> {
    match picture_type {
        PictureTypeCode::IFrame => Ok(FrameDependency::Independent),
        PictureTypeCode::PFrame => Ok(FrameDependency::Past),
        PictureTypeCode::DisposablePFrame => Ok(FrameDependency::Past),
        _ => Err(Error::InvalidPictureType),
    }
}

/// What preloading an H.263 frame gives: first the request to read the
/// picture's header, then the dependency that the header's picture type
/// tells.
pub open spec fn h263_preload(event: CodecEvent) -> Result<Preload, Error> {
    match event {
        CodecEvent::Start => Ok(Preload::Request(CodecRequest::ParsePictureHeader)),
        CodecEvent::PictureHeader(Some(picture_type)) => match h263_dependency(picture_type) {
            Ok(dependency) => Ok(Preload::Ready(dependency)),
            Err(error) => Err(error),
        },
        CodecEvent::PictureHeader(None) => Err(Error::HeaderParseError),
        _ => Err(Error::BitstreamDecodeError),
    }
}

/// The state of an H.263 decoder as a mathematical value.
pub struct H263DecoderView {
    /// What the decoder has asked the codec engine for.
    pub awaiting: Awaiting,
    /// The size of the picture whose colours are awaited.
    pub dimensions: (u16, u16),
}

impl H263DecoderView {
    /// A decoder before its first frame.
    pub open spec fn initial() -> H263DecoderView {
        H263DecoderView { awaiting: Awaiting::Nothing, dimensions: (0, 0) }
    }

    /// The decoder gives the frame up with `error`.
    pub open spec fn stop(self, error: Error) -> (H263DecoderView, Outcome) {
        (H263DecoderView { awaiting: Awaiting::Nothing, ..self }, Outcome::Fail(error))
    }

    /// An answer that was not asked for: the decoder fails and stays as it is.
    pub open spec fn unexpected(self) -> (H263DecoderView, Outcome) {
        (self, Outcome::Fail(Error::BitstreamDecodeError))
    }

    /// The frame that the colours `rgba` make of the picture at hand.
    /// Colours of another size than the picture are refused.
    pub open spec fn finish(self, rgba: Seq<u8>) -> (H263DecoderView, Outcome) {
        if rgba.len() == 4 * self.dimensions.0 * self.dimensions.1 {
            (
                H263DecoderView { awaiting: Awaiting::Nothing, ..self },
                Outcome::Frame {
                    frame: DecodedFrameView {
                        width: self.dimensions.0,
                        height: self.dimensions.1,
                        rgba,
                    },
                    undersized: false,
                },
            )
        } else {
            self.stop(Error::BufferTypeMismatch)
        }
    }

    /// One step of decoding a frame: the state after it and what it hands
    /// back for the answer `event` of the engine. The picture is decoded
    /// first; where that works and its format tells a size, its colours
    /// are asked for, and they make the frame.
    pub open spec fn step(self, event: CodecEvent) -> (H263DecoderView, Outcome) {
        match event {
            CodecEvent::Start => (
                H263DecoderView { awaiting: Awaiting::Picture, ..self },
                Outcome::Request(CodecRequest::DecodePicture),
            ),
            CodecEvent::Picture(picture) => if self.awaiting == Awaiting::Picture {
                match picture {
                    Some(Picture { dimensions: Some(dimensions) }) => (
                        H263DecoderView { awaiting: Awaiting::Pixels, dimensions },
                        Outcome::Request(CodecRequest::ConvertPicture),
                    ),
                    _ => self.stop(Error::BitstreamDecodeError),
                }
            } else {
                self.unexpected()
            },
            CodecEvent::Pixels(rgba) => if self.awaiting == Awaiting::Pixels {
                self.finish(rgba@)
            } else {
                self.unexpected()
            },
            _ => self.unexpected(),
        }
    }
}

/// H263 video decoder.
#[derive(Debug)]
pub struct H263Decoder {
    awaiting: Awaiting,
    dimensions: (u16, u16),
}

impl View for H263Decoder {
    type V = H263DecoderView;

    closed spec fn view(&self) -> H263DecoderView {
        H263DecoderView { awaiting: self.awaiting, dimensions: self.dimensions }
    }
}

impl H263Decoder {
    /// A decoder before its first frame.
    pub fn new() -> (decoder: H263Decoder)
        ensures
            decoder@ == H263DecoderView::initial(),
    {
        H263Decoder { awaiting: Awaiting::Nothing, dimensions: (0, 0) }
    }

    /// Tells how the frame depends on the frames before it. The first step
    /// asks for the picture's header to be read; the step that is given the
    /// header's picture type tells the dependency. The decoder stays as it
    /// is.
    pub fn preload_frame(&self, encoded_frame: EncodedFrame<'_>, event: CodecEvent) -> (result:
        Result<Preload, Error>)
        ensures
            result == h263_preload(event),
    {
        match event {
            CodecEvent::Start => Ok(Preload::Request(CodecRequest::ParsePictureHeader)),
            CodecEvent::PictureHeader(Some(picture_type)) => match picture_type {
                PictureTypeCode::IFrame => Ok(Preload::Ready(FrameDependency::Independent)),
                PictureTypeCode::PFrame => Ok(Preload::Ready(FrameDependency::Past)),
                PictureTypeCode::DisposablePFrame => Ok(Preload::Ready(FrameDependency::Past)),
                _ => Err(Error::InvalidPictureType),
            },
            CodecEvent::PictureHeader(None) => Err(Error::HeaderParseError),
            _ => Err(Error::BitstreamDecodeError),
        }
    }

    /// Takes one step of decoding the frame: `event` is `Start` when the
    /// call for the frame begins, and after that the codec engine's answer
    /// to the request that the step before handed back. An answer that was
    /// not asked for fails and changes nothing.
    pub fn decode_frame(&mut self, encoded_frame: EncodedFrame<'_>, event: CodecEvent) -> (result:
        Result<DecodeStep, Error>)
        ensures
            (final(self)@, outcome_of(result)) == old(self)@.step(event),
    {
        match event {
            CodecEvent::Start => {
                self.awaiting = Awaiting::Picture;
                Ok(DecodeStep::Request(CodecRequest::DecodePicture))
            },
            CodecEvent::Picture(picture) => {
                if self.awaiting == Awaiting::Picture {
                    match picture {
                        Some(Picture { dimensions: Some(dimensions) }) => {
                            self.dimensions = dimensions;
                            self.awaiting = Awaiting::Pixels;
                            Ok(DecodeStep::Request(CodecRequest::ConvertPicture))
                        },
                        _ => {
                            self.awaiting = Awaiting::Nothing;
                            Err(Error::BitstreamDecodeError)
                        },
                    }
                } else {
                    Err(Error::BitstreamDecodeError)
                }
            },
            CodecEvent::Pixels(rgba) => {
                if self.awaiting == Awaiting::Pixels {
                    self.awaiting = Awaiting::Nothing;
                    let width = self.dimensions.0;
                    let height = self.dimensions.1;
                    assert(4 * width * height <= 4 * 0xffff * 0xffff) by (nonlinear_arith)
                        requires
                            0 <= width <= 0xffff,
                            0 <= height <= 0xffff,
                    ;
                    assert(0 <= 4 * width) by (nonlinear_arith)
                        requires
                            0 <= width,
                    ;
                    let expected: u64 = 4 * (width as u64) * (height as u64);
                    if rgba.len() as u64 == expected {
                        Ok(DecodeStep::Frame { frame: DecodedFrame { width, height, rgba }, undersized: false })
                    } else {
                        Err(Error::BufferTypeMismatch)
                    }
                } else {
                    Err(Error::BitstreamDecodeError)
                }
            },
            _ => Err(Error::BitstreamDecodeError),
        }
    }
}

impl Default for H263Decoder {
    fn default() -> (decoder: H263Decoder)
        ensures
            decoder@ == H263DecoderView::initial(),
    {
        H263Decoder::new()
    }
}

/// Every frame that a step hands back has the size of the picture at hand
/// and four bytes for each of its pixels.
pub proof fn lemma_frames_are_complete(state: H263DecoderView, event: CodecEvent)
    ensures
        state.step(event).1 matches Outcome::Frame { frame, undersized } ==> {
            &&& state.awaiting == Awaiting::Pixels
            &&& frame.width == state.dimensions.0
            &&& frame.height == state.dimensions.1
            &&& frame.wf()
        },
{
}

} // verus!
