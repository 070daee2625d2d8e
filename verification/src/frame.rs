//! The values that cross the backend's boundary: codec tags, encoded and
//! decoded frames, bitmap and stream handles.

use vstd::prelude::*;

verus! {

/// The codec of a video stream, as its container declares it.
#[derive(Clone, Copy, Debug, PartialEq, Eq, Structural)]
pub enum VideoCodec {
    NoVideo,
    H263,
    ScreenVideo,
    Vp6,
    Vp6WithAlpha,
    ScreenVideoV2,
}

/// The deblocking filter that a stream asks for. The software decoders ignore it.
#[derive(Clone, Copy, Debug, PartialEq, Eq, Structural)]
pub enum VideoDeblocking {
    UseVideoPacketValue,
    NoDeblocking,
    Level1,
    Level2,
    Level3,
    Level4,
}

/// How a frame depends on the frames before it.
#[derive(Clone, Copy, Debug, PartialEq, Eq, Structural)]
pub enum FrameDependency {
    /// The frame can be decoded on its own: a keyframe.
    Independent,
    /// The frame needs the state that the frame before it left behind.
    Past,
}

/// One frame's compressed payload, borrowed from the caller for one call.
#[derive(Clone, Copy, Debug)]
pub struct EncodedFrame<'a> {
    /// The codec that the payload is written in.
    pub codec: VideoCodec,
    /// The payload, without any container framing.
    pub data: &'a [u8],
    /// The frame's ordinal in its stream; it plays no part in decoding.
    pub frame_id: u32,
}

impl<'a> EncodedFrame<'a> {
    /// The payload.
    pub fn data(&self) -> (data: &'a [u8])
        ensures
            data@ == self.data@,
    {
        self.data
    }
}

/// A decoded picture: packed RGBA, row by row, without padding.
#[derive(Debug)]
pub struct DecodedFrame {
    pub width: u16,
    pub height: u16,
    pub rgba: Vec<u8>,
}

/// A decoded picture as a mathematical value.
pub struct DecodedFrameView {
    pub width: u16,
    pub height: u16,
    pub rgba: Seq<u8>,
}

impl View for DecodedFrame {
    type V = DecodedFrameView;

    open spec fn view(&self) -> DecodedFrameView {
        DecodedFrameView { width: self.width, height: self.height, rgba: self.rgba@ }
    }
}

impl DecodedFrameView {
    /// The buffer holds four bytes for each pixel of the declared size.
    pub open spec fn wf(self) -> bool {
        self.rgba.len() == 4 * self.width * self.height
    }
}

/// A bitmap that the renderer holds.
#[derive(Clone, Copy, Debug, PartialEq, Eq, Structural)]
pub struct BitmapHandle(pub usize);

/// The bitmap that holds a stream's latest picture, and the picture's size.
#[derive(Clone, Copy, Debug, PartialEq, Eq, Structural)]
pub struct BitmapInfo {
    pub handle: BitmapHandle,
    pub width: u16,
    pub height: u16,
}

/// A stream of a backend: the slot it lives in and the slot's generation.
#[derive(Clone, Copy, Debug, PartialEq, Eq, Hash, Structural)]
pub struct VideoStreamHandle {
    pub index: usize,
    pub generation: u64,
}

} // verus!
