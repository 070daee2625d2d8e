//! The software video backend: a registry of streams, each with the decoder
//! of its codec and the bitmap that shows its latest picture.
//!
//! The renderer owns the bitmaps and stands outside, as the codec engines
//! do. A step that has a frame to show hands back what the renderer is to
//! do with it, and the step after is given what the renderer answered.

use vstd::prelude::*;
use generational_arena::Arena;
use crate::arena::arena_get;
use crate::arena::arena_get_mut;
use crate::arena::arena_insert;
use crate::arena::arena_len;
use crate::arena::arena_new;
use crate::arena::arena_streams;
use crate::codec::Awaiting;
use crate::codec::CodecEvent;
use crate::codec::CodecRequest;
use crate::codec::DecodeStep;
use crate::codec::Outcome;
use crate::codec::Preload;
use crate::codec::outcome_of;
use crate::error::Error;
use crate::frame::BitmapHandle;
use crate::frame::BitmapInfo;
use crate::frame::DecodedFrame;
use crate::frame::DecodedFrameView;
use crate::frame::EncodedFrame;
use crate::frame::VideoCodec;
use crate::frame::VideoDeblocking;
use crate::frame::VideoStreamHandle;
use crate::h263::H263Decoder;
use crate::h263::H263DecoderView;
use crate::h263::h263_preload;
use crate::h263::lemma_frames_are_complete;
use crate::planes::VideoBuffer;
use crate::planes::VideoBufferView;
use crate::vp6::Vp6Decoder;
use crate::vp6::Vp6DecoderView;
use crate::vp6::event_wf;
use crate::vp6::lemma_pictures_fit_bounds;
use crate::vp6::lemma_step_preserves_wf;
use crate::vp6::vp6_preload;

verus! {

/// The decoder of a stream, one for each codec that the backend knows.
#[derive(Debug)]
pub enum VideoDecoder {
    H263(H263Decoder),
    Vp6(Vp6Decoder),
}

/// The decoder of a stream as a mathematical value.
pub enum VideoDecoderView {
    H263(H263DecoderView),
    Vp6(Vp6DecoderView),
}

impl View for VideoDecoder {
    type V = VideoDecoderView;

    open spec fn view(&self) -> VideoDecoderView {
        match self {
            VideoDecoder::H263(decoder) => VideoDecoderView::H263(decoder@),
            VideoDecoder::Vp6(decoder) => VideoDecoderView::Vp6(decoder@),
        }
    }
}

impl VideoDecoderView {
    /// The decoder that a new stream of the given codec and declared size
    /// gets, where there is one for the codec.
    pub open spec fn for_codec(codec: VideoCodec, size: (u16, u16)) -> Option<VideoDecoderView> {
        match codec {
            VideoCodec::H263 => Some(VideoDecoderView::H263(H263DecoderView::initial())),
            VideoCodec::Vp6 => Some(VideoDecoderView::Vp6(Vp6DecoderView::initial(false, size))),
            VideoCodec::Vp6WithAlpha => Some(
                VideoDecoderView::Vp6(Vp6DecoderView::initial(true, size)),
            ),
            _ => None,
        }
    }

    /// What holds of every decoder; see [`Vp6DecoderView::wf`]. Of an H.263
    /// decoder nothing needs to hold.
    pub open spec fn wf(self) -> bool {
        self matches VideoDecoderView::Vp6(decoder) ==> decoder.wf()
    }

    /// The size that the stream declares, where the decoder crops its
    /// pictures to it. An H.263 decoder hands its pictures on as they are.
    pub open spec fn bounds(self) -> Option<(u16, u16)> {
        match self {
            VideoDecoderView::H263(_) => None,
            VideoDecoderView::Vp6(decoder) => Some(decoder.bounds),
        }
    }

    /// What preloading a frame gives with this decoder.
    pub open spec fn preload(self, data: Seq<u8>, event: CodecEvent) -> Result<Preload, Error> {
        match self {
            VideoDecoderView::H263(_) => h263_preload(event),
            VideoDecoderView::Vp6(_) => vp6_preload(data, event),
        }
    }

    /// The picture whose planes the decoder has asked to be converted and
    /// still waits for, where there is one. An H.263 decoder holds none:
    /// its pictures stay with the codec engine.
    pub open spec fn frame_to_convert(self) -> Option<VideoBufferView> {
        match self {
            VideoDecoderView::Vp6(decoder) if decoder.awaiting == Awaiting::Pixels
                => decoder.last_frame,
            _ => None,
        }
    }

    /// One step of decoding a frame with this decoder.
    pub open spec fn step(self, data: Seq<u8>, event: CodecEvent) -> (VideoDecoderView, Outcome) {
        match self {
            VideoDecoderView::H263(decoder) => {
                let (next, outcome) = decoder.step(event);
                (VideoDecoderView::H263(next), outcome)
            },
            VideoDecoderView::Vp6(decoder) => {
                let (next, outcome) = decoder.step(data, event);
                (VideoDecoderView::Vp6(next), outcome)
            },
        }
    }
}

impl VideoDecoder {
    /// Tells how the frame depends on the frames before it, without
    /// decoding it. Frames are to be preloaded in the order they arrive.
    pub fn preload_frame(&self, encoded_frame: EncodedFrame<'_>, event: CodecEvent) -> (result:
        Result<Preload, Error>)
        ensures
            result == self@.preload(encoded_frame.data@, event),
    {
        match self {
            VideoDecoder::H263(decoder) => decoder.preload_frame(encoded_frame, event),
            VideoDecoder::Vp6(decoder) => decoder.preload_frame(encoded_frame, event),
        }
    }

    /// Takes one step of decoding the frame. Whatever the step is given,
    /// the decoder is well formed after it, the bounds of its stream are
    /// what they were, and a frame that it hands back is complete and
    /// within those bounds.
    pub fn decode_frame(&mut self, encoded_frame: EncodedFrame<'_>, event: CodecEvent) -> (result:
        Result<DecodeStep, Error>)
        ensures
            (final(self)@, outcome_of(result)) == old(self)@.step(encoded_frame.data@, event),
            final(self)@.wf(),
            final(self)@.bounds() == old(self)@.bounds(),
            result matches Ok(DecodeStep::Frame { frame, .. }) ==> frame@.wf() && fits(
                frame.width,
                frame.height,
                old(self)@.bounds(),
            ),
    {
        match self {
            VideoDecoder::H263(decoder) => {
                proof {
                    lemma_frames_are_complete(decoder@, event);
                }
                decoder.decode_frame(encoded_frame, event)
            },
            VideoDecoder::Vp6(decoder) => decoder.decode_frame(encoded_frame, event),
        }
    }

    /// The picture whose planes await conversion, where the decoder has
    /// asked for that.
    pub fn frame_to_convert(&self) -> (buffer: Option<&VideoBuffer>)
        ensures
            match buffer {
                Some(b) => self@.frame_to_convert() == Some(b@) && b@.wf(),
                None => self@.frame_to_convert() is None,
            },
    {
        match self {
            VideoDecoder::H263(_) => None,
            VideoDecoder::Vp6(decoder) => decoder.frame_to_convert(),
        }
    }
}

/// Whether a picture of the given size lies within the bounds, where there
/// are any.
pub open spec fn fits(width: u16, height: u16, bounds: Option<(u16, u16)>) -> bool {
    bounds matches Some(bounds) ==> width <= bounds.0 && height <= bounds.1
}

/// What the renderer is asked to do with a decoded frame.
#[derive(Debug)]
pub enum RenderCall {
    /// Make a bitmap of the frame.
    Register { width: u32, height: u32, rgba: Vec<u8> },
    /// Put the frame into the bitmap that the stream has.
    Update { handle: BitmapHandle, width: u32, height: u32, rgba: Vec<u8> },
}

/// A request to the renderer as a mathematical value.
pub enum RenderCallView {
    Register { width: u32, height: u32, rgba: Seq<u8> },
    Update { handle: BitmapHandle, width: u32, height: u32, rgba: Seq<u8> },
}

impl RenderCallView {
    /// The width of the picture that is handed over.
    pub open spec fn width(self) -> u32 {
        match self {
            RenderCallView::Register { width, .. } => width,
            RenderCallView::Update { width, .. } => width,
        }
    }

    /// The height of the picture that is handed over.
    pub open spec fn height(self) -> u32 {
        match self {
            RenderCallView::Register { height, .. } => height,
            RenderCallView::Update { height, .. } => height,
        }
    }

    /// The pixels that are handed over.
    pub open spec fn rgba(self) -> Seq<u8> {
        match self {
            RenderCallView::Register { rgba, .. } => rgba,
            RenderCallView::Update { rgba, .. } => rgba,
        }
    }

    /// The picture has four bytes for each of its pixels.
    pub open spec fn complete(self) -> bool {
        self.rgba().len() == 4 * self.width() * self.height()
    }

    /// The picture lies within the bounds, where there are any.
    pub open spec fn within(self, bounds: Option<(u16, u16)>) -> bool {
        bounds matches Some(bounds) ==> self.width() <= bounds.0 && self.height() <= bounds.1
    }
}

impl View for RenderCall {
    type V = RenderCallView;

    open spec fn view(&self) -> RenderCallView {
        match self {
            RenderCall::Register { width, height, rgba } => RenderCallView::Register {
                width: *width,
                height: *height,
                rgba: rgba@,
            },
            RenderCall::Update { handle, width, height, rgba } => RenderCallView::Update {
                handle: *handle,
                width: *width,
                height: *height,
                rgba: rgba@,
            },
        }
    }
}

/// What the renderer answers to a request.
#[derive(Clone, Copy, Debug, PartialEq, Eq, Structural)]
pub enum RenderAnswer {
    /// It has made a bitmap of the frame; this is the bitmap's handle.
    Registered(BitmapHandle),
    /// It has put the frame into the stream's bitmap.
    Updated,
    /// It could not do what was asked.
    Failed(Error),
}

/// What a step of decoding a stream's frame is given: the answer of the
/// codec engine, or `Start` in its place when the call begins, or the
/// answer of the renderer.
#[derive(Debug)]
pub enum DecodeEvent {
    Codec(CodecEvent),
    Rendered(RenderAnswer),
}

/// A frame that is with the renderer: its size, and whether it fell short
/// of the stream's bounds.
#[derive(Clone, Copy, Debug, PartialEq, Eq, Structural)]
pub struct Pending {
    pub width: u16,
    pub height: u16,
    pub undersized: bool,
}

/// How far decoding a frame of a stream has come.
#[derive(Debug)]
pub enum DecodeProgress {
    /// The codec engine has to do this first.
    Request(CodecRequest),
    /// The frame is decoded; the renderer has to do this with it.
    Render(RenderCall),
    /// The frame is decoded and shown. `undersized` says that the picture
    /// fell short of the stream's bounds, which is worth a warning and
    /// nothing more.
    Bitmap { info: BitmapInfo, undersized: bool },
}

/// The result of a step as a mathematical value.
pub enum Progress {
    Request(CodecRequest),
    Render(RenderCallView),
    Bitmap { info: BitmapInfo, undersized: bool },
    Fail(Error),
}

/// What a step's result says.
pub open spec fn progress_of(result: Result<DecodeProgress, Error>) -> Progress {
    match result {
        Ok(DecodeProgress::Request(request)) => Progress::Request(request),
        Ok(DecodeProgress::Render(call)) => Progress::Render(call@),
        Ok(DecodeProgress::Bitmap { info, undersized }) => Progress::Bitmap { info, undersized },
        Err(error) => Progress::Fail(error),
    }
}

/// A single video stream.
#[derive(Debug)]
pub struct VideoStream {
    bitmap: Option<BitmapHandle>,
    decoder: VideoDecoder,
    pending: Option<Pending>,
}

/// A stream as a mathematical value.
pub struct VideoStreamView {
    /// The bitmap that shows the stream's latest picture, once there is one.
    pub bitmap: Option<BitmapHandle>,
    /// The stream's decoder.
    pub decoder: VideoDecoderView,
    /// The frame that is with the renderer, while one is.
    pub pending: Option<Pending>,
}

impl View for VideoStream {
    type V = VideoStreamView;

    closed spec fn view(&self) -> VideoStreamView {
        VideoStreamView { bitmap: self.bitmap, decoder: self.decoder@, pending: self.pending }
    }
}

impl VideoStreamView {
    /// A stream that has shown nothing yet.
    pub open spec fn initial(decoder: VideoDecoderView) -> VideoStreamView {
        VideoStreamView { bitmap: None, decoder, pending: None }
    }

    /// What holds of every stream: its decoder is well formed, and a frame
    /// that is with the renderer lies within the bounds of the stream.
    pub open spec fn wf(self) -> bool {
        &&& self.decoder.wf()
        &&& self.pending matches Some(shown) ==> fits(
            shown.width,
            shown.height,
            self.decoder.bounds(),
        )
    }

    /// What the renderer is asked to do with a frame of this stream: the
    /// first frame makes the stream's bitmap, every later one goes into it.
    pub open spec fn render_call(self, frame: DecodedFrameView) -> RenderCallView {
        match self.bitmap {
            Some(handle) => RenderCallView::Update {
                handle,
                width: frame.width as u32,
                height: frame.height as u32,
                rgba: frame.rgba,
            },
            None => RenderCallView::Register {
                width: frame.width as u32,
                height: frame.height as u32,
                rgba: frame.rgba,
            },
        }
    }

    /// An answer that was not asked for: the step fails and the stream
    /// stays as it is.
    pub open spec fn unexpected(self) -> (VideoStreamView, Progress) {
        (self, Progress::Fail(Error::BitstreamDecodeError))
    }

    /// The decoder takes a step. Its request or its failure is handed on.
    /// A frame that it hands back goes to the renderer: the stream asks for
    /// it to be shown and keeps its size until the renderer has answered.
    pub open spec fn decoded(self, data: Seq<u8>, event: CodecEvent) -> (VideoStreamView, Progress) {
        let (decoder, outcome) = self.decoder.step(data, event);
        match outcome {
            Outcome::Request(request) => (
                VideoStreamView { decoder, pending: None, ..self },
                Progress::Request(request),
            ),
            Outcome::Fail(error) => (
                VideoStreamView { decoder, pending: None, ..self },
                Progress::Fail(error),
            ),
            Outcome::Frame { frame, undersized } => (
                VideoStreamView {
                    decoder,
                    pending: Some(
                        Pending { width: frame.width, height: frame.height, undersized },
                    ),
                    ..self
                },
                Progress::Render(self.render_call(frame)),
            ),
        }
    }

    /// The renderer has answered for the frame `shown`. A bitmap that it
    /// made becomes the stream's bitmap; a bitmap that it updated stays the
    /// stream's bitmap; either way the step names that bitmap and the size
    /// of the frame. Its failure is the failure of the step and leaves the
    /// bitmap as it was. An answer of the other kind than was asked for was
    /// not asked for.
    pub open spec fn rendered(self, shown: Pending, answer: RenderAnswer) -> (
        VideoStreamView,
        Progress,
    ) {
        match answer {
            RenderAnswer::Registered(handle) => if self.bitmap is None {
                (
                    VideoStreamView { bitmap: Some(handle), pending: None, ..self },
                    Progress::Bitmap {
                        info: BitmapInfo { handle, width: shown.width, height: shown.height },
                        undersized: shown.undersized,
                    },
                )
            } else {
                self.unexpected()
            },
            RenderAnswer::Updated => match self.bitmap {
                Some(handle) => (
                    VideoStreamView { pending: None, ..self },
                    Progress::Bitmap {
                        info: BitmapInfo { handle, width: shown.width, height: shown.height },
                        undersized: shown.undersized,
                    },
                ),
                None => self.unexpected(),
            },
            RenderAnswer::Failed(error) => (
                VideoStreamView { pending: None, ..self },
                Progress::Fail(error),
            ),
        }
    }

    /// One step of decoding a frame of the stream: the stream after it and
    /// what it hands back. While a frame is with the renderer the stream
    /// waits for the renderer's answer, or for the next call to begin;
    /// otherwise the step is the decoder's.
    pub open spec fn step(self, data: Seq<u8>, event: DecodeEvent) -> (VideoStreamView, Progress) {
        match event {
            DecodeEvent::Codec(event) => if self.pending is Some && !(event is Start) {
                self.unexpected()
            } else {
                self.decoded(data, event)
            },
            DecodeEvent::Rendered(answer) => match self.pending {
                Some(shown) => self.rendered(shown, answer),
                None => self.unexpected(),
            },
        }
    }
}

impl VideoStream {
    /// A stream that has shown nothing yet.
    pub fn new(decoder: VideoDecoder) -> (stream: VideoStream)
        ensures
            stream@ == VideoStreamView::initial(decoder@),
            decoder@.wf() ==> stream@.wf(),
    {
        VideoStream { decoder, bitmap: None, pending: None }
    }

    /// The request that brings `frame` to the renderer.
    pub fn render_call(&self, frame: DecodedFrame) -> (call: RenderCall)
        ensures
            call@ == self@.render_call(frame@),
    {
        match self.bitmap {
            Some(handle) => RenderCall::Update {
                handle,
                width: frame.width as u32,
                height: frame.height as u32,
                rgba: frame.rgba,
            },
            None => RenderCall::Register {
                width: frame.width as u32,
                height: frame.height as u32,
                rgba: frame.rgba,
            },
        }
    }

    /// Takes the renderer's answer for the frame `shown`.
    fn rendered(&mut self, shown: Pending, answer: RenderAnswer) -> (result: Result<
        DecodeProgress,
        Error,
    >)
        ensures
            (final(self)@, progress_of(result)) == old(self)@.rendered(shown, answer),
    {
        let width = shown.width;
        let height = shown.height;
        let undersized = shown.undersized;
        match answer {
            RenderAnswer::Registered(handle) => {
                if self.bitmap.is_none() {
                    self.bitmap = Some(handle);
                    self.pending = None;
                    Ok(
                        DecodeProgress::Bitmap {
                            info: BitmapInfo { handle, width, height },
                            undersized,
                        },
                    )
                } else {
                    Err(Error::BitstreamDecodeError)
                }
            },
            RenderAnswer::Updated => match self.bitmap {
                Some(handle) => {
                    self.pending = None;
                    Ok(
                        DecodeProgress::Bitmap {
                            info: BitmapInfo { handle, width, height },
                            undersized,
                        },
                    )
                },
                None => Err(Error::BitstreamDecodeError),
            },
            RenderAnswer::Failed(error) => {
                self.pending = None;
                Err(error)
            },
        }
    }

    /// Takes one step of decoding a frame of the stream. `event` is the
    /// codec engine's answer to the request of the step before, or `Start`
    /// when the call begins, or the renderer's answer where the step before
    /// asked for a frame to be shown. A request, to the engine or to the
    /// renderer, waits for its answer; a bitmap or a failure ends the call.
    /// An answer that was not asked for fails and changes nothing.
    pub fn decode_frame(&mut self, encoded_frame: EncodedFrame<'_>, event: DecodeEvent) -> (result:
        Result<DecodeProgress, Error>)
        ensures
            (final(self)@, progress_of(result)) == old(self)@.step(encoded_frame.data@, event),
            old(self)@.wf() ==> final(self)@.wf(),
            final(self)@.decoder.bounds() == old(self)@.decoder.bounds(),
            old(self)@.wf() ==> (result matches Ok(DecodeProgress::Bitmap { info, .. }) ==> fits(
                info.width,
                info.height,
                old(self)@.decoder.bounds(),
            )),
    {
        match event {
            DecodeEvent::Codec(event) => {
                let starts = match event {
                    CodecEvent::Start => true,
                    _ => false,
                };
                if self.pending.is_some() && !starts {
                    Err(Error::BitstreamDecodeError)
                } else {
                    match self.decoder.decode_frame(encoded_frame, event) {
                        Ok(DecodeStep::Request(request)) => {
                            self.pending = None;
                            Ok(DecodeProgress::Request(request))
                        },
                        Ok(DecodeStep::Frame { frame, undersized }) => {
                            self.pending = Some(
                                Pending { width: frame.width, height: frame.height, undersized },
                            );
                            Ok(DecodeProgress::Render(self.render_call(frame)))
                        },
                        Err(error) => {
                            self.pending = None;
                            Err(error)
                        },
                    }
                }
            },
            DecodeEvent::Rendered(answer) => match self.pending {
                Some(shown) => self.rendered(shown, answer),
                None => Err(Error::BitstreamDecodeError),
            },
        }
    }
}

/// The renderer is asked for nothing but to show a frame that the decoder
/// has just handed back, and then for exactly that frame, into the stream's
/// bitmap where it has one. No other step hands back a request to the
/// renderer: not one that asks the engine for more, not one that fails,
/// not one that is given an answer that was not asked for, and not the one
/// that takes the renderer's own answer.
pub proof fn lemma_renderer_is_asked_for_frames_only(
    stream: VideoStreamView,
    data: Seq<u8>,
    event: DecodeEvent,
)
    ensures
        stream.step(data, event).1 matches Progress::Render(call) ==> {
            &&& event matches DecodeEvent::Codec(answer)
            &&& stream.decoder.step(data, answer).1 matches Outcome::Frame { frame, undersized }
            &&& call == stream.render_call(frame)
            &&& stream.step(data, event).0.pending == Some(
                Pending { width: frame.width, height: frame.height, undersized },
            )
            &&& stream.step(data, event).0.bitmap == stream.bitmap
            &&& stream.bitmap is None <==> call is Register
        },
{
}

/// What is shown lies within the bounds that the stream declares. Of a
/// well-formed stream a step asks the renderer only for pictures within the
/// bounds, and names only bitmaps of a size within the bounds; the bounds
/// stay what they are, and the stream stays well formed.
pub proof fn lemma_shown_within_bounds(stream: VideoStreamView, data: Seq<u8>, event: DecodeEvent)
    requires
        stream.wf(),
        event matches DecodeEvent::Codec(answer) ==> event_wf(answer),
    ensures
        stream.step(data, event).0.wf(),
        stream.step(data, event).0.decoder.bounds() == stream.decoder.bounds(),
        stream.step(data, event).1 matches Progress::Bitmap { info, .. } ==> fits(
            info.width,
            info.height,
            stream.decoder.bounds(),
        ),
        stream.step(data, event).1 matches Progress::Render(call) ==> call.complete()
            && call.within(stream.decoder.bounds()),
{
    match event {
        DecodeEvent::Codec(answer) => {
            match stream.decoder {
                VideoDecoderView::Vp6(decoder) => {
                    lemma_step_preserves_wf(decoder, data, answer);
                    lemma_pictures_fit_bounds(decoder, data, answer);
                },
                VideoDecoderView::H263(decoder) => {
                    lemma_frames_are_complete(decoder, answer);
                },
            }
        },
        DecodeEvent::Rendered(_) => {},
    }
}

/// A stream's bitmap is made once: whatever a step is given, a stream that
/// had a bitmap before it has the same bitmap after it, and a bitmap that
/// the step names is that one.
pub proof fn lemma_bitmap_is_kept(stream: VideoStreamView, data: Seq<u8>, event: DecodeEvent)
    requires
        stream.bitmap is Some,
    ensures
        stream.step(data, event).0.bitmap == stream.bitmap,
        stream.step(data, event).1 matches Progress::Bitmap { info, .. } ==> Some(info.handle)
            == stream.bitmap,
        !(stream.step(data, event).1 matches Progress::Render(call) && call is Register),
{
}

/// The renderer's answer decides how a shown frame ends. For a stream that
/// waits for the renderer: the handle of a bitmap that was made for its
/// first frame is the stream's bitmap from then on and the handle that the
/// step names; an update that worked names the stream's own bitmap; and a
/// failure of the renderer is the failure of the step, which leaves the
/// bitmap as it was. Each names the size of the frame that was shown.
pub proof fn lemma_renderer_decides(
    stream: VideoStreamView,
    data: Seq<u8>,
    handle: BitmapHandle,
    error: Error,
)
    requires
        stream.pending is Some,
    ensures
        ({
            let shown = stream.pending->0;
            let made = stream.step(data, DecodeEvent::Rendered(RenderAnswer::Registered(handle)));
            let updated = stream.step(data, DecodeEvent::Rendered(RenderAnswer::Updated));
            let failed = stream.step(data, DecodeEvent::Rendered(RenderAnswer::Failed(error)));
            &&& stream.bitmap is None ==> made.0.bitmap == Some(handle) && made.1
                == (Progress::Bitmap {
                info: BitmapInfo { handle, width: shown.width, height: shown.height },
                undersized: shown.undersized,
            })
            &&& stream.bitmap matches Some(own) ==> updated.0.bitmap == Some(own) && updated.1
                == (Progress::Bitmap {
                info: BitmapInfo { handle: own, width: shown.width, height: shown.height },
                undersized: shown.undersized,
            })
            &&& failed.0.bitmap == stream.bitmap && failed.1 == Progress::Fail(error)
            &&& made.0.decoder == stream.decoder && updated.0.decoder == stream.decoder
                && failed.0.decoder == stream.decoder
        }),
{
}

/// Software video backend that proxies to CPU-only codec implementations.
pub struct SoftwareVideoBackend {
    streams: Arena<VideoStream>,
    h263: bool,
    vp6: bool,
}

impl View for SoftwareVideoBackend {
    type V = Map<VideoStreamHandle, VideoStreamView>;

    closed spec fn view(&self) -> Map<VideoStreamHandle, VideoStreamView> {
        arena_streams(self.streams).map_values(|stream: VideoStream| stream@)
    }
}

impl SoftwareVideoBackend {
    /// Whether the backend has a decoder for H.263.
    pub closed spec fn h263_enabled(&self) -> bool {
        self.h263
    }

    /// Whether the backend has a decoder for VP6.
    pub closed spec fn vp6_enabled(&self) -> bool {
        self.vp6
    }

    /// What holds of every backend: each of its streams is well formed.
    pub open spec fn wf(&self) -> bool {
        forall|stream: VideoStreamHandle|
            self@.contains_key(stream) ==> (#[trigger] self@[stream]).wf()
    }

    /// Whether the backend can decode streams of the codec.
    pub open spec fn supports(&self, codec: VideoCodec) -> bool {
        match codec {
            VideoCodec::H263 => self.h263_enabled(),
            VideoCodec::Vp6 => self.vp6_enabled(),
            VideoCodec::Vp6WithAlpha => self.vp6_enabled(),
            _ => false,
        }
    }

    /// A backend without streams that has every decoder.
    pub fn new() -> (backend: SoftwareVideoBackend)
        ensures
            backend@ == (Map::<VideoStreamHandle, VideoStreamView>::empty()),
            backend@.dom().finite(),
            backend.wf(),
            backend.h263_enabled(),
            backend.vp6_enabled(),
    {
        SoftwareVideoBackend::with_codecs(true, true)
    }

    /// A backend without streams that has the decoders named.
    pub fn with_codecs(h263: bool, vp6: bool) -> (backend: SoftwareVideoBackend)
        ensures
            backend@ == (Map::<VideoStreamHandle, VideoStreamView>::empty()),
            backend@.dom().finite(),
            backend.wf(),
            backend.h263_enabled() == h263,
            backend.vp6_enabled() == vp6,
    {
        let backend = SoftwareVideoBackend { streams: arena_new(), h263, vp6 };
        assert(backend@ =~= Map::<VideoStreamHandle, VideoStreamView>::empty());
        backend
    }

    /// The number of streams.
    pub fn stream_count(&self) -> (count: usize)
        ensures
            count == self@.len(),
    {
        let count = arena_len(&self.streams);
        assert(self@.dom() =~= arena_streams(self.streams).dom());
        count
    }

    /// Registers a stream of the given codec and declared size, and hands
    /// back its handle. A codec for which the backend has no decoder is
    /// refused, and nothing is registered. The number of frames and the
    /// deblocking filter play no part.
    pub fn register_video_stream(
        &mut self,
        num_frames: u32,
        size: (u16, u16),
        codec: VideoCodec,
        filter: VideoDeblocking,
    ) -> (result: Result<VideoStreamHandle, Error>)
        ensures
            final(self).h263_enabled() == old(self).h263_enabled(),
            final(self).vp6_enabled() == old(self).vp6_enabled(),
            result is Ok <==> old(self).supports(codec),
            match result {
                Ok(handle) => VideoDecoderView::for_codec(codec, size) matches Some(decoder)
                    && !old(self)@.contains_key(handle) && final(self)@ == old(self)@.insert(
                    handle,
                    VideoStreamView::initial(decoder),
                ),
                Err(error) => error == Error::UnsupportedCodec && final(self)@ == old(self)@,
            },
            old(self).wf() ==> final(self).wf(),
            old(self)@.dom().finite() ==> final(self)@.dom().finite(),
            old(self)@.dom().finite() ==> final(self)@.len() == old(self)@.len() + (if result
                is Ok {
                1nat
            } else {
                0nat
            }),
    {
        let decoder = match codec {
            VideoCodec::H263 => {
                if !self.h263 {
                    return Err(Error::UnsupportedCodec);
                }
                VideoDecoder::H263(H263Decoder::new())
            },
            VideoCodec::Vp6 => {
                if !self.vp6 {
                    return Err(Error::UnsupportedCodec);
                }
                VideoDecoder::Vp6(Vp6Decoder::new(false, size))
            },
            VideoCodec::Vp6WithAlpha => {
                if !self.vp6 {
                    return Err(Error::UnsupportedCodec);
                }
                VideoDecoder::Vp6(Vp6Decoder::new(true, size))
            },
            _ => {
                return Err(Error::UnsupportedCodec);
            },
        };
        let stream = VideoStream::new(decoder);
        let stream_handle = arena_insert(&mut self.streams, stream);
        assert(self@ =~= old(self)@.insert(stream_handle, stream@));
        Ok(stream_handle)
    }

    /// Preloads a frame of a stream: tells how the frame depends on the
    /// frames before it, or what the codec engine has to do first. Nothing
    /// changes.
    pub fn preload_video_stream_frame(
        &mut self,
        stream: VideoStreamHandle,
        encoded_frame: EncodedFrame<'_>,
        event: CodecEvent,
    ) -> (result: Result<Preload, Error>)
        ensures
            *final(self) == *old(self),
            !old(self)@.contains_key(stream) ==> result == Err::<Preload, Error>(
                Error::UnregisteredStream,
            ),
            old(self)@.contains_key(stream) ==> result == old(self)@[stream].decoder.preload(
                encoded_frame.data@,
                event,
            ),
    {
        assert(self@.dom() =~= arena_streams(self.streams).dom());
        match arena_get(&self.streams, stream) {
            Some(entry) => entry.decoder.preload_frame(encoded_frame, event),
            None => Err(Error::UnregisteredStream),
        }
    }

    /// The picture of a stream whose planes await conversion, where the
    /// stream's decoder has asked for that.
    pub fn frame_to_convert(&self, stream: VideoStreamHandle) -> (buffer: Option<&VideoBuffer>)
        ensures
            match buffer {
                Some(b) => self@.contains_key(stream) && self@[stream].decoder.frame_to_convert()
                    == Some(b@) && b@.wf(),
                None => !self@.contains_key(stream) || self@[stream].decoder.frame_to_convert()
                    is None,
            },
    {
        assert(self@.dom() =~= arena_streams(self.streams).dom());
        match arena_get(&self.streams, stream) {
            Some(entry) => entry.decoder.frame_to_convert(),
            None => None,
        }
    }

    /// Takes one step of decoding a frame of a stream; see
    /// [`VideoStream::decode_frame`]. The step is the stream's own: no
    /// other stream changes, and a handle that names no stream of this
    /// backend fails without any request to the codec engine or to the
    /// renderer.
    pub fn decode_video_stream_frame(
        &mut self,
        stream: VideoStreamHandle,
        encoded_frame: EncodedFrame<'_>,
        event: DecodeEvent,
    ) -> (result: Result<DecodeProgress, Error>)
        ensures
            final(self).h263_enabled() == old(self).h263_enabled(),
            final(self).vp6_enabled() == old(self).vp6_enabled(),
            old(self)@.dom().finite() ==> final(self)@.dom().finite(),
            final(self)@.dom() == old(self)@.dom(),
            !old(self)@.contains_key(stream) ==> progress_of(result) == Progress::Fail(
                Error::UnregisteredStream,
            ) && final(self)@ == old(self)@,
            old(self)@.contains_key(stream) ==> {
                let (next, progress) = old(self)@[stream].step(encoded_frame.data@, event);
                &&& final(self)@ == old(self)@.insert(stream, next)
                &&& progress_of(result) == progress
            },
            old(self).wf() ==> final(self).wf(),
            old(self).wf() ==> (result matches Ok(DecodeProgress::Bitmap { info, .. }) ==> fits(
                info.width,
                info.height,
                old(self)@[stream].decoder.bounds(),
            )),
    {
        assert(self@.dom() =~= arena_streams(self.streams).dom());
        let ghost table = arena_streams(self.streams);
        let result = match arena_get_mut(&mut self.streams, stream) {
            Some(entry) => entry.decode_frame(encoded_frame, event),
            None => Err(Error::UnregisteredStream),
        };
        proof {
            if table.contains_key(stream) {
                let entry = arena_streams(self.streams)[stream];
                assert(arena_streams(self.streams) == table.insert(stream, entry));
                assert(self@ =~= old(self)@.insert(stream, entry@));
            } else {
                assert(self@ =~= old(self)@);
            }
            assert(self@.dom() =~= old(self)@.dom());
        }
        result
    }
}

impl Default for SoftwareVideoBackend {
    fn default() -> (backend: SoftwareVideoBackend)
        ensures
            backend@ == (Map::<VideoStreamHandle, VideoStreamView>::empty()),
            backend@.dom().finite(),
            backend.wf(),
            backend.h263_enabled(),
            backend.vp6_enabled(),
    {
        SoftwareVideoBackend::new()
    }
}

} // verus!
