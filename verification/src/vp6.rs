//! The VP6 decoder: a state machine that defers setting up its codec engine
//! until the first frame tells the encoded size, repeats the last picture
//! for frames without data, lays the alpha plane over the colours and crops
//! the result to the bounds of the stream.

use vstd::prelude::*;
use crate::codec::Awaiting;
use crate::codec::CodecEvent;
use crate::codec::CodecRequest;
use crate::codec::DecodeStep;
use crate::codec::DecodedBuffer;
use crate::codec::Outcome;
use crate::codec::Preload;
use crate::codec::Vp6Header;
use crate::codec::outcome_of;
use crate::error::Error;
use crate::frame::EncodedFrame;
use crate::frame::FrameDependency;
use crate::pixels::compose_alpha;
use crate::pixels::crop;
use crate::pixels::cropped_frame;
use crate::pixels::falls_short;
use crate::pixels::with_alpha_plane;
use crate::planes::VideoBuffer;
use crate::planes::VideoBufferView;

verus! {

/// The bytes that precede the frame header in a payload with alpha: the
/// 24-bit offset of the alpha data.
pub const ALPHA_OFFSET_SIZE: usize = 3;

/// The side of a macroblock in pixels.
pub const MACROBLOCK_SIZE: usize = 16;

/// How a VP6 frame depends on the frames before it: the top bit of its first
/// byte is clear in a keyframe. A frame without data repeats the one before.
pub open spec fn vp6_dependency(data: Seq<u8>) -> FrameDependency {
    if data.len() > 0 && data[0] < 128 {
        FrameDependency::Independent
    } else {
        FrameDependency::Past
    }
}

/// What preloading a VP6 frame gives: the dependency at once, read off the
/// payload; an answer from the codec engine was never asked for.
pub open spec fn vp6_preload(data: Seq<u8>, event: CodecEvent) -> Result<Preload, Error> {
    match event {
        CodecEvent::Start => Ok(Preload::Ready(vp6_dependency(data))),
        _ => Err(Error::BitstreamDecodeError),
    }
}

/// The state of a VP6 decoder as a mathematical value.
pub struct Vp6DecoderView {
    /// Whether the stream carries an alpha plane.
    pub with_alpha: bool,
    /// The size that the stream declares, to which pictures are cropped.
    pub bounds: (u16, u16),
    /// Whether the codec engine has been set up.
    pub initialized: bool,
    /// The picture that was decoded last.
    pub last_frame: Option<VideoBufferView>,
    /// What the decoder has asked the codec engine for.
    pub awaiting: Awaiting,
}

impl Vp6DecoderView {
    /// A decoder before its first frame.
    pub open spec fn initial(with_alpha: bool, bounds: (u16, u16)) -> Vp6DecoderView {
        Vp6DecoderView {
            with_alpha,
            bounds,
            initialized: false,
            last_frame: None,
            awaiting: Awaiting::Nothing,
        }
    }

    /// What holds of every decoder: a picture is kept only once the engine
    /// is set up, it has the planes that the stream needs, and what the
    /// decoder waits for fits what it has.
    pub open spec fn wf(self) -> bool {
        &&& self.last_frame matches Some(buffer) ==> {
            &&& buffer.wf()
            &&& self.initialized
            &&& self.with_alpha ==> buffer.layout.alpha_offset is Some
        }
        &&& (self.awaiting == Awaiting::Header || self.awaiting == Awaiting::Init)
            ==> !self.initialized
        &&& (self.awaiting == Awaiting::Picture || self.awaiting == Awaiting::Pixels)
            ==> self.initialized
        &&& self.awaiting == Awaiting::Pixels ==> self.last_frame is Some
    }

    /// Where the frame header starts in a payload.
    pub open spec fn header_offset(self) -> usize {
        if self.with_alpha {
            ALPHA_OFFSET_SIZE
        } else {
            0
        }
    }

    /// Whether a payload carries no picture: it is empty, or in a stream
    /// with alpha it holds no more than the offset of the alpha data.
    pub open spec fn is_skip_frame(self, data: Seq<u8>) -> bool {
        data.len() == 0 || (self.with_alpha && data.len() <= ALPHA_OFFSET_SIZE)
    }

    /// The request that sets the engine up for the size in `header`, which
    /// counts macroblocks.
    pub open spec fn init_request(self, header: Vp6Header) -> CodecRequest {
        CodecRequest::InitVp6 {
            width: (header.disp_w * MACROBLOCK_SIZE) as usize,
            height: (header.disp_h * MACROBLOCK_SIZE) as usize,
            with_alpha: self.with_alpha,
        }
    }

    /// Whether a decoded picture has the planes that the stream needs.
    pub open spec fn accepts(self, buffer: VideoBufferView) -> bool {
        self.with_alpha ==> buffer.layout.alpha_offset is Some
    }

    /// The decoder gives the frame up with `error`.
    pub open spec fn stop(self, error: Error) -> (Vp6DecoderView, Outcome) {
        (Vp6DecoderView { awaiting: Awaiting::Nothing, ..self }, Outcome::Fail(error))
    }

    /// The decoder asks for `request` and waits for `awaiting`.
    pub open spec fn ask(self, awaiting: Awaiting, request: CodecRequest) -> (
        Vp6DecoderView,
        Outcome,
    ) {
        (Vp6DecoderView { awaiting, ..self }, Outcome::Request(request))
    }

    /// An answer that was not asked for: the decoder fails and stays as it is.
    pub open spec fn unexpected(self) -> (Vp6DecoderView, Outcome) {
        (self, Outcome::Fail(Error::BitstreamDecodeError))
    }

    /// A decoder whose engine is set up turns to the payload: a frame
    /// without data repeats the last picture, and fails where there is none;
    /// any other frame goes to the engine.
    pub open spec fn resume(self, data: Seq<u8>) -> (Vp6DecoderView, Outcome) {
        if self.is_skip_frame(data) {
            if self.last_frame is Some {
                self.ask(Awaiting::Pixels, CodecRequest::ConvertPlanes)
            } else {
                self.stop(Error::MissingPriorFrameForSkip)
            }
        } else {
            self.ask(Awaiting::Picture, CodecRequest::DecodeVp6)
        }
    }

    /// A call for a frame begins. The first frame that carries a picture
    /// has the engine set up before anything else, which starts with
    /// reading the frame header. A frame without data sets nothing up: it
    /// has no header, and before the first picture there is nothing for it
    /// to repeat, so it fails.
    pub open spec fn begin(self, data: Seq<u8>) -> (Vp6DecoderView, Outcome) {
        if self.initialized {
            self.resume(data)
        } else if self.is_skip_frame(data) {
            self.stop(Error::MissingPriorFrameForSkip)
        } else {
            self.ask(
                Awaiting::Header,
                CodecRequest::ParseVp6Header { offset: self.header_offset() },
            )
        }
    }

    /// The picture that the colours `rgba` of the last frame make: with the
    /// alpha plane laid over them where the stream has one, cropped to the
    /// bounds. Colours of another size than the picture are refused.
    pub open spec fn finish(self, rgba: Seq<u8>) -> (Vp6DecoderView, Outcome) {
        match self.last_frame {
            Some(buffer) => {
                let width = buffer.layout.width as int;
                let height = buffer.layout.height as int;
                if rgba.len() == 4 * width * height {
                    let pixels = if self.with_alpha {
                        with_alpha_plane(rgba, buffer.alpha())
                    } else {
                        rgba
                    };
                    (
                        Vp6DecoderView { awaiting: Awaiting::Nothing, ..self },
                        Outcome::Frame {
                            frame: cropped_frame(pixels, width, height, self.bounds),
                            undersized: falls_short(width, height, self.bounds),
                        },
                    )
                } else {
                    self.stop(Error::BufferTypeMismatch)
                }
            },
            None => self.stop(Error::BufferTypeMismatch),
        }
    }

    /// One step of decoding a frame: the state after it and what it hands
    /// back, for the payload `data` and the answer `event` of the engine.
    pub open spec fn step(self, data: Seq<u8>, event: CodecEvent) -> (Vp6DecoderView, Outcome) {
        match event {
            CodecEvent::Start => self.begin(data),
            CodecEvent::Vp6Header(header) => if self.awaiting == Awaiting::Header {
                match header {
                    Some(header) => self.ask(Awaiting::Init, self.init_request(header)),
                    None => self.stop(Error::HeaderParseError),
                }
            } else {
                self.unexpected()
            },
            CodecEvent::Vp6Initialized(done) => if self.awaiting == Awaiting::Init {
                if done {
                    (Vp6DecoderView { initialized: true, awaiting: Awaiting::Nothing, ..self }).resume(
                        data,
                    )
                } else {
                    self.stop(Error::InitializationError)
                }
            } else {
                self.unexpected()
            },
            CodecEvent::Vp6Frame(decoded) => if self.awaiting == Awaiting::Picture {
                match decoded {
                    Some(DecodedBuffer::Video(buffer)) => if self.accepts(buffer@) {
                        (Vp6DecoderView { last_frame: Some(buffer@), ..self }).ask(
                            Awaiting::Pixels,
                            CodecRequest::ConvertPlanes,
                        )
                    } else {
                        self.stop(Error::BufferTypeMismatch)
                    },
                    Some(DecodedBuffer::Other) => self.stop(Error::BufferTypeMismatch),
                    None => self.stop(Error::BitstreamDecodeError),
                }
            } else {
                self.unexpected()
            },
            CodecEvent::Pixels(rgba) => if self.awaiting == Awaiting::Pixels {
                self.finish(rgba@)
            } else {
                self.unexpected()
            },
            _ => self.unexpected(),
        }
    }
}

/// VP6 video decoder.
#[derive(Debug)]
pub struct Vp6Decoder {
    with_alpha: bool,
    bounds: (u16, u16),
    init_called: bool,
    last_frame: Option<VideoBuffer>,
    awaiting: Awaiting,
}

impl View for Vp6Decoder {
    type V = Vp6DecoderView;

    closed spec fn view(&self) -> Vp6DecoderView {
        Vp6DecoderView {
            with_alpha: self.with_alpha,
            bounds: self.bounds,
            initialized: self.init_called,
            last_frame: match self.last_frame {
                Some(buffer) => Some(buffer@),
                None => None,
            },
            awaiting: self.awaiting,
        }
    }
}

/// The number of bytes in a packed RGBA picture, where it can be counted.
fn rgba_len(width: usize, height: usize) -> (len: Option<usize>)
    ensures
        len matches Some(n) ==> n == 4 * width * height,
        len is None ==> 4 * width * height > usize::MAX,
{
    assert(4 * width * height == 4 * (width * height)) by (nonlinear_arith);
    match width.checked_mul(height) {
        Some(pixels) => pixels.checked_mul(4),
        None => None,
    }
}

impl Vp6Decoder {
    #[verifier::type_invariant]
    spec fn consistent(self) -> bool {
        self@.wf()
    }

    /// A decoder for a stream of the declared size `bounds`. The codec
    /// engine is not set up yet: the declared size is only what pictures
    /// are cropped to, and the encoded size, which the engine needs, stands
    /// in the header of the first frame.
    pub fn new(with_alpha: bool, bounds: (u16, u16)) -> (decoder: Vp6Decoder)
        ensures
            decoder@ == Vp6DecoderView::initial(with_alpha, bounds),
    {
        Vp6Decoder {
            with_alpha,
            bounds,
            init_called: false,
            last_frame: None,
            awaiting: Awaiting::Nothing,
        }
    }

    /// Tells how the frame depends on the frames before it, from the first
    /// bit of the payload alone.
    pub fn preload_frame(&self, encoded_frame: EncodedFrame<'_>, event: CodecEvent) -> (result:
        Result<Preload, Error>)
        ensures
            result == vp6_preload(encoded_frame.data@, event),
    {
        match event {
            CodecEvent::Start => {
                let data = encoded_frame.data();
                if data.len() > 0 && (data[0] & 0b1000_0000) == 0 {
                    let first = data[0];
                    assert(first & 0b1000_0000 == 0 ==> first < 128) by (bit_vector);
                    Ok(Preload::Ready(FrameDependency::Independent))
                } else {
                    if data.len() > 0 {
                        let first = data[0];
                        assert(first & 0b1000_0000 != 0 ==> first >= 128) by (bit_vector);
                    }
                    Ok(Preload::Ready(FrameDependency::Past))
                }
            },
            _ => Err(Error::BitstreamDecodeError),
        }
    }

    /// Whether the payload carries no picture.
    fn is_skip_frame(&self, data: &[u8]) -> (skip: bool)
        ensures
            skip == self@.is_skip_frame(data@),
    {
        data.len() == 0 || (self.with_alpha && data.len() <= ALPHA_OFFSET_SIZE)
    }

    /// Turns to the payload once the engine is set up.
    fn resume(&mut self, data: &[u8]) -> (result: Result<DecodeStep, Error>)
        requires
            old(self)@.wf(),
            old(self)@.initialized,
        ensures
            (final(self)@, outcome_of(result)) == old(self)@.resume(data@),
            final(self)@.wf(),
    {
        if self.is_skip_frame(data) {
            if self.last_frame.is_some() {
                self.awaiting = Awaiting::Pixels;
                Ok(DecodeStep::Request(CodecRequest::ConvertPlanes))
            } else {
                self.awaiting = Awaiting::Nothing;
                Err(Error::MissingPriorFrameForSkip)
            }
        } else {
            self.awaiting = Awaiting::Picture;
            Ok(DecodeStep::Request(CodecRequest::DecodeVp6))
        }
    }

    /// Makes the picture of the last frame from its colours.
    fn finish(&mut self, rgba: Vec<u8>) -> (result: Result<DecodeStep, Error>)
        requires
            old(self)@.wf(),
        ensures
            (final(self)@, outcome_of(result)) == old(self)@.finish(rgba@),
            final(self)@.wf(),
    {
        self.awaiting = Awaiting::Nothing;
        let len = rgba.len();
        match &self.last_frame {
            Some(buffer) => {
                let layout = buffer.layout();
                match rgba_len(layout.width, layout.height) {
                    Some(expected) => {
                        if len == expected {
                            let mut pixels = rgba;
                            if self.with_alpha {
                                match buffer.alpha() {
                                    Some(alpha) => compose_alpha(&mut pixels, alpha),
                                    None => {},
                                }
                            }
                            let undersized = layout.width < self.bounds.0 as usize || layout.height
                                < self.bounds.1 as usize;
                            let frame = crop(pixels, layout.width, layout.height, self.bounds);
                            Ok(DecodeStep::Frame { frame, undersized })
                        } else {
                            Err(Error::BufferTypeMismatch)
                        }
                    },
                    None => Err(Error::BufferTypeMismatch),
                }
            },
            None => Err(Error::BufferTypeMismatch),
        }
    }

    /// Takes one step of decoding the frame: `event` is `Start` when the
    /// call for the frame begins, and after that the codec engine's answer
    /// to the request that the step before handed back. A request means
    /// that the engine has work to do and its answer is awaited; a frame or
    /// a failure ends the call. An answer that was not asked for fails and
    /// changes nothing. Whatever the step is given, the decoder is well
    /// formed after it, and a frame that it hands back is complete and
    /// within the bounds of the stream.
    pub fn decode_frame(&mut self, encoded_frame: EncodedFrame<'_>, event: CodecEvent) -> (result:
        Result<DecodeStep, Error>)
        ensures
            (final(self)@, outcome_of(result)) == old(self)@.step(encoded_frame.data@, event),
            final(self)@.wf(),
            final(self)@.bounds == old(self)@.bounds,
            result matches Ok(DecodeStep::Frame { frame, .. }) ==> frame@.wf() && frame.width
                <= old(self)@.bounds.0 && frame.height <= old(self)@.bounds.1,
    {
        proof {
            use_type_invariant(&*self);
            lemma_pictures_fit_bounds(self@, encoded_frame.data@, event);
        }
        let data = encoded_frame.data();
        match event {
            CodecEvent::Start => {
                if self.init_called {
                    self.resume(data)
                } else if self.is_skip_frame(data) {
                    self.awaiting = Awaiting::Nothing;
                    Err(Error::MissingPriorFrameForSkip)
                } else {
                    let offset: usize = if self.with_alpha {
                        ALPHA_OFFSET_SIZE
                    } else {
                        0
                    };
                    self.awaiting = Awaiting::Header;
                    Ok(DecodeStep::Request(CodecRequest::ParseVp6Header { offset }))
                }
            },
            CodecEvent::Vp6Header(header) => {
                if self.awaiting == Awaiting::Header {
                    match header {
                        Some(header) => {
                            self.awaiting = Awaiting::Init;
                            Ok(
                                DecodeStep::Request(
                                    CodecRequest::InitVp6 {
                                        width: header.disp_w as usize * MACROBLOCK_SIZE,
                                        height: header.disp_h as usize * MACROBLOCK_SIZE,
                                        with_alpha: self.with_alpha,
                                    },
                                ),
                            )
                        },
                        None => {
                            self.awaiting = Awaiting::Nothing;
                            Err(Error::HeaderParseError)
                        },
                    }
                } else {
                    Err(Error::BitstreamDecodeError)
                }
            },
            CodecEvent::Vp6Initialized(done) => {
                if self.awaiting == Awaiting::Init {
                    self.awaiting = Awaiting::Nothing;
                    if done {
                        self.init_called = true;
                        self.resume(data)
                    } else {
                        Err(Error::InitializationError)
                    }
                } else {
                    Err(Error::BitstreamDecodeError)
                }
            },
            CodecEvent::Vp6Frame(decoded) => {
                if self.awaiting == Awaiting::Picture {
                    match decoded {
                        Some(DecodedBuffer::Video(buffer)) => {
                            let layout = buffer.layout();
                            if !self.with_alpha || layout.alpha_offset.is_some() {
                                self.last_frame = Some(buffer);
                                self.awaiting = Awaiting::Pixels;
                                Ok(DecodeStep::Request(CodecRequest::ConvertPlanes))
                            } else {
                                self.awaiting = Awaiting::Nothing;
                                Err(Error::BufferTypeMismatch)
                            }
                        },
                        Some(DecodedBuffer::Other) => {
                            self.awaiting = Awaiting::Nothing;
                            Err(Error::BufferTypeMismatch)
                        },
                        None => {
                            self.awaiting = Awaiting::Nothing;
                            Err(Error::BitstreamDecodeError)
                        },
                    }
                } else {
                    Err(Error::BitstreamDecodeError)
                }
            },
            CodecEvent::Pixels(rgba) => {
                if self.awaiting == Awaiting::Pixels {
                    self.finish(rgba)
                } else {
                    Err(Error::BitstreamDecodeError)
                }
            },
            _ => Err(Error::BitstreamDecodeError),
        }
    }

    /// The picture whose planes await conversion, where the decoder has
    /// asked for it.
    pub fn frame_to_convert(&self) -> (buffer: Option<&VideoBuffer>)
        ensures
            buffer is Some <==> self@.awaiting == Awaiting::Pixels,
            buffer matches Some(b) ==> Some(b@) == self@.last_frame && b@.wf(),
    {
        proof {
            use_type_invariant(self);
        }
        if self.awaiting == Awaiting::Pixels {
            self.last_frame.as_ref()
        } else {
            None
        }
    }
}

impl Default for Vp6Decoder {
    fn default() -> (decoder: Vp6Decoder)
        ensures
            decoder@ == Vp6DecoderView::initial(false, (0, 0)),
    {
        Vp6Decoder::new(false, (0, 0))
    }
}

/// Whether the picture that an answer of the engine carries, if it carries
/// one, has its planes within its buffer.
pub open spec fn event_wf(event: CodecEvent) -> bool {
    event matches CodecEvent::Vp6Frame(Some(DecodedBuffer::Video(buffer))) ==> buffer@.wf()
}

/// A frame is a keyframe exactly where it has a first byte and the top bit
/// of that byte is clear.
pub proof fn lemma_dependency_is_top_bit(data: Seq<u8>)
    ensures
        vp6_dependency(data) == FrameDependency::Independent <==> data.len() > 0 && data[0]
            & 0b1000_0000 == 0,
        vp6_dependency(data) == FrameDependency::Past <==> data.len() == 0 || data[0]
            & 0b1000_0000 != 0,
{
    if data.len() > 0 {
        let first = data[0];
        assert(first & 0b1000_0000 == 0 <==> first < 128) by (bit_vector);
    }
}

/// No step breaks what holds of every decoder, and none changes what the
/// stream was registered with.
pub proof fn lemma_step_preserves_wf(state: Vp6DecoderView, data: Seq<u8>, event: CodecEvent)
    requires
        state.wf(),
        event_wf(event),
    ensures
        state.step(data, event).0.wf(),
        state.step(data, event).0.with_alpha == state.with_alpha,
        state.step(data, event).0.bounds == state.bounds,
{
}

/// The first frame that carries a picture sets the engine up. A new decoder
/// asks for the header of the frame to be read, past the offset of the
/// alpha data where the stream has alpha; of the header it takes the size
/// in macroblocks and asks for the engine to be set up for sixteen times as
/// many pixels; and when that is done, the engine counts as set up and the
/// decoder turns to the payload.
pub proof fn lemma_first_frame_sets_engine_up(
    with_alpha: bool,
    bounds: (u16, u16),
    data: Seq<u8>,
    header: Vp6Header,
)
    requires
        !Vp6DecoderView::initial(with_alpha, bounds).is_skip_frame(data),
    ensures
        ({
            let new = Vp6DecoderView::initial(with_alpha, bounds);
            let (reading, first) = new.step(data, CodecEvent::Start);
            let (setting_up, second) = reading.step(data, CodecEvent::Vp6Header(Some(header)));
            let (ready, third) = setting_up.step(data, CodecEvent::Vp6Initialized(true));
            &&& new.wf()
            &&& first == Outcome::Request(
                CodecRequest::ParseVp6Header {
                    offset: if with_alpha {
                        ALPHA_OFFSET_SIZE
                    } else {
                        0
                    },
                },
            )
            &&& second == Outcome::Request(
                CodecRequest::InitVp6 {
                    width: (16 * header.disp_w) as usize,
                    height: (16 * header.disp_h) as usize,
                    with_alpha,
                },
            )
            &&& !reading.initialized && !setting_up.initialized && ready.initialized
            &&& (ready, third) == (Vp6DecoderView { initialized: true, ..new }).resume(data)
        }),
{
}

/// The engine is set up once. A decoder whose engine is set up stays so,
/// begins each frame with the payload itself, and never again asks for a
/// header to be read or for the engine to be set up.
pub proof fn lemma_initialized_once(state: Vp6DecoderView, data: Seq<u8>, event: CodecEvent)
    requires
        state.wf(),
        state.initialized,
    ensures
        state.step(data, event).0.initialized,
        state.step(data, CodecEvent::Start) == state.resume(data),
        state.step(data, event).1 matches Outcome::Request(request) ==> !(request
            is ParseVp6Header) && !(request is InitVp6),
{
}

/// The engine counts as set up only from the step in which it answers that
/// it is, to a decoder that waits for just that.
pub proof fn lemma_initialized_by_answer(state: Vp6DecoderView, data: Seq<u8>, event: CodecEvent)
    requires
        state.wf(),
        !state.initialized,
        state.step(data, event).0.initialized,
    ensures
        state.awaiting == Awaiting::Init,
        event == CodecEvent::Vp6Initialized(true),
{
}

/// A call that fails over the header or over setting the engine up leaves
/// the decoder as it was before its first frame: not set up, without a
/// picture, waiting for nothing. Nothing is tried again by itself; the next
/// frame starts with its header.
pub proof fn lemma_failed_set_up_changes_nothing(
    state: Vp6DecoderView,
    data: Seq<u8>,
    event: CodecEvent,
)
    requires
        state.wf(),
        state.step(data, event).1 == Outcome::Fail(Error::HeaderParseError) || state.step(
            data,
            event,
        ).1 == Outcome::Fail(Error::InitializationError),
    ensures
        !state.initialized,
        state.step(data, event).0 == Vp6DecoderView::initial(state.with_alpha, state.bounds),
{
}

/// Before the engine is set up no step hands back a picture.
pub proof fn lemma_no_picture_before_init(state: Vp6DecoderView, data: Seq<u8>, event: CodecEvent)
    requires
        state.wf(),
        !state.initialized,
    ensures
        !(state.step(data, event).1 is Frame),
{
}

/// A frame without data, met by a decoder that holds no picture, fails for
/// want of a frame to repeat, whether the engine is set up or not. The call
/// ends at its first step and asks nothing of the engine; the decoder still
/// holds no picture, and its engine is set up no more than it was. No step
/// at all hands back a picture for such a frame.
pub proof fn lemma_skip_needs_prior_frame(state: Vp6DecoderView, data: Seq<u8>, event: CodecEvent)
    requires
        state.wf(),
        state.last_frame is None,
        state.is_skip_frame(data),
    ensures
        state.step(data, CodecEvent::Start) == state.stop(Error::MissingPriorFrameForSkip),
        state.step(data, CodecEvent::Start).0.last_frame is None,
        state.step(data, CodecEvent::Start).0.initialized == state.initialized,
        !(state.step(data, event).1 is Frame),
        event == CodecEvent::Vp6Initialized(true) && state.awaiting == Awaiting::Init
            ==> state.step(data, event).1 == Outcome::Fail(Error::MissingPriorFrameForSkip),
{
}

/// The engine is set up by a frame that carries a picture and by no other:
/// a decoder asks for a header to be read only at the start of a call whose
/// payload is no frame without data, and then the header lies within the
/// payload.
pub proof fn lemma_set_up_starts_with_a_picture(
    state: Vp6DecoderView,
    data: Seq<u8>,
    event: CodecEvent,
)
    requires
        state.wf(),
    ensures
        state.step(data, event).1 matches Outcome::Request(
            CodecRequest::ParseVp6Header { offset },
        ) ==> {
            &&& event is Start
            &&& !state.initialized
            &&& !state.is_skip_frame(data)
            &&& offset == state.header_offset()
            &&& offset < data.len()
        },
{
}

/// A frame without data repeats the picture before it. Let a decoder wait
/// for the colours of a decoded frame and make a picture of `rgba`. When a
/// frame without data follows, the decoder asks for the same planes to be
/// converted again, and of the same colours it makes the same picture,
/// byte for byte, and ends in the same state.
pub proof fn lemma_skip_repeats_picture(
    state: Vp6DecoderView,
    first: Seq<u8>,
    skip: Seq<u8>,
    rgba: Vec<u8>,
)
    requires
        state.wf(),
        state.awaiting == Awaiting::Pixels,
        state.step(first, CodecEvent::Pixels(rgba)).1 is Frame,
        state.is_skip_frame(skip),
    ensures
        ({
            let (shown, picture) = state.step(first, CodecEvent::Pixels(rgba));
            let (asked, request) = shown.step(skip, CodecEvent::Start);
            let (repeated, again) = asked.step(skip, CodecEvent::Pixels(rgba));
            &&& request == Outcome::Request(CodecRequest::ConvertPlanes)
            &&& asked.last_frame == state.last_frame
            &&& again == picture
            &&& repeated == shown
        }),
{
}

/// Every picture that a step hands back is complete and within the bounds
/// of the stream.
pub proof fn lemma_pictures_fit_bounds(state: Vp6DecoderView, data: Seq<u8>, event: CodecEvent)
    requires
        state.wf(),
    ensures
        state.step(data, event).1 matches Outcome::Frame { frame, undersized } ==> {
            &&& frame.width <= state.bounds.0
            &&& frame.height <= state.bounds.1
            &&& frame.wf()
            &&& !undersized ==> frame.width == state.bounds.0 && frame.height == state.bounds.1
        },
{
    if state.step(data, event).1 is Frame {
        let buffer = state.last_frame->0;
        let width = buffer.layout.width as int;
        let height = buffer.layout.height as int;
        let new_width = crate::pixels::clamped(width, state.bounds.0);
        let new_height = crate::pixels::clamped(height, state.bounds.1);
        assert(0 <= 4 * new_width * new_height) by (nonlinear_arith)
            requires
                0 <= new_width,
                0 <= new_height,
        ;
    }
}

} // verus!
