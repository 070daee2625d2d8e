use ruffle_core::codec::CodecEvent;
use ruffle_core::codec::CodecRequest;
use ruffle_core::codec::DecodedBuffer;
use ruffle_core::codec::Picture;
use ruffle_core::codec::PictureTypeCode;
use ruffle_core::codec::Preload;
use ruffle_core::codec::Vp6Header;
use ruffle_core::error::Error;
use ruffle_core::frame::BitmapHandle;
use ruffle_core::frame::BitmapInfo;
use ruffle_core::frame::DecodedFrame;
use ruffle_core::frame::EncodedFrame;
use ruffle_core::frame::FrameDependency;
use ruffle_core::frame::VideoCodec;
use ruffle_core::frame::VideoDeblocking;
use ruffle_core::frame::VideoStreamHandle;
use ruffle_core::h263::H263Decoder;
use ruffle_core::planes::PlaneLayout;
use ruffle_core::planes::VideoBuffer;
use ruffle_core::software::DecodeEvent;
use ruffle_core::software::DecodeProgress;
use ruffle_core::software::RenderAnswer;
use ruffle_core::software::RenderCall;
use ruffle_core::software::SoftwareVideoBackend;
use ruffle_core::software::VideoDecoder;
use ruffle_core::software::VideoStream;

/// A renderer that keeps what it is given and counts what it is asked.
struct Bitmaps {
    held: Vec<(u32, u32, Vec<u8>)>,
    refuse_updates: bool,
    registered: usize,
    updated: usize,
}

impl Bitmaps {
    fn new() -> Bitmaps {
        Bitmaps { held: Vec::new(), refuse_updates: false, registered: 0, updated: 0 }
    }

    fn register_bitmap(&mut self, width: u32, height: u32, rgba: Vec<u8>) -> BitmapHandle {
        self.registered += 1;
        self.held.push((width, height, rgba));
        BitmapHandle(self.held.len() - 1)
    }

    fn update_bitmap(
        &mut self,
        handle: BitmapHandle,
        width: u32,
        height: u32,
        rgba: Vec<u8>,
    ) -> Result<(), Error> {
        self.updated += 1;
        if self.refuse_updates {
            return Err(Error::InitializationError);
        }
        self.held[handle.0] = (width, height, rgba);
        Ok(())
    }

    /// Does what a step asks of the renderer.
    fn answer(&mut self, call: RenderCall) -> RenderAnswer {
        match call {
            RenderCall::Register { width, height, rgba } => {
                RenderAnswer::Registered(self.register_bitmap(width, height, rgba))
            }
            RenderCall::Update { handle, width, height, rgba } => {
                match self.update_bitmap(handle, width, height, rgba) {
                    Ok(()) => RenderAnswer::Updated,
                    Err(error) => RenderAnswer::Failed(error),
                }
            }
        }
    }
}

fn frame(data: &[u8]) -> EncodedFrame<'_> {
    EncodedFrame { codec: VideoCodec::H263, data, frame_id: 3 }
}

fn codec(event: CodecEvent) -> DecodeEvent {
    DecodeEvent::Codec(event)
}

fn asked(progress: Result<DecodeProgress, Error>) -> CodecRequest {
    match progress {
        Ok(DecodeProgress::Request(request)) => request,
        other => panic!("expected a request, got {:?}", other),
    }
}

fn to_render(progress: Result<DecodeProgress, Error>) -> RenderCall {
    match progress {
        Ok(DecodeProgress::Render(call)) => call,
        other => panic!("expected a request to the renderer, got {:?}", other),
    }
}

fn shown(progress: Result<DecodeProgress, Error>) -> (BitmapInfo, bool) {
    match progress {
        Ok(DecodeProgress::Bitmap { info, undersized }) => (info, undersized),
        other => panic!("expected a bitmap, got {:?}", other),
    }
}

fn failed(progress: Result<DecodeProgress, Error>) -> Error {
    match progress {
        Err(error) => error,
        other => panic!("expected a failure, got {:?}", other),
    }
}

/// Takes one H.263 picture of 2 by 1 pixels up to the request to the
/// renderer.
fn decode_h263(
    backend: &mut SoftwareVideoBackend,
    stream: VideoStreamHandle,
    rgba: Vec<u8>,
) -> RenderCall {
    let data = [1u8, 2, 3];
    assert_eq!(
        asked(backend.decode_video_stream_frame(stream, frame(&data), codec(CodecEvent::Start))),
        CodecRequest::DecodePicture
    );
    let picture = Picture { dimensions: Some((2, 1)) };
    assert_eq!(
        asked(backend.decode_video_stream_frame(
            stream,
            frame(&data),
            codec(CodecEvent::Picture(Some(picture)))
        )),
        CodecRequest::ConvertPicture
    );
    to_render(backend.decode_video_stream_frame(
        stream,
        frame(&data),
        codec(CodecEvent::Pixels(rgba)),
    ))
}

/// Decodes one H.263 picture of 2 by 1 pixels with the given colours and
/// has the renderer show it.
fn show_h263(
    backend: &mut SoftwareVideoBackend,
    stream: VideoStreamHandle,
    renderer: &mut Bitmaps,
    rgba: Vec<u8>,
) -> Result<DecodeProgress, Error> {
    let call = decode_h263(backend, stream, rgba);
    let answer = renderer.answer(call);
    backend.decode_video_stream_frame(stream, frame(&[1, 2, 3]), DecodeEvent::Rendered(answer))
}

#[test]
fn new_backend_has_no_streams() {
    assert_eq!(SoftwareVideoBackend::new().stream_count(), 0);
    assert_eq!(SoftwareVideoBackend::default().stream_count(), 0);
}

#[test]
fn register_counts_streams_and_hands_out_distinct_handles() {
    let mut backend = SoftwareVideoBackend::new();
    let a = backend
        .register_video_stream(10, (20, 16), VideoCodec::H263, VideoDeblocking::UseVideoPacketValue)
        .unwrap();
    let b = backend
        .register_video_stream(0, (20, 16), VideoCodec::Vp6, VideoDeblocking::Level2)
        .unwrap();
    let c = backend
        .register_video_stream(1, (0, 0), VideoCodec::Vp6WithAlpha, VideoDeblocking::NoDeblocking)
        .unwrap();
    assert_eq!(backend.stream_count(), 3);
    assert_ne!(a, b);
    assert_ne!(b, c);
    assert_ne!(a, c);
}

#[test]
fn register_refuses_unknown_codecs_and_registers_nothing() {
    let mut backend = SoftwareVideoBackend::new();
    backend
        .register_video_stream(10, (20, 16), VideoCodec::H263, VideoDeblocking::Level1)
        .unwrap();
    for codec in [VideoCodec::NoVideo, VideoCodec::ScreenVideo, VideoCodec::ScreenVideoV2] {
        assert_eq!(
            backend.register_video_stream(10, (20, 16), codec, VideoDeblocking::Level1),
            Err(Error::UnsupportedCodec)
        );
        assert_eq!(backend.stream_count(), 1);
    }
}

#[test]
fn register_refuses_codecs_that_are_switched_off() {
    let mut backend = SoftwareVideoBackend::with_codecs(true, false);
    assert_eq!(
        backend.register_video_stream(1, (8, 8), VideoCodec::Vp6, VideoDeblocking::Level1),
        Err(Error::UnsupportedCodec)
    );
    assert_eq!(
        backend.register_video_stream(1, (8, 8), VideoCodec::Vp6WithAlpha, VideoDeblocking::Level1),
        Err(Error::UnsupportedCodec)
    );
    assert!(backend
        .register_video_stream(1, (8, 8), VideoCodec::H263, VideoDeblocking::Level1)
        .is_ok());
    let mut backend = SoftwareVideoBackend::with_codecs(false, true);
    assert_eq!(
        backend.register_video_stream(1, (8, 8), VideoCodec::H263, VideoDeblocking::Level1),
        Err(Error::UnsupportedCodec)
    );
    assert_eq!(backend.stream_count(), 0);
    assert!(backend
        .register_video_stream(1, (8, 8), VideoCodec::Vp6, VideoDeblocking::Level1)
        .is_ok());
    assert_eq!(backend.stream_count(), 1);
}

#[test]
fn register_adds_one_stream_each_time() {
    let mut backend = SoftwareVideoBackend::new();
    for n in 0..5 {
        assert_eq!(backend.stream_count(), n);
        backend
            .register_video_stream(1, (8, 8), VideoCodec::Vp6, VideoDeblocking::Level1)
            .unwrap();
        assert_eq!(backend.stream_count(), n + 1);
    }
}

#[test]
fn handle_of_another_backend_is_not_registered() {
    let mut other = SoftwareVideoBackend::new();
    let stream = other
        .register_video_stream(1, (16, 16), VideoCodec::Vp6, VideoDeblocking::NoDeblocking)
        .unwrap();
    let mut backend = SoftwareVideoBackend::new();
    assert_eq!(
        backend.preload_video_stream_frame(stream, frame(&[0]), CodecEvent::Start),
        Err(Error::UnregisteredStream)
    );
    assert_eq!(
        failed(backend.decode_video_stream_frame(stream, frame(&[0]), codec(CodecEvent::Start))),
        Error::UnregisteredStream
    );
    assert_eq!(
        failed(backend.decode_video_stream_frame(
            stream,
            frame(&[0]),
            DecodeEvent::Rendered(RenderAnswer::Registered(BitmapHandle(0)))
        )),
        Error::UnregisteredStream
    );
    assert!(backend.frame_to_convert(stream).is_none());
    assert_eq!(backend.stream_count(), 0);
}

#[test]
fn handle_that_was_never_handed_out_is_not_registered() {
    let mut backend = SoftwareVideoBackend::new();
    let stream = backend
        .register_video_stream(10, (20, 16), VideoCodec::Vp6, VideoDeblocking::Level1)
        .unwrap();
    let stale = VideoStreamHandle { index: stream.index, generation: stream.generation + 1 };
    let beyond = VideoStreamHandle { index: stream.index + 1000, generation: stream.generation };
    for handle in [stale, beyond] {
        assert_eq!(
            backend.preload_video_stream_frame(handle, frame(&[0]), CodecEvent::Start),
            Err(Error::UnregisteredStream)
        );
        assert_eq!(
            failed(backend.decode_video_stream_frame(
                handle,
                frame(&[0]),
                codec(CodecEvent::Start)
            )),
            Error::UnregisteredStream
        );
    }
    assert_eq!(backend.stream_count(), 1);
    assert_eq!(
        asked(backend.decode_video_stream_frame(stream, frame(&[0]), codec(CodecEvent::Start))),
        CodecRequest::ParseVp6Header { offset: 0 }
    );
}

#[test]
fn preload_goes_to_the_decoder_of_the_stream() {
    let mut backend = SoftwareVideoBackend::new();
    let h263 = backend
        .register_video_stream(10, (20, 16), VideoCodec::H263, VideoDeblocking::Level1)
        .unwrap();
    let vp6 = backend
        .register_video_stream(10, (20, 16), VideoCodec::Vp6, VideoDeblocking::Level1)
        .unwrap();
    assert_eq!(
        backend.preload_video_stream_frame(h263, frame(&[0]), CodecEvent::Start),
        Ok(Preload::Request(CodecRequest::ParsePictureHeader))
    );
    assert_eq!(
        backend.preload_video_stream_frame(
            h263,
            frame(&[0]),
            CodecEvent::PictureHeader(Some(PictureTypeCode::IFrame))
        ),
        Ok(Preload::Ready(FrameDependency::Independent))
    );
    assert_eq!(
        backend.preload_video_stream_frame(vp6, frame(&[0x80]), CodecEvent::Start),
        Ok(Preload::Ready(FrameDependency::Past))
    );
    assert_eq!(
        backend.preload_video_stream_frame(vp6, frame(&[0x7f]), CodecEvent::Start),
        Ok(Preload::Ready(FrameDependency::Independent))
    );
}

#[test]
fn first_frame_asks_for_a_bitmap_to_be_made() {
    let mut backend = SoftwareVideoBackend::new();
    let stream = backend
        .register_video_stream(10, (2, 1), VideoCodec::H263, VideoDeblocking::Level1)
        .unwrap();
    let first = vec![1, 2, 3, 255, 4, 5, 6, 255];
    match decode_h263(&mut backend, stream, first.clone()) {
        RenderCall::Register { width, height, rgba } => {
            assert_eq!((width, height), (2, 1));
            assert_eq!(rgba, first);
        }
        other => panic!("unexpected call {:?}", other),
    }
    let (info, undersized) = shown(backend.decode_video_stream_frame(
        stream,
        frame(&[]),
        DecodeEvent::Rendered(RenderAnswer::Registered(BitmapHandle(41))),
    ));
    assert_eq!(info, BitmapInfo { handle: BitmapHandle(41), width: 2, height: 1 });
    assert!(!undersized);
}

#[test]
fn later_frames_go_into_the_bitmap_of_the_first() {
    let mut backend = SoftwareVideoBackend::new();
    let stream = backend
        .register_video_stream(10, (2, 1), VideoCodec::H263, VideoDeblocking::Level1)
        .unwrap();
    decode_h263(&mut backend, stream, vec![1; 8]);
    shown(backend.decode_video_stream_frame(
        stream,
        frame(&[]),
        DecodeEvent::Rendered(RenderAnswer::Registered(BitmapHandle(41))),
    ));
    for colour in [7u8, 8, 9] {
        match decode_h263(&mut backend, stream, vec![colour; 8]) {
            RenderCall::Update { handle, width, height, rgba } => {
                assert_eq!(handle, BitmapHandle(41));
                assert_eq!((width, height), (2, 1));
                assert_eq!(rgba, vec![colour; 8]);
            }
            other => panic!("unexpected call {:?}", other),
        }
        let (info, _) = shown(backend.decode_video_stream_frame(
            stream,
            frame(&[]),
            DecodeEvent::Rendered(RenderAnswer::Updated),
        ));
        assert_eq!(info, BitmapInfo { handle: BitmapHandle(41), width: 2, height: 1 });
    }
}

#[test]
fn first_frame_makes_the_bitmap_and_later_frames_go_into_it() {
    let mut backend = SoftwareVideoBackend::new();
    let mut renderer = Bitmaps::new();
    renderer.register_bitmap(1, 1, vec![0; 4]);
    let stream = backend
        .register_video_stream(10, (2, 1), VideoCodec::H263, VideoDeblocking::Level1)
        .unwrap();
    let first = vec![1, 2, 3, 255, 4, 5, 6, 255];
    let (info, undersized) = shown(show_h263(&mut backend, stream, &mut renderer, first.clone()));
    assert_eq!(info, BitmapInfo { handle: BitmapHandle(1), width: 2, height: 1 });
    assert!(!undersized);
    assert_eq!(renderer.held.len(), 2);
    assert_eq!(renderer.held[1], (2, 1, first));
    assert_eq!((renderer.registered, renderer.updated), (2, 0));
    let second = vec![9, 9, 9, 255, 8, 8, 8, 255];
    let (info, _) = shown(show_h263(&mut backend, stream, &mut renderer, second.clone()));
    assert_eq!(info, BitmapInfo { handle: BitmapHandle(1), width: 2, height: 1 });
    assert_eq!(renderer.held.len(), 2);
    assert_eq!(renderer.held[1], (2, 1, second));
    assert_eq!((renderer.registered, renderer.updated), (2, 1));
}

#[test]
fn failed_decode_asks_nothing_of_the_renderer() {
    let mut backend = SoftwareVideoBackend::new();
    let mut renderer = Bitmaps::new();
    let stream = backend
        .register_video_stream(10, (2, 1), VideoCodec::H263, VideoDeblocking::Level1)
        .unwrap();
    let (info, _) = shown(show_h263(&mut backend, stream, &mut renderer, vec![1; 8]));
    let data = [1u8];
    assert_eq!(
        asked(backend.decode_video_stream_frame(stream, frame(&data), codec(CodecEvent::Start))),
        CodecRequest::DecodePicture
    );
    assert_eq!(
        failed(backend.decode_video_stream_frame(
            stream,
            frame(&data),
            codec(CodecEvent::Picture(None))
        )),
        Error::BitstreamDecodeError
    );
    assert_eq!(
        failed(backend.decode_video_stream_frame(
            stream,
            frame(&data),
            DecodeEvent::Rendered(RenderAnswer::Updated)
        )),
        Error::BitstreamDecodeError
    );
    assert_eq!((renderer.registered, renderer.updated), (1, 0));
    match decode_h263(&mut backend, stream, vec![2; 8]) {
        RenderCall::Update { handle, .. } => assert_eq!(handle, info.handle),
        other => panic!("unexpected call {:?}", other),
    }
}

#[test]
fn streams_are_decoded_independently() {
    let mut backend = SoftwareVideoBackend::new();
    let mut renderer = Bitmaps::new();
    let a = backend
        .register_video_stream(10, (2, 1), VideoCodec::H263, VideoDeblocking::Level1)
        .unwrap();
    let b = backend
        .register_video_stream(10, (2, 1), VideoCodec::H263, VideoDeblocking::Level1)
        .unwrap();
    let data = [1u8];
    assert_eq!(
        asked(backend.decode_video_stream_frame(a, frame(&data), codec(CodecEvent::Start))),
        CodecRequest::DecodePicture
    );
    let picture = Picture { dimensions: Some((2, 1)) };
    assert_eq!(
        failed(backend.decode_video_stream_frame(
            b,
            frame(&data),
            codec(CodecEvent::Picture(Some(picture)))
        )),
        Error::BitstreamDecodeError
    );
    assert_eq!(
        asked(backend.decode_video_stream_frame(
            a,
            frame(&data),
            codec(CodecEvent::Picture(Some(picture)))
        )),
        CodecRequest::ConvertPicture
    );
    let (info_b, _) = shown(show_h263(&mut backend, b, &mut renderer, vec![7; 8]));
    let call = to_render(backend.decode_video_stream_frame(
        a,
        frame(&data),
        codec(CodecEvent::Pixels(vec![5; 8])),
    ));
    let answer = renderer.answer(call);
    let (info_a, _) =
        shown(backend.decode_video_stream_frame(a, frame(&data), DecodeEvent::Rendered(answer)));
    assert_ne!(info_a.handle, info_b.handle);
    assert_eq!(renderer.held[info_a.handle.0].2, vec![5; 8]);
    assert_eq!(renderer.held[info_b.handle.0].2, vec![7; 8]);
}

#[test]
fn refused_update_is_the_result_and_the_bitmap_stays() {
    let mut backend = SoftwareVideoBackend::new();
    let mut renderer = Bitmaps::new();
    let stream = backend
        .register_video_stream(10, (2, 1), VideoCodec::H263, VideoDeblocking::Level1)
        .unwrap();
    let (info, _) = shown(show_h263(&mut backend, stream, &mut renderer, vec![1; 8]));
    renderer.refuse_updates = true;
    assert_eq!(
        failed(show_h263(&mut backend, stream, &mut renderer, vec![2; 8])),
        Error::InitializationError
    );
    renderer.refuse_updates = false;
    let (again, _) = shown(show_h263(&mut backend, stream, &mut renderer, vec![3; 8]));
    assert_eq!(again.handle, info.handle);
    assert_eq!(renderer.held.len(), 1);
    assert_eq!(renderer.held[0].2, vec![3; 8]);
}

#[test]
fn renderer_that_fails_on_the_first_frame_leaves_the_stream_without_bitmap() {
    let mut backend = SoftwareVideoBackend::new();
    let stream = backend
        .register_video_stream(10, (2, 1), VideoCodec::H263, VideoDeblocking::Level1)
        .unwrap();
    assert!(matches!(decode_h263(&mut backend, stream, vec![1; 8]), RenderCall::Register { .. }));
    assert_eq!(
        failed(backend.decode_video_stream_frame(
            stream,
            frame(&[]),
            DecodeEvent::Rendered(RenderAnswer::Failed(Error::UnsupportedCodec))
        )),
        Error::UnsupportedCodec
    );
    assert!(matches!(decode_h263(&mut backend, stream, vec![2; 8]), RenderCall::Register { .. }));
    let (info, _) = shown(backend.decode_video_stream_frame(
        stream,
        frame(&[]),
        DecodeEvent::Rendered(RenderAnswer::Registered(BitmapHandle(5))),
    ));
    assert_eq!(info.handle, BitmapHandle(5));
}

#[test]
fn answer_of_the_renderer_that_was_not_asked_for_fails_and_changes_nothing() {
    let mut backend = SoftwareVideoBackend::new();
    let stream = backend
        .register_video_stream(10, (2, 1), VideoCodec::H263, VideoDeblocking::Level1)
        .unwrap();
    for answer in [
        RenderAnswer::Registered(BitmapHandle(1)),
        RenderAnswer::Updated,
        RenderAnswer::Failed(Error::UnsupportedCodec),
    ] {
        assert_eq!(
            failed(backend.decode_video_stream_frame(
                stream,
                frame(&[]),
                DecodeEvent::Rendered(answer)
            )),
            Error::BitstreamDecodeError
        );
    }
    assert!(matches!(decode_h263(&mut backend, stream, vec![1; 8]), RenderCall::Register { .. }));
    assert_eq!(
        failed(backend.decode_video_stream_frame(
            stream,
            frame(&[]),
            DecodeEvent::Rendered(RenderAnswer::Updated)
        )),
        Error::BitstreamDecodeError
    );
    assert_eq!(
        failed(backend.decode_video_stream_frame(
            stream,
            frame(&[]),
            codec(CodecEvent::Pixels(vec![1; 8]))
        )),
        Error::BitstreamDecodeError
    );
    let (info, _) = shown(backend.decode_video_stream_frame(
        stream,
        frame(&[]),
        DecodeEvent::Rendered(RenderAnswer::Registered(BitmapHandle(3))),
    ));
    assert_eq!(info.handle, BitmapHandle(3));
    assert!(matches!(decode_h263(&mut backend, stream, vec![1; 8]), RenderCall::Update { .. }));
    assert_eq!(
        failed(backend.decode_video_stream_frame(
            stream,
            frame(&[]),
            DecodeEvent::Rendered(RenderAnswer::Registered(BitmapHandle(9)))
        )),
        Error::BitstreamDecodeError
    );
    let (info, _) = shown(backend.decode_video_stream_frame(
        stream,
        frame(&[]),
        DecodeEvent::Rendered(RenderAnswer::Updated),
    ));
    assert_eq!(info.handle, BitmapHandle(3));
}

#[test]
fn new_call_gives_up_the_frame_that_is_with_the_renderer() {
    let mut backend = SoftwareVideoBackend::new();
    let stream = backend
        .register_video_stream(10, (2, 1), VideoCodec::H263, VideoDeblocking::Level1)
        .unwrap();
    assert!(matches!(decode_h263(&mut backend, stream, vec![1; 8]), RenderCall::Register { .. }));
    assert_eq!(
        asked(backend.decode_video_stream_frame(stream, frame(&[1]), codec(CodecEvent::Start))),
        CodecRequest::DecodePicture
    );
    assert_eq!(
        failed(backend.decode_video_stream_frame(
            stream,
            frame(&[1]),
            DecodeEvent::Rendered(RenderAnswer::Registered(BitmapHandle(1)))
        )),
        Error::BitstreamDecodeError
    );
}

#[test]
fn vp6_stream_is_decoded_through_the_backend() {
    let mut backend = SoftwareVideoBackend::new();
    let mut renderer = Bitmaps::new();
    let stream = backend
        .register_video_stream(10, (20, 16), VideoCodec::Vp6, VideoDeblocking::Level1)
        .unwrap();
    let data = [0u8, 1, 2, 3];
    let payload = EncodedFrame { codec: VideoCodec::Vp6, data: &data, frame_id: 0 };
    assert_eq!(
        asked(backend.decode_video_stream_frame(stream, payload, codec(CodecEvent::Start))),
        CodecRequest::ParseVp6Header { offset: 0 }
    );
    let header = Vp6Header { disp_w: 2, disp_h: 2 };
    assert_eq!(
        asked(backend.decode_video_stream_frame(
            stream,
            payload,
            codec(CodecEvent::Vp6Header(Some(header)))
        )),
        CodecRequest::InitVp6 { width: 32, height: 32, with_alpha: false }
    );
    assert_eq!(
        asked(backend.decode_video_stream_frame(
            stream,
            payload,
            codec(CodecEvent::Vp6Initialized(true))
        )),
        CodecRequest::DecodeVp6
    );
    assert!(backend.frame_to_convert(stream).is_none());
    let layout = PlaneLayout {
        width: 32,
        height: 32,
        chroma_width: 16,
        chroma_height: 16,
        luma_offset: 0,
        chroma_b_offset: 1024,
        chroma_r_offset: 1280,
        alpha_offset: None,
    };
    let buffer = VideoBuffer::new(vec![50; 1536], layout).unwrap();
    assert_eq!(
        asked(backend.decode_video_stream_frame(
            stream,
            payload,
            codec(CodecEvent::Vp6Frame(Some(DecodedBuffer::Video(buffer))))
        )),
        CodecRequest::ConvertPlanes
    );
    assert_eq!(backend.frame_to_convert(stream).unwrap().luma().len(), 1024);
    let mut rgba = Vec::new();
    for i in 0..32 * 32 * 4 {
        rgba.push((i % 253) as u8);
    }
    let call = to_render(backend.decode_video_stream_frame(
        stream,
        payload,
        codec(CodecEvent::Pixels(rgba.clone())),
    ));
    let answer = renderer.answer(call);
    let (info, undersized) =
        shown(backend.decode_video_stream_frame(stream, payload, DecodeEvent::Rendered(answer)));
    assert!(!undersized);
    assert_eq!(info.width, 20);
    assert_eq!(info.height, 16);
    let (width, height, pixels) = &renderer.held[info.handle.0];
    assert_eq!((*width, *height), (20, 16));
    assert_eq!(pixels.len(), 20 * 16 * 4);
    for row in 0..16 {
        assert_eq!(pixels[row * 80..(row + 1) * 80], rgba[row * 128..row * 128 + 80]);
    }
}

#[test]
fn undersized_frame_is_noted_when_it_is_shown() {
    let mut backend = SoftwareVideoBackend::new();
    let stream = backend
        .register_video_stream(10, (40, 40), VideoCodec::Vp6, VideoDeblocking::Level1)
        .unwrap();
    let data = [0u8, 1, 2, 3];
    let payload = EncodedFrame { codec: VideoCodec::Vp6, data: &data, frame_id: 0 };
    backend.decode_video_stream_frame(stream, payload, codec(CodecEvent::Start)).unwrap();
    let header = Vp6Header { disp_w: 1, disp_h: 1 };
    backend
        .decode_video_stream_frame(stream, payload, codec(CodecEvent::Vp6Header(Some(header))))
        .unwrap();
    backend
        .decode_video_stream_frame(stream, payload, codec(CodecEvent::Vp6Initialized(true)))
        .unwrap();
    let layout = PlaneLayout {
        width: 16,
        height: 16,
        chroma_width: 8,
        chroma_height: 8,
        luma_offset: 0,
        chroma_b_offset: 256,
        chroma_r_offset: 320,
        alpha_offset: None,
    };
    let buffer = VideoBuffer::new(vec![50; 384], layout).unwrap();
    backend
        .decode_video_stream_frame(
            stream,
            payload,
            codec(CodecEvent::Vp6Frame(Some(DecodedBuffer::Video(buffer)))),
        )
        .unwrap();
    let call = to_render(backend.decode_video_stream_frame(
        stream,
        payload,
        codec(CodecEvent::Pixels(vec![3; 16 * 16 * 4])),
    ));
    assert!(matches!(call, RenderCall::Register { width: 16, height: 16, .. }));
    let (info, undersized) = shown(backend.decode_video_stream_frame(
        stream,
        payload,
        DecodeEvent::Rendered(RenderAnswer::Registered(BitmapHandle(2))),
    ));
    assert!(undersized);
    assert_eq!(info, BitmapInfo { handle: BitmapHandle(2), width: 16, height: 16 });
}

#[test]
fn stream_steps_can_be_taken_without_a_backend() {
    let mut stream = VideoStream::new(VideoDecoder::H263(H263Decoder::new()));
    let data = [1u8];
    assert_eq!(
        asked(stream.decode_frame(frame(&data), codec(CodecEvent::Start))),
        CodecRequest::DecodePicture
    );
    let picture = Picture { dimensions: Some((1, 1)) };
    assert_eq!(
        asked(stream.decode_frame(frame(&data), codec(CodecEvent::Picture(Some(picture))))),
        CodecRequest::ConvertPicture
    );
    let call = to_render(stream.decode_frame(frame(&data), codec(CodecEvent::Pixels(vec![4; 4]))));
    assert!(matches!(call, RenderCall::Register { width: 1, height: 1, .. }));
    let (info, _) = shown(stream.decode_frame(
        frame(&data),
        DecodeEvent::Rendered(RenderAnswer::Registered(BitmapHandle(8))),
    ));
    assert_eq!(info, BitmapInfo { handle: BitmapHandle(8), width: 1, height: 1 });
}

#[test]
fn render_call_registers_first_and_updates_later() {
    let stream = VideoStream::new(VideoDecoder::H263(H263Decoder::new()));
    let picture = DecodedFrame { width: 2, height: 1, rgba: vec![1; 8] };
    match stream.render_call(picture) {
        RenderCall::Register { width, height, rgba } => {
            assert_eq!((width, height), (2, 1));
            assert_eq!(rgba, vec![1; 8]);
        }
        other => panic!("unexpected call {:?}", other),
    }
}
