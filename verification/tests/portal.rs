use bsr::buffer::DropOldestBuffer;
use bsr::capture::{
    CaptureBackend, CaptureConfig, CaptureError, CaptureFrame, CaptureService, DropPolicy,
    FrameFormat,
};
use bsr::config::CaptureRegion;
use bsr::ipc::TelemetryEvent;
use bsr::portal::{
    check_session, cursor_mode, first_frame, handshake_error, parse_error, pipeline_description,
    platform_backend, pull_step, pull_timeout, read_restore_token, restore_token_path, setup_error,
    start_live, CursorMode, Drain, HandshakeStep, LiveStream, PlatformCaptureBackend, PortalCaptureBackend, PullStep,
    SessionEnv, SetupStep, MAX_DRAIN,
};

fn wayland() -> SessionEnv {
    SessionEnv {
        no_portal: None,
        wayland_display: true,
        display: true,
        session_type: Some("wayland".to_string()),
    }
}

fn frame(tag: u8, timestamp: u64) -> CaptureFrame {
    CaptureFrame {
        data: vec![tag; 4 * 4 * 4],
        timestamp,
        width: 4,
        height: 4,
        format: FrameFormat::Bgra8,
    }
}

fn live(last: Option<CaptureFrame>) -> LiveStream {
    LiveStream { node_id: 42, width: 4, height: 4, last }
}

fn some(s: &str) -> Option<String> {
    Some(s.to_string())
}

/// The recorder's backend is the real one, never a synthetic source.
#[test]
fn platform_backend_is_the_real_portal_backend() {
    let backend: PortalCaptureBackend = platform_backend();
    let alias: PlatformCaptureBackend = backend;
    let name = format!("{alias:?}");
    assert!(
        name.contains("PortalCaptureBackend"),
        "the Linux platform backend must be PortalCaptureBackend, got `{name}`. A synthetic \
         or mock backend must never be reachable from a product build."
    );
}

#[test]
fn capture_frame_before_initialize_is_an_error() {
    let mut backend = platform_backend();
    let msg = backend.capture_frame(Some(frame(1, 0)), 0).unwrap_err().message();
    assert!(
        msg.contains("initialize"),
        "the error should say the session was never started, got: {msg}"
    );
}

#[test]
fn initialize_refuses_when_the_portal_is_disabled() {
    let mut env = wayland();
    env.no_portal = some("1");
    let mut backend = platform_backend();
    let started = start_live(&env, Ok(42), Ok(Some(frame(1, 0))));
    let err = backend.initialize(started).expect_err("BSR_NO_PORTAL=1 must refuse").message();
    assert!(err.contains("BSR_NO_PORTAL"), "the refusal should name the reason, got: {err}");
    assert!(
        backend.capture_frame(None, 0).is_err(),
        "a backend that failed to initialize must not produce frames"
    );
}

#[test]
fn initialize_refuses_without_a_graphical_session() {
    let mut env = wayland();
    env.wayland_display = false;
    env.display = false;
    let err = check_session(&env).expect_err("no display must refuse to start").message();
    assert!(err.contains("no graphical session"), "the refusal should name the reason, got: {err}");
}

#[test]
fn initialize_refuses_an_xorg_session() {
    let mut env = wayland();
    env.session_type = some("x11");
    let msg = check_session(&env).expect_err("an Xorg session must be refused").message();
    assert!(
        msg.contains("Xorg") && msg.contains("Wayland"),
        "the refusal must name the problem and the fix, got: {msg}"
    );
}

#[test]
fn a_wayland_session_starts() {
    assert!(check_session(&wayland()).is_ok());
    let mut env = wayland();
    env.no_portal = some("0");
    assert!(check_session(&env).is_ok(), "only 1 disables the portal");
    let stream = start_live(&env, Ok(42), Ok(Some(frame(3, 9)))).unwrap();
    assert_eq!((stream.node_id, stream.width, stream.height), (42, 4, 4));
    assert_eq!(stream.last.unwrap().data, frame(3, 9).data);
}

#[test]
fn a_stream_without_a_first_frame_does_not_start() {
    let none = first_frame(42, Ok(None)).unwrap_err().message();
    assert!(none.contains("portal session started (node 42) but no frame arrived within 8s"), "{none}");
    let bad = first_frame(42, Err("short".to_string())).unwrap_err().message();
    assert!(bad.ends_with("first frame unusable: short"), "{bad}");
    let step = start_live(&wayland(), Err("gst::init: no".to_string()), Ok(None)).unwrap_err();
    assert!(step.message().ends_with("gst::init: no"));
}

#[test]
fn a_quiet_desktop_repeats_the_last_frame() {
    let mut backend = platform_backend();
    backend.initialize(Ok(live(Some(frame(1, 10))))).unwrap();
    assert_eq!(backend.dimensions(), Some((4, 4)));
    assert_eq!(backend.node_id(), Some(42));

    let repeat = backend.capture_frame(None, 77).unwrap();
    assert_eq!((repeat.data, repeat.timestamp), (frame(1, 0).data, 77));
    assert_eq!(backend.repeated_frames(), 1);

    let fresh = backend.capture_frame(Some(frame(2, 88)), 99).unwrap();
    assert_eq!((fresh.data, fresh.timestamp), (frame(2, 0).data, 88));
    assert_eq!(backend.capture_frame(None, 100).unwrap().data, frame(2, 0).data);
    assert_eq!(backend.repeated_frames(), 2);

    assert!(backend.is_live());
    assert!(backend.shutdown());
    assert!(!backend.shutdown(), "there is nothing left to stop");
    assert_eq!((backend.dimensions(), backend.node_id()), (None, None));
    assert!(backend.capture_frame(None, 101).is_err());
}

#[test]
fn a_second_start_keeps_the_stream() {
    let mut backend = platform_backend();
    backend.initialize(Ok(live(None))).unwrap();
    let other = LiveStream { node_id: 7, width: 8, height: 8, last: None };
    backend.initialize(Ok(other)).unwrap();
    assert_eq!(backend.node_id(), Some(42));
    assert_eq!(
        backend.capture_frame(None, 0).unwrap_err().message(),
        "Frame acquisition failed: no frame available and no previous frame to repeat"
    );
}

#[test]
fn draining_keeps_the_newest_sample() {
    let mut drain = Drain::new();
    drain.take(Ok(Some(frame(1, 0))));
    drain.take(Ok(Some(frame(2, 0))));
    assert!(drain.wants_more());
    drain.take(Ok(None));
    assert!(!drain.wants_more());
    assert_eq!(drain.newest.unwrap().data, frame(2, 0).data);

    let mut endless = Drain::new();
    let mut n = 0;
    while endless.wants_more() {
        endless.take(Ok(Some(frame(9, n))));
        n += 1;
    }
    assert_eq!(n as usize, MAX_DRAIN);
    let mut broken = Drain::new();
    broken.take(Err("unusable".to_string()));
    assert!(!broken.wants_more() && broken.newest.is_none());
}

#[test]
fn unusable_samples_are_skipped_until_the_deadline() {
    assert!(matches!(pull_step(None, 5, 10), PullStep::Done(Ok(None))));
    assert!(matches!(pull_step(Some(Ok(frame(1, 0))), 50, 10), PullStep::Done(Ok(Some(_)))));
    assert!(matches!(pull_step(Some(Err("x".to_string())), 9, 10), PullStep::Again));
    match pull_step(Some(Err("x".to_string())), 10, 10) {
        PullStep::Done(Err(e)) => assert_eq!(e, "x"),
        other => panic!("{other:?}"),
    }
    assert_eq!((pull_timeout(3, 10), pull_timeout(11, 10)), (7, 0));
}

#[test]
fn the_pipeline_reads_bgra_frames_from_the_node() {
    assert_eq!(
        pipeline_description(12, 42),
        "pipewiresrc name=src fd=12 path=42 ! videoconvert ! video/x-raw,format=BGRA ! \
         appsink name=sink max-buffers=4 drop=true sync=false"
    );
    assert_eq!(parse_error("a ! b", "no b"), "gst parse (a ! b): no b");
}

#[test]
fn every_step_of_the_start_names_itself() {
    assert_eq!(setup_error(SetupStep::GstInit, "x"), "gst::init: x");
    assert_eq!(setup_error(SetupStep::NotAPipeline, "x"), "parsed element is not a pipeline");
    assert_eq!(setup_error(SetupStep::NoSink, "x"), "pipeline has no element named 'sink'");
    assert_eq!(setup_error(SetupStep::SinkIsNoAppSink, "x"), "'sink' is not an appsink");
    assert_eq!(setup_error(SetupStep::SetPlaying, "x"), "set pipeline PLAYING: x");
    let h = |step| handshake_error(step, "x");
    assert_eq!(h(HandshakeStep::Connect), "connect to ScreenCast portal: x");
    assert_eq!(h(HandshakeStep::CreateSession), "ScreenCast.CreateSession: x");
    assert_eq!(h(HandshakeStep::SelectSources), "ScreenCast.SelectSources: x");
    assert_eq!(h(HandshakeStep::SelectResponse), "SelectSources refused: x");
    assert_eq!(h(HandshakeStep::Start), "ScreenCast.Start: x");
    assert_eq!(
        h(HandshakeStep::StartResponse),
        "screen share was not granted (x) — the portal dialog may have been dismissed"
    );
    assert_eq!(h(HandshakeStep::NoStreams), "ScreenCast.Start returned no streams");
    assert_eq!(h(HandshakeStep::OpenRemote), "ScreenCast.OpenPipeWireRemote: x");
    assert!(h(HandshakeStep::TimedOut).contains("did not answer within 120s"));
    assert_eq!(h(HandshakeStep::TaskExited), "portal handshake task exited without answering");
}

#[test]
fn the_restore_token_lives_in_the_cache() {
    assert_eq!(
        restore_token_path(&some("/c"), &some("/home/me")),
        "/c/bsr/screencast_restore_token"
    );
    assert_eq!(
        restore_token_path(&None, &some("/home/me")),
        "/home/me/.cache/bsr/screencast_restore_token"
    );
    assert_eq!(restore_token_path(&None, &None), "/tmp/bsr/screencast_restore_token");
    assert_eq!(read_restore_token(&some(" abc\n")).as_deref(), Some("abc"));
    assert_eq!(read_restore_token(&some(" \n")), None);
    assert_eq!(read_restore_token(&None), None);
}

#[test]
fn the_pointer_is_in_the_picture_unless_asked_not_to_be() {
    assert_eq!(cursor_mode(&None), CursorMode::Embedded);
    assert_eq!(cursor_mode(&some("hidden")), CursorMode::Hidden);
    assert_eq!(cursor_mode(&some("metadata")), CursorMode::Metadata);
    assert_eq!(cursor_mode(&some("Hidden")), CursorMode::Embedded);
}

fn capture_config(region: Option<CaptureRegion>) -> CaptureConfig {
    let mut config = CaptureConfig::default();
    config.region = region;
    config
}

#[test]
fn captured_frames_are_cropped_and_buffered() {
    let region = CaptureRegion { x1: 0, y1: 0, x2: 2, y2: 2 };
    let mut service = CaptureService::new(capture_config(Some(region)));
    let mut buf = DropOldestBuffer::new(2);
    let out = service.on_tick(Ok(frame(1, 5)), 0, &mut buf);
    assert!(out.preview.is_none() && out.event.is_none() && out.wake_encoder);
    let kept = buf.pop().unwrap();
    assert_eq!((kept.width, kept.height, kept.timestamp), (2, 2, 5));
    assert_eq!(service.telemetry.frames_captured, 1);
}

#[test]
fn a_failed_capture_is_counted_and_buffers_nothing() {
    let mut service = CaptureService::new(capture_config(None));
    let mut buf: DropOldestBuffer<CaptureFrame> = DropOldestBuffer::new(2);
    let err = CaptureError::FrameAcquisitionFailed("gone".to_string());
    let out = service.on_tick(Err(err), 0, &mut buf);
    assert!(out.preview.is_none() && out.event.is_none() && !out.wake_encoder);
    assert_eq!(buf.len(), 0);
    assert_eq!((service.telemetry.frames_captured, service.telemetry.frames_dropped), (0, 1));
}

#[test]
fn a_preview_gets_copies_and_takes_nothing() {
    let mut service = CaptureService::new(capture_config(None)).with_preview(200);
    let mut buf = DropOldestBuffer::new(8);
    let shown: Vec<bool> = [0u64, 100, 199, 200, 350, 400, 401]
        .iter()
        .map(|now| service.on_tick(Ok(frame(*now as u8, *now)), *now, &mut buf).preview.is_some())
        .collect();
    assert_eq!(shown, [true, false, false, true, false, true, false]);
    assert_eq!(buf.len(), 7, "every frame is still there for the encoder");
    let out = service.on_tick(Ok(frame(7, 700)), 700, &mut buf);
    assert_eq!(out.preview.unwrap().data, frame(7, 0).data);
}

#[test]
fn an_overflowing_buffer_is_reported() {
    let mut service = CaptureService::new(capture_config(None));
    let mut buf = DropOldestBuffer::new(1);
    assert!(service.on_tick(Ok(frame(1, 1)), 0, &mut buf).event.is_none());
    match service.on_tick(Ok(frame(2, 2)), 0, &mut buf).event {
        Some(TelemetryEvent::ErrorOccurred { message }) => {
            assert_eq!(message, "Frame dropped by ring buffer (total: 1)")
        }
        other => panic!("{other:?}"),
    }
    assert_eq!(service.telemetry.frames_dropped, 1);
    assert_eq!(buf.pop().unwrap().data, frame(2, 0).data);
}

#[test]
fn capture_defaults_and_errors() {
    let config = CaptureConfig::default();
    assert_eq!((config.width, config.height, config.fps), (1920, 1080, 30));
    assert_eq!(config.buffer_capacity, CaptureConfig::default_buffer_capacity());
    assert_eq!(config.drop_policy, DropPolicy::DropNewest);
    let e = |e: CaptureError| e.message();
    assert_eq!(e(CaptureError::InitializationFailed("a".into())), "Init failed: a");
    assert_eq!(e(CaptureError::FrameAcquisitionFailed("b".into())), "Frame acquisition failed: b");
    assert_eq!(e(CaptureError::UnsupportedFormat("c".into())), "Unsupported format: c");
    assert_eq!(e(CaptureError::Shutdown("d".into())), "Shutdown: d");
}

/// A source of even pictures, each with the number of its frame.
struct MockCaptureBackend {
    frame_count: u64,
}

impl CaptureBackend for MockCaptureBackend {
    fn initialize(&mut self) -> Result<(), CaptureError> {
        Ok(())
    }

    fn capture_frame(&mut self) -> Result<CaptureFrame, CaptureError> {
        self.frame_count += 1;
        let (width, height) = (1920u32, 1080u32);
        let pixel = [(self.frame_count % 256) as u8, 128, 128, 255];
        Ok(CaptureFrame {
            data: pixel.repeat((width * height) as usize),
            timestamp: self.frame_count,
            width,
            height,
            format: FrameFormat::Bgra8,
        })
    }

    fn shutdown(&mut self) -> Result<(), CaptureError> {
        Ok(())
    }
}

#[test]
fn test_mock_backend() {
    let mut backend = MockCaptureBackend { frame_count: 0 };
    backend.initialize().unwrap();
    let frame = backend.capture_frame().unwrap();
    assert_eq!(frame.width, 1920);
    assert_eq!(frame.height, 1080);
    assert_eq!(frame.format, FrameFormat::Bgra8);
    assert!(!frame.data.is_empty());
    backend.shutdown().unwrap();
}

#[test]
fn test_capture_service() {
    let mut backend = MockCaptureBackend { frame_count: 0 };
    let mut service = CaptureService::new(CaptureConfig::default());
    let mut buf = DropOldestBuffer::new(32);
    backend.initialize().unwrap();
    for now in 0..5u64 {
        assert!(service.tick(&mut backend, now, &mut buf).wake_encoder);
    }
    assert_eq!(buf.len(), 5);
    assert_eq!(service.telemetry.frames_captured, 5);
    assert_eq!(buf.pop().unwrap().timestamp, 1, "the oldest comes first");
    backend.shutdown().unwrap();
}
