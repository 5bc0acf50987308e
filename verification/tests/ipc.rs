use bsr::clock::Span;
use bsr::config::CaptureRegion;
use bsr::ipc::{
    consent_response, default_muxer_fps, default_muxer_height, default_muxer_width,
    push_consent_request_to_ui, push_save_offer_to_ui, save_offer_response, send_outcome,
    try_take_consent_request, try_take_record_space, try_take_save_offer_request, ConsentOutcome,
    ConsentRequest, FileNamingStrategy, IpcCommand, IpcError, IpcResponse, IpcServer, IpcStep,
    MuxerConfig, RecordSpaceSlot, SaveOfferOutcome, SaveOfferRequest, TelemetryEvent,
};

const MS: u64 = 1_000_000;

struct Server {
    server: IpcServer,
    slot: RecordSpaceSlot,
}

impl Server {
    fn new() -> Self {
        Server { server: IpcServer::new(10 * MS, true), slot: RecordSpaceSlot::default() }
    }

    fn send(&mut self, cmd: IpcCommand, now: u64) -> (Option<TelemetryEvent>, IpcResponse) {
        match self.server.handle_command(cmd, now, &mut self.slot) {
            IpcStep::Reply { event, response } => (event, response),
            other => panic!("no reply: {other:?}"),
        }
    }

    fn status(&mut self, now: u64) -> (bool, u64) {
        match self.send(IpcCommand::GetStatus, now).1 {
            IpcResponse::Status { recording, uptime_ms } => (recording, uptime_ms),
            other => panic!("unexpected {other:?}"),
        }
    }
}

#[test]
fn status_reflects_start_and_stop() {
    let mut s = Server::new();
    assert!(!s.status(20 * MS).0, "idle at startup");
    assert_eq!(s.send(IpcCommand::StartRecording, 20 * MS).1, IpcResponse::Done);
    assert!(s.status(20 * MS).0, "GetStatus must report a started recording");
    assert_eq!(s.send(IpcCommand::StopRecording, 20 * MS).1, IpcResponse::Done);
    assert!(!s.status(20 * MS).0, "GetStatus must report a stopped recording");
}

#[test]
fn start_and_stop_are_broadcast() {
    let mut s = Server::new();
    assert_eq!(
        s.send(IpcCommand::StartRecording, 0).0,
        Some(TelemetryEvent::RecordingStarted)
    );
    assert_eq!(
        s.send(IpcCommand::StopRecording, 0).0,
        Some(TelemetryEvent::RecordingStopped)
    );
    assert_eq!(s.send(IpcCommand::GetStatus, 0).0, None);
}

#[test]
fn health_reports_only_what_the_server_can_know() {
    let mut s = Server::new();
    s.send(IpcCommand::StartRecording, 20 * MS);
    match s.send(IpcCommand::GetHealthStatus, 30 * MS).1 {
        IpcResponse::HealthStatus {
            status,
            uptime_nanos,
            encoding_available,
            recording_active,
            frames_captured,
            frames_dropped,
        } => {
            assert_eq!(status, "ok");
            assert_eq!(uptime_nanos, 20 * MS);
            assert!(encoding_available);
            assert!(recording_active, "health must agree with the recording state");
            assert!(frames_captured.is_none(), "server cannot observe frame counts");
            assert!(frames_dropped.is_none(), "server cannot observe drop counts");
        }
        other => panic!("unexpected {other:?}"),
    }
}

#[test]
fn uptime_advances() {
    let mut s = Server::new();
    let (_, first) = s.status(10 * MS);
    let (_, second) = s.status(40 * MS);
    assert!(second > first, "uptime went {first} -> {second}; it must advance");
    assert_eq!((first, second), (0, 30));
}

#[test]
fn test_configure_muxer_stores_config() {
    let mut s = Server::new();
    assert!(s.server.state.muxer_config.is_none());
    let cfg = MuxerConfig::default();
    assert_eq!(s.send(IpcCommand::ConfigureMuxer(cfg.clone()), 0).1, IpcResponse::Done);
    assert_eq!(s.server.state.muxer_config, Some(cfg));
}

#[test]
fn a_configuration_is_kept_as_it_was_sent() {
    let mut s = Server::new();
    let cfg = MuxerConfig {
        base_output_path: "clips".to_string(),
        file_naming_strategy: FileNamingStrategy::Simple("take.mp4".into()),
        max_duration: Span::from_secs(600),
        fps: 30,
        width: 1280,
        height: 720,
    };
    s.send(IpcCommand::ConfigureMuxer(cfg.clone()), 0);
    assert_eq!(s.server.state.muxer_config, Some(cfg));
    assert_eq!((default_muxer_fps(), default_muxer_width(), default_muxer_height()), (30, 1920, 1080));
}

#[test]
fn a_request_to_record_asks_the_user() {
    let mut s = Server::new();
    let cmd = IpcCommand::RequestStartRecording { requester: Some("agent".to_string()) };
    match s.server.handle_command(cmd.clone(), 0, &mut s.slot) {
        IpcStep::AskConsent { requester } => assert_eq!(requester.as_deref(), Some("agent")),
        other => panic!("{other:?}"),
    }
    let mut alone = IpcServer::new(0, false);
    match alone.handle_command(cmd, 0, &mut s.slot) {
        IpcStep::Reply { event, response } => {
            assert_eq!((event, response), (None, IpcResponse::Done))
        }
        other => panic!("{other:?}"),
    }
}

#[test]
fn an_offer_goes_to_the_window_and_shutdown_stops() {
    let mut s = Server::new();
    let offer = IpcCommand::OfferSaveCopy { path: "/rec/a.mp4".to_string(), requester: None };
    match s.server.handle_command(offer, 0, &mut s.slot) {
        IpcStep::OfferSave { path } => assert_eq!(path, "/rec/a.mp4"),
        other => panic!("{other:?}"),
    }
    assert!(matches!(s.server.handle_command(IpcCommand::Shutdown, 0, &mut s.slot), IpcStep::Stop));
}

#[test]
fn answers_follow_the_user() {
    let err = |s: &str| IpcResponse::Error(s.to_string());
    assert_eq!(consent_response(ConsentOutcome::Answered(true)), IpcResponse::Done);
    assert_eq!(consent_response(ConsentOutcome::Answered(false)), err("declined"));
    assert_eq!(consent_response(ConsentOutcome::NoAnswer), err("consent_timeout"));
    assert_eq!(consent_response(ConsentOutcome::ChannelClosed), err("consent_channel_closed"));
    let taken = SaveOfferOutcome::Answered(Some("/home/me/a.mp4".to_string()));
    assert_eq!(save_offer_response(&taken), IpcResponse::Done);
    assert_eq!(save_offer_response(&SaveOfferOutcome::Answered(None)), err("declined"));
    assert_eq!(save_offer_response(&SaveOfferOutcome::NoAnswer), err("save_offer_timeout"));
}

#[test]
fn requests_are_taken_in_order() {
    let mut queue = Vec::new();
    for n in 0..3u32 {
        push_consent_request_to_ui(&mut queue, ConsentRequest { requester: None, resp: n });
    }
    let order: Vec<u32> =
        (0..3).map(|_| try_take_consent_request(&mut queue).unwrap().resp).collect();
    assert_eq!(order, [0, 1, 2]);
    assert!(try_take_consent_request(&mut queue).is_none());

    let mut offers = Vec::new();
    push_save_offer_to_ui(&mut offers, SaveOfferRequest { path: "a".to_string(), resp: 1u8 });
    push_save_offer_to_ui(&mut offers, SaveOfferRequest { path: "b".to_string(), resp: 2u8 });
    assert_eq!(try_take_save_offer_request(&mut offers).unwrap().path, "a");
    assert_eq!(try_take_save_offer_request(&mut offers).unwrap().resp, 2);
    assert!(try_take_save_offer_request(&mut offers).is_none());
}

#[test]
fn the_last_region_in_a_row_is_the_one_that_counts() {
    let mut s = Server::new();
    let a = CaptureRegion { x1: 0, y1: 0, x2: 100, y2: 100 };
    let b = CaptureRegion { x1: 0, y1: 0, x2: 200, y2: 200 };
    s.send(IpcCommand::SetRecordSpace { region: Some(a) }, 0);
    s.send(IpcCommand::SetRecordSpace { region: Some(b) }, 0);
    s.send(IpcCommand::GetStatus, 0);
    assert_eq!(try_take_record_space(&mut s.slot), Some(Some(b)));
    assert_eq!(try_take_record_space(&mut s.slot), None);
}

#[test]
fn a_client_learns_why_there_is_no_answer() {
    let gone = send_outcome(false, None).unwrap_err();
    assert_eq!(gone.message, "Failed to send command");
    assert_eq!(send_outcome(true, None).unwrap_err().message, "Failed to receive response");
    assert_eq!(send_outcome(true, Some(IpcResponse::Done)).unwrap(), IpcResponse::Done);
    assert_eq!(IpcError { message: "x".to_string() }.message(), "IPC Error: x");
}
