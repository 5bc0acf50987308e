use bsr::clock::Span;
use bsr::encode::H264EncoderBackend;
use bsr::hrt::{emit_event, on_command, on_start, HrtCommand, HrtEvent};
use bsr::ipc::{FileNamingStrategy, MuxerConfig, TelemetryEvent};
use bsr::mux::{
    generate_output_path, mp4_layout, EncodedPacket, MockMuxer, MuxerBackend, MuxerCommand,
    MuxerError, MuxerEvent, MuxerService, MuxerStep, MuxerTelemetry,
};

#[test]
fn test_muxer_config_default() {
    let config = MuxerConfig::default();
    assert_eq!(config.base_output_path, "./output");
    assert!(matches!(config.file_naming_strategy, FileNamingStrategy::TimestampedFile));
    assert_eq!(config.max_duration, Span::from_secs(18000)); // 5 hours
}

fn written(bytes: u64, elapsed_ns: u64) -> MuxerEvent {
    MuxerEvent::Written { bytes, latency_ms: 3, elapsed_ns }
}

#[test]
fn test_muxer_receives_config_before_start() {
    let config = MuxerConfig::default();
    let service = MuxerService::new(config.clone());
    assert_eq!(service.config.base_output_path, config.base_output_path);
}

#[test]
fn test_muxer_service_duration_cap() {
    let config = MuxerConfig { max_duration: Span::from_millis(100), ..Default::default() };
    let mut service = MuxerService::new(config);

    let step = service.on_event(written(100, 99_999_999));
    assert_eq!(
        step.telemetry,
        Some(MuxerTelemetry {
            file_size_bytes: 100,
            duration_secs: 0,
            last_write_latency_ms: 3,
            max_duration_reached: false,
        })
    );
    assert!(!step.exit && !step.finalize);

    let step = service.on_event(written(50, 1_100_000_000));
    assert!(step.finalize && step.stop_over_ipc && step.exit);
    assert_eq!(
        step.last_telemetry,
        Some(MuxerTelemetry {
            file_size_bytes: 150,
            duration_secs: 1,
            last_write_latency_ms: 0,
            max_duration_reached: true,
        })
    );
}

#[test]
fn packet_stream_ending_finalizes_the_file() {
    let mut service = MuxerService::new(MuxerConfig::default());
    service.on_event(written(10, 0));
    let step = service.on_event(MuxerEvent::PacketsEnded);
    assert!(step.finalize && step.exit && !step.stop_over_ipc);
    assert!(service.finalized);
}

#[test]
fn explicit_stop_finalizes_the_file() {
    for command in [MuxerCommand::StopRecording, MuxerCommand::Shutdown] {
        let mut service = MuxerService::new(MuxerConfig::default());
        let step = service.on_event(MuxerEvent::Command(command));
        assert!(step.finalize && step.exit);
        let again = service.on_event(MuxerEvent::PacketsEnded);
        assert!(!again.finalize, "the trailer is written once");
    }
}

#[test]
fn losing_the_command_channel_only_ends_the_loop() {
    let mut service = MuxerService::new(MuxerConfig::default());
    let step = service.on_event(MuxerEvent::CommandsClosed);
    assert!(step.exit && !step.finalize && step.telemetry.is_none());
}

#[test]
fn a_failure_ends_the_run_without_a_trailer() {
    let error = MuxerError::Io("disk full".to_string());
    for failure in [
        MuxerEvent::InitializeFailed(error.clone()),
        MuxerEvent::WriteFailed(error.clone()),
        MuxerEvent::FinalizeFailed(error.clone()),
    ] {
        let mut service = MuxerService::new(MuxerConfig::default());
        service.on_event(written(10, 0));
        let step = service.on_event(failure);
        assert_eq!(
            step,
            MuxerStep {
                telemetry: None,
                last_telemetry: None,
                finalize: false,
                stop_over_ipc: false,
                exit: true,
                error: Some(error.clone()),
            }
        );
        assert_eq!((service.bytes_written, service.finalized), (10, false));
    }
    let mut service = MuxerService::new(MuxerConfig::default());
    assert_eq!(service.on_event(MuxerEvent::PacketsEnded).error, None);
}

#[test]
fn the_mock_wants_to_be_initialized() {
    let packet = || EncodedPacket { data: vec![0; 100], pts: 0, dts: 0, keyframe: true };
    let mut mock = MockMuxer::new();
    assert_eq!(mock.write_packet(packet()).unwrap_err().message(), "Invalid config: Not initialized");
    assert!(mock.finalize().is_err());
    mock.initialize(&MuxerConfig::default()).unwrap();
    mock.write_packet(packet()).unwrap();
    mock.write_packet(packet()).unwrap();
    mock.finalize().unwrap();
    assert_eq!((mock.packets_written, mock.finalized), (2, true));
    let mut other = MockMuxer::new();
    other.shutdown().unwrap();
    assert!(other.finalized);
}

#[test]
fn a_packet_keeps_its_timestamps() {
    let encoded = H264EncoderBackend::packet(vec![1, 2, 3], 9, Some(4), Some(5), true);
    assert_eq!(
        EncodedPacket::from_encoder(encoded),
        EncodedPacket { data: vec![1, 2, 3], pts: 4, dts: 5, keyframe: true }
    );
}

#[test]
fn muxer_errors_say_what_failed() {
    assert_eq!(MuxerError::Io("a".into()).message(), "IO error: a");
    assert_eq!(MuxerError::FFmpeg("b".into()).message(), "FFmpeg error: b");
    assert_eq!(MuxerError::Config("c".into()).message(), "Invalid config: c");
}

#[test]
fn a_file_is_laid_out_for_its_stream() {
    let config = MuxerConfig { fps: 0, width: 1280, height: 720, ..Default::default() };
    let layout = mp4_layout(&config, "/rec/a.mp4".to_string());
    assert_eq!(layout.output_path, "/rec/a.mp4");
    assert_eq!(layout.directory.as_deref(), Some("/rec"));
    assert_eq!((layout.fps, layout.width, layout.height), (1, 1280, 720));
}

#[test]
fn file_names_follow_the_strategy() {
    let mut config = MuxerConfig { base_output_path: "/rec".to_string(), ..Default::default() };
    let at = |c: &MuxerConfig| c.output_path_at("2026-01-02", "03-04-05");
    assert_eq!(at(&config), "/rec/2026-01-02_03-04-05.mp4");
    config.file_naming_strategy = FileNamingStrategy::TimestampedFolder;
    assert_eq!(at(&config), "/rec/2026-01-02/03-04-05.mp4");
    config.file_naming_strategy = FileNamingStrategy::Simple("take.mp4".to_string());
    assert_eq!(at(&config), "/rec/take.mp4");
    assert_eq!(generate_output_path(&config), "/rec/take.mp4");
    assert_eq!(config.preview_output_path(), "/rec/take.mp4");
}

#[test]
fn a_timestamped_file_carries_the_time() {
    let config = MuxerConfig { base_output_path: "/rec".to_string(), ..Default::default() };
    let path = generate_output_path(&config);
    // /rec/YYYY-MM-DD_HH-MM-SS.mp4
    assert_eq!(path.len(), "/rec/2026-01-02_03-04-05.mp4".len(), "{path}");
    let shape: String = path[5..]
        .chars()
        .map(|c| if c.is_ascii_digit() { '0' } else { c })
        .collect();
    assert_eq!(shape, "0000-00-00_00-00-00.mp0");
}

#[test]
fn spans_count_nanoseconds() {
    assert_eq!(Span::from_secs(2).as_nanos(), 2_000_000_000);
    assert_eq!(Span::from_millis(1500).as_nanos(), 1_500_000_000);
    assert_eq!(Span::from_millis(1500), Span { secs: 1, nanos: 500_000_000 });
}

#[test]
fn test_hrt_service() {
    let start = on_start();
    assert!(matches!(start.event, Some(TelemetryEvent::AppStarted)) && !start.stop);
    let end = on_command(Some(HrtCommand::Shutdown));
    assert!(matches!(end.event, Some(TelemetryEvent::AppStopped)) && end.stop);
    let gone = on_command(None);
    assert!(gone.event.is_none() && gone.stop);
}

#[test]
fn test_ipc_bridge_conversion() {
    assert!(matches!(emit_event(HrtEvent::LifecycleStart), Some(TelemetryEvent::AppStarted)));
    assert_eq!(
        emit_event(HrtEvent::ThermalWarning),
        Some(TelemetryEvent::ErrorOccurred { message: "Thermal warning".to_string() })
    );
    assert_eq!(
        emit_event(HrtEvent::ThermalCritical),
        Some(TelemetryEvent::ErrorOccurred { message: "Thermal critical".to_string() })
    );
    assert_eq!(
        emit_event(HrtEvent::ErrorOccurred { message: "x".to_string() }),
        Some(TelemetryEvent::ErrorOccurred { message: "x".to_string() })
    );
    assert!(matches!(emit_event(HrtEvent::LifecycleShutdown), Some(TelemetryEvent::AppStopped)));
}

#[test]
fn thermal_nominal_emits_no_downstream_event() {
    assert!(emit_event(HrtEvent::ThermalNominal).is_none(), "ThermalNominal should emit nothing");
    assert!(matches!(emit_event(HrtEvent::LifecycleStop), Some(TelemetryEvent::AppStopped)));
}
