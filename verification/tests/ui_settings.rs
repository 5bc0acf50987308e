use bsr::capture::{CaptureFrame, FrameFormat};
use bsr::clock::Span;
use bsr::config::{BsrConfig, CaptureRegion, EncoderPreset, Environment};
use bsr::controls::Control;
use bsr::ipc::{
    push_record_space_to_ui, try_take_record_space, FileNamingStrategy, IpcCommand, IpcError,
    IpcResponse, RecordSpaceSlot,
};
use bsr::panels::{is_cuttable, next_file_text, shortened};
use bsr::preview::{bgra_to_rgba, frame_to_preview, is_paintable, point_text, scales};
use bsr::ui_model::{
    duration_is_long, duration_text, RecordingStatus, UiCommand, UiDiagnostics, UiError, UiModel,
    UiService, UiState, UiTelemetry,
};
use bsr::ui_settings::{
    default_output_folder, encoder_config_for, Corner, FileNamingStrategyUi, UiSettings,
};
use bsr::window::AppWindow;

fn env() -> Environment {
    Environment {
        home: Some("/home/someone".to_string()),
        user_profile: None,
        temp: None,
        temp_dir: "/tmp".to_string(),
    }
}

fn defaults() -> UiSettings {
    UiSettings::default_in(&env())
}

#[test]
fn test_ui_model_default() {
    let model = UiModel::default_in(&env());
    assert_eq!(model.status, RecordingStatus::Idle);
    assert_eq!(model.telemetry.frames_captured, 0);
    assert_eq!(model.settings.resolution, "1920x1080");
}

#[test]
fn test_ui_diagnostics_push() {
    let mut diag = UiDiagnostics::default();
    diag.push("test");
    assert_eq!(diag.lines.len(), 1);
    assert_eq!(diag.lines[0], "test");
    assert_eq!(diag.timestamps.len(), 1);
    // The time of day, HH:MM:SS.
    let t: Vec<char> = diag.timestamps[0].chars().collect();
    assert_eq!((t.len(), t[2], t[5]), (8, ':', ':'));
}

#[test]
fn old_diagnostics_make_room() {
    let mut diag = UiDiagnostics::default();
    for i in 0..60 {
        diag.push_at(&format!("line {i}"), "12:00:00");
    }
    assert_eq!(diag.lines.len(), 50);
    assert_eq!(diag.timestamps.len(), 50);
    assert_eq!((diag.lines[0].as_str(), diag.lines[49].as_str()), ("line 10", "line 59"));
    assert_eq!(diag.shown()[49], "[12:00:00] line 59");
}

#[test]
fn test_ui_settings_to_muxer_config() {
    let mut settings = defaults();
    settings.output_folder = "C:\\Test\\Out".to_string();
    settings.file_naming_strategy = FileNamingStrategyUi::TimestampedFile;

    let cfg = settings.to_muxer_config();
    assert_eq!(cfg.base_output_path, "C:\\Test\\Out");
    assert!(matches!(cfg.file_naming_strategy, FileNamingStrategy::TimestampedFile));
    assert_eq!(cfg.max_duration.secs, 5 * 60 * 60);
}

#[test]
fn test_ui_preview_output_path_matches_muxer_logic() {
    let settings = defaults();
    let cfg = settings.to_muxer_config();
    let preview = cfg.preview_output_path();
    assert!(preview.ends_with(".mp4"));
    assert!(preview.contains(&settings.output_folder));
}

#[test]
fn crop_defaults_to_recording_the_whole_screen() {
    let s = defaults();
    assert!(s.to_capture_region().is_none(), "no crop unless the operator asks");
    assert_eq!(s.recording_size(), (1920, 1080));
    assert_eq!(s.to_muxer_config().width, 1920);
}

#[test]
fn crop_insets_become_a_region_and_shrink_the_recording() {
    let s = UiSettings { crop_left: 100, crop_top: 50, crop_right: 300, crop_bottom: 150,
                         ..defaults() };
    let r = s.to_capture_region().expect("insets should produce a region");
    assert_eq!((r.x1, r.y1, r.x2, r.y2), (100, 50, 1620, 930));
    assert_eq!(s.recording_size(), (1520, 880));
}

#[test]
fn muxer_geometry_follows_the_crop() {
    let s = UiSettings { crop_left: 200, crop_right: 200, crop_top: 100, crop_bottom: 100,
                         ..defaults() };
    let cfg = s.to_muxer_config();
    assert_eq!((cfg.width, cfg.height), s.recording_size());
    assert_eq!((cfg.width, cfg.height), (1520, 880));
}

#[test]
fn odd_crops_are_rounded_to_even_before_they_reach_the_encoder() {
    let s = UiSettings { crop_left: 101, crop_right: 0, crop_top: 51, crop_bottom: 0,
                         ..defaults() };
    let (w, h) = s.recording_size();
    assert_eq!(w % 2, 0, "width {w} must be even");
    assert_eq!(h % 2, 0, "height {h} must be even");
    assert_eq!((w, h), (1818, 1028));
}

#[test]
fn overlapping_crops_fall_back_to_the_full_screen() {
    let s = UiSettings { crop_left: 1500, crop_right: 1500, ..defaults() };
    assert!(s.has_crop_insets(), "the operator did set insets");
    assert!(s.to_capture_region().is_none(), "but they leave nothing usable");
    assert_eq!(s.recording_size(), (1920, 1080), "so record it all rather than nothing");

    let meet = UiSettings { crop_left: 960, crop_right: 960, ..defaults() };
    assert!(meet.to_capture_region().is_none(), "edges that exactly meet leave no area");
    let ok = UiSettings { crop_left: 959, crop_right: 959, ..defaults() };
    assert!(ok.to_capture_region().is_some(), "a 2px sliver is still a valid crop");
}

#[test]
fn default_output_folder_is_portable() {
    let f = defaults().output_folder;
    assert!(!f.contains('\\'), "backslash path is not portable: {f}");
    assert!(!f.contains(':') || !f[1..2].eq(":"), "drive letter in default path: {f}");
    assert!(std::path::Path::new(&f).is_absolute(), "default folder should be absolute: {f}");
    assert_eq!(f, "/home/someone/Videos/BSR");
    let bare = Environment { home: None, ..env() };
    assert_eq!(default_output_folder(&bare), "/tmp/BSR");
}

#[test]
fn an_agent_can_set_the_record_space_by_coordinates() {
    let mut s = defaults();
    s.set_capture_region(Some(CaptureRegion { x1: 300, y1: 150, x2: 1500, y2: 900 }));
    assert_eq!((s.crop_left, s.crop_top, s.crop_right, s.crop_bottom), (300, 150, 420, 180));
    assert_eq!(s.recording_size(), (1200, 750));
}

#[test]
fn record_space_round_trips_through_insets() {
    let original = CaptureRegion { x1: 300, y1: 150, x2: 1500, y2: 900 };
    let mut s = defaults();
    s.set_capture_region(Some(original));
    assert_eq!(s.to_capture_region(), Some(original));
}

#[test]
fn clearing_the_record_space_restores_the_full_screen() {
    let mut s = defaults();
    s.set_capture_region(Some(CaptureRegion { x1: 10, y1: 10, x2: 100, y2: 100 }));
    assert!(s.has_crop_insets());
    s.set_capture_region(None);
    assert!(!s.has_crop_insets(), "None must mean the whole screen");
    assert_eq!(s.recording_size(), (1920, 1080));
}

#[test]
fn agent_coordinates_are_normalised_before_they_are_stored() {
    let mut s = defaults();
    // Corners backwards, overhanging both edges, and an odd width.
    s.set_capture_region(Some(CaptureRegion { x1: 1501, y1: 901, x2: -40, y2: -40 }));
    let (w, h) = s.recording_size();
    assert_eq!(w % 2, 0);
    assert_eq!(h % 2, 0);
    assert!(s.crop_left + w <= 1920, "crop must stay inside the screen");
    assert!(s.crop_top + h <= 1080);
}

#[test]
fn ipc_record_space_reaches_the_ui_once() {
    let mut slot = RecordSpaceSlot::default();
    let region = CaptureRegion { x1: 5, y1: 6, x2: 705, y2: 486 };
    push_record_space_to_ui(&mut slot, Some(region));
    assert_eq!(try_take_record_space(&mut slot), Some(Some(region)));
    assert_eq!(try_take_record_space(&mut slot), None, "must not be delivered twice");

    // It is a setting, not an event: the newest value wins.
    push_record_space_to_ui(&mut slot, Some(region));
    push_record_space_to_ui(&mut slot, None);
    assert_eq!(try_take_record_space(&mut slot), Some(None), "latest wins");
}

#[test]
fn each_corner_moves_only_its_own_two_edges() {
    let base = UiSettings {
        crop_left: 100, crop_top: 100, crop_right: 100, crop_bottom: 100,
        ..defaults()
    };

    let mut s = base.clone();
    assert!(s.set_corner(Corner::TopLeft, 300, 200));
    assert_eq!((s.crop_left, s.crop_top), (300, 200));
    assert_eq!((s.crop_right, s.crop_bottom), (100, 100), "right/bottom must not move");

    let mut s = base.clone();
    assert!(s.set_corner(Corner::TopRight, 1600, 200));
    assert_eq!((s.crop_right, s.crop_top), (1920 - 1600, 200));
    assert_eq!((s.crop_left, s.crop_bottom), (100, 100), "left/bottom must not move");

    let mut s = base.clone();
    assert!(s.set_corner(Corner::BottomLeft, 300, 900));
    assert_eq!((s.crop_left, s.crop_bottom), (300, 1080 - 900));
    assert_eq!((s.crop_right, s.crop_top), (100, 100), "right/top must not move");

    let mut s = base.clone();
    assert!(s.set_corner(Corner::BottomRight, 1600, 900));
    assert_eq!((s.crop_right, s.crop_bottom), (1920 - 1600, 1080 - 900));
    assert_eq!((s.crop_left, s.crop_top), (100, 100), "left/top must not move");
}

#[test]
fn setting_corners_one_at_a_time_builds_the_region() {
    let mut s = defaults();
    assert!(s.set_corner(Corner::TopLeft, 300, 150));
    assert!(s.set_corner(Corner::BottomRight, 1500, 900));
    assert_eq!(s.recording_size(), (1200, 750));
    assert_eq!(
        s.to_capture_region(),
        Some(CaptureRegion { x1: 300, y1: 150, x2: 1500, y2: 900 })
    );
}

#[test]
fn a_corner_that_would_invert_the_region_is_refused_and_changes_nothing() {
    let mut s = defaults();
    assert!(s.set_corner(Corner::TopLeft, 300, 150));
    assert!(s.set_corner(Corner::BottomRight, 1500, 900));
    let before = s.clone();

    assert!(!s.set_corner(Corner::TopLeft, 1600, 950), "must refuse");
    assert_eq!(s, before, "a refused pick must leave the region untouched");

    assert!(!s.set_corner(Corner::TopLeft, 1500, 900));
    assert_eq!(s, before);
}

#[test]
fn corner_picks_at_the_screen_edges_are_accepted() {
    let mut s = defaults();
    assert!(s.set_corner(Corner::TopLeft, 0, 0));
    assert!(s.set_corner(Corner::BottomRight, 1920, 1080));
    assert_eq!(s.recording_size(), (1920, 1080));
    assert!(!s.has_crop_insets(), "corner to corner is the full screen");
}

#[test]
fn a_corner_far_off_the_screen_is_refused() {
    let mut s = defaults();
    s.crop_left = 300;
    s.crop_top = 150;
    s.crop_right = 420;
    s.crop_bottom = 180;
    assert!(!s.set_corner(Corner::TopLeft, u32::MAX, u32::MAX));
    assert!(!s.set_corner(Corner::TopLeft, 1 << 31, 1 << 31));
    assert_eq!((s.crop_left, s.crop_top, s.crop_right, s.crop_bottom), (300, 150, 420, 180));
    assert!(s.set_corner(Corner::BottomRight, u32::MAX, u32::MAX), "it stops at the screen's edge");
    assert_eq!((s.crop_left, s.crop_top, s.crop_right, s.crop_bottom), (300, 150, 0, 0));
}

#[test]
fn insets_beyond_the_screen_record_everything() {
    let mut s = defaults();
    s.crop_left = 4294967295;
    s.crop_right = 1;
    assert!(s.to_capture_region().is_none());
    assert_eq!(s.recording_size(), (1920, 1080));
    assert_eq!(s.to_muxer_config().width, 1920);
}

/// The middle half of the screen, from two points that stand at a quarter and three quarters.
#[test]
fn clicking_two_preview_corners_sets_the_region() {
    let mut settings = defaults();
    assert!(settings.set_corner(Corner::TopLeft, 480, 270));
    assert!(settings.set_corner(Corner::BottomRight, 1440, 810));
    assert_eq!(settings.recording_size(), (960, 540), "the middle half of the screen");
}

#[test]
fn frame_to_preview_scales_and_refuses_a_short_buffer() {
    let good = CaptureFrame {
        data: vec![0u8; 640 * 480 * 4],
        timestamp: 0, width: 640, height: 480,
        format: FrameFormat::Bgra8,
    };
    let height = (good.height as f32 * 320.0 / good.width as f32).round().max(1.0) as u32;
    assert!(scales(640, 480, 320, height));
    let p = frame_to_preview(&good, 320, height).expect("should convert");
    assert_eq!((p.width, p.height), (320, 240), "aspect ratio preserved");
    assert_eq!(p.data.len(), 320 * 240 * 4);

    let mut short = good.clone();
    short.data.truncate(100);
    assert!(frame_to_preview(&short, 320, 240).is_none(), "must refuse a buffer shorter than claimed");
}

#[test]
fn a_preview_of_any_size_that_can_be_sampled() {
    assert!(scales(8_388_607, 1, 8_388_606, 1) && scales(u32::MAX, 1, 480, 1));
    assert!(!scales(8_388_610, 1, 8_390_002, 1), "the filter finds no pixel at the edge");
    assert!(scales(9_000_000, 1, 9_000_000, 1), "nothing is sampled");
    assert!(!scales(1, u32::MAX, 480, u32::MAX));
    let wide = CaptureFrame {
        data: [250, 10, 20, 255].repeat(3_000_000),
        timestamp: 0, width: 3_000_000, height: 1,
        format: FrameFormat::Bgra8,
    };
    let p = frame_to_preview(&wide, 480, 0).unwrap();
    assert_eq!((p.width, p.height), (480, 1));
    assert_eq!(p.data, [20, 10, 250, 255].repeat(480));
    let lying = CaptureFrame { width: u32::MAX, height: u32::MAX, ..wide };
    assert!(frame_to_preview(&lying, 480, u32::MAX).is_none());
}

#[test]
fn a_preview_has_its_channels_in_painting_order() {
    assert_eq!(bgra_to_rgba(&vec![1, 2, 3, 4, 5, 6, 7, 8], 2), [3, 2, 1, 4, 7, 6, 5, 8]);
    let mut blue = CaptureFrame {
        data: Vec::new(), timestamp: 0, width: 4, height: 4, format: FrameFormat::Bgra8,
    };
    for _ in 0..16 {
        blue.data.extend_from_slice(&[250, 10, 20, 255]);
    }
    let p = frame_to_preview(&blue, 2, 2).unwrap();
    assert_eq!(p.data, [20, 10, 250, 255].repeat(4), "an even picture stays even");
    assert!(is_paintable(&p));
    let same_size = frame_to_preview(&blue, 4, 4).unwrap();
    assert_eq!(same_size.data.len(), 64);
    blue.height = 0;
    assert!(frame_to_preview(&blue, 2, 2).is_none());
    assert_eq!(point_text(12, 34), "12, 34");
}

#[test]
fn configured_preset_and_bitrate_reach_the_encoder() {
    for (tier, want) in [
        (EncoderPreset::Fast, "ultrafast"),
        (EncoderPreset::Balanced, "superfast"),
        (EncoderPreset::Quality, "veryfast"),
    ] {
        let mut config = BsrConfig::default_in(&env());
        config.encoder.preset = tier.clone();
        config.encoder.bitrate_kbps = 12_345;
        let app = AppWindow::build(&config, &env(), &None, None, false);

        let enc = encoder_config_for(&app.model.settings, 1920, 1080);
        assert_eq!(enc.preset, want, "config encoder.preset {tier:?} must reach the encoder as {want}");
        assert_eq!(enc.bitrate_kbps, 12_345, "config encoder.bitrate_kbps must reach the encoder");
        assert_eq!((enc.width, enc.height, enc.codec.as_str()), (1920, 1080, "h264"));
    }
}

#[test]
fn test_hover_text_attached_to_controls() {
    let texts = [
        (Control::Record.hover(), "Start a new screen recording session."),
        (Control::Stop.hover(), "Stop the current recording and save the video."),
        (Control::Status.hover(), "Shows whether the recorder is idle or actively recording."),
        (Control::Settings.hover(), "Adjust where recordings are saved and how they are named."),
        (Control::Folder.hover(), "This is the folder where your recordings will be saved."),
        (Control::FolderField.hover(), "Enter or edit the folder where recordings should be stored."),
        (Control::Naming.hover(), "Choose how each recording file will be named."),
        (FileNamingStrategyUi::Simple.hover(), "Always saves as recording.mp4. Best for quick manual use."),
        (FileNamingStrategyUi::TimestampedFile.hover(), "Creates a new file for each recording using the date and time."),
        (FileNamingStrategyUi::TimestampedFolder.hover(), "Creates a dated folder and places the recording inside it."),
        (Control::Diagnostics.hover(), "Messages about recording activity and system behavior."),
        (Control::FileSize.hover(), "Current size of the video file being saved."),
        (Control::Duration.hover(), "How long the current recording has been running."),
    ];
    for (got, want) in texts {
        assert!(!got.is_empty());
        assert_eq!(got, want);
    }
}

#[test]
fn test_hover_text_settings_controls() {
    let settings_hover = Control::Settings.hover();
    let folder_label_hover = Control::Folder.hover();
    let folder_edit_hover = Control::FolderField.hover();
    let naming_hover = Control::Naming.hover();

    assert!(settings_hover.contains("where recordings are saved"));
    assert!(settings_hover.contains("how they are named"));
    assert!(folder_label_hover.contains("folder"));
    assert!(folder_label_hover.contains("recordings will be saved"));
    assert!(folder_edit_hover.contains("Enter or edit"));
    assert!(folder_edit_hover.contains("folder"));
    assert!(naming_hover.contains("how each recording file will be named"));
}

#[test]
fn naming_strategies_are_named() {
    assert_eq!(FileNamingStrategyUi::Simple.label(), "Simple");
    assert_eq!(FileNamingStrategyUi::TimestampedFile.label(), "Timestamped file");
    assert_eq!(
        FileNamingStrategyUi::TimestampedFolder.choice(),
        "Timestamped folder — YYYY-MM-DD/HH-MM-SS.mp4"
    );
}

#[test]
fn a_long_path_is_shown_by_its_ends() {
    let fifty = "/".to_string() + &"a".repeat(49);
    assert_eq!(shortened(&fifty), fifty);
    let long = "/home/someone/recordings/of/a/very/long/name/recording.mp4";
    assert!(is_cuttable(long));
    assert_eq!(shortened(long), format!("{}...{}", &long[..20], &long[long.len() - 25..]));
    assert_eq!(&shortened(long)[..23], "/home/someone/record...");
    assert_eq!(shortened(long).len(), 48);
    assert_eq!(next_file_text("/rec/a.mp4"), "Next file: /rec/a.mp4");
    // The twentieth byte falls inside a character of two bytes.
    let split = "a".repeat(19) + &"é".repeat(20);
    assert!(!is_cuttable(&split));
    assert!(is_cuttable(&("a".repeat(20) + &"é".repeat(10) + &"b".repeat(25))));
}

#[test]
fn durations_are_shown_in_hours() {
    assert_eq!(duration_text(0), "00:00:00");
    assert_eq!(duration_text(3 * 3600 + 25 * 60 + 7), "03:25:07");
    assert_eq!(duration_text(100 * 3600), "100:00:00");
    assert!(!duration_is_long(4 * 3600));
    assert!(duration_is_long(4 * 3600 + 1));
}

#[test]
fn the_last_ten_latencies_are_kept() {
    let mut t = UiTelemetry::default();
    for i in 0..12u32 {
        t.update_smoothed_latency((i as f32).to_bits());
    }
    let kept: Vec<f32> = t.latency_samples.iter().map(|b| f32::from_bits(*b)).collect();
    assert_eq!(kept, [2.0, 3.0, 4.0, 5.0, 6.0, 7.0, 8.0, 9.0, 10.0, 11.0]);
    t.frames_captured = 7;
    t.frames_dropped = 1;
    t.packets_encoded = 5;
    assert_eq!(
        (t.frames_text().as_str(), t.drops_text().as_str(), t.packets_text().as_str()),
        ("Frames: 7", "Drops: 1", "Packets: 5")
    );
}

#[test]
fn a_resolution_that_names_no_size_is_the_default() {
    for (text, size) in [
        ("1280x720", (1280, 720)),
        ("1280 X 720", (1280, 720)),
        ("1280", (1920, 1080)),
        ("big", (1920, 1080)),
        ("", (1920, 1080)),
    ] {
        let s = UiSettings { resolution: text.to_string(), ..defaults() };
        assert_eq!(s.screen_size(), size, "{text}");
    }
    assert_eq!(RecordingStatus::Idle.text(), "Idle");
    assert_eq!(RecordingStatus::Recording.text(), "Recording");
    assert_eq!(RecordingStatus::ShuttingDown.text(), "Shutting down…");
    assert_eq!(defaults().to_muxer_config().max_duration, Span::from_secs(18000));
}

#[test]
fn commands_wait_for_the_recorder() {
    let mut service = UiService::new();
    assert_eq!(service.on_command(UiCommand::StopRecording), None, "nothing is running");
    assert_eq!(service.on_command(UiCommand::StartRecording), Some(IpcCommand::StartRecording));
    assert_eq!(service.state, UiState::Idle, "not before the recorder says so");
    service.on_response(UiCommand::StartRecording, Ok(IpcResponse::Done)).unwrap();
    assert_eq!(service.state, UiState::Recording);
    assert_eq!(service.on_command(UiCommand::StartRecording), None);
    assert_eq!(service.on_command(UiCommand::StopRecording), Some(IpcCommand::StopRecording));
    let refused = Ok(IpcResponse::Error("busy".to_string()));
    service.on_response(UiCommand::StopRecording, refused).unwrap();
    assert_eq!(service.state, UiState::Recording);
    let gone = Err(IpcError { message: "gone".to_string() });
    let e = service.on_response(UiCommand::StopRecording, gone).unwrap_err();
    assert_eq!(e.message(), "IPC error: IPC Error: gone");
    service.on_response(UiCommand::StopRecording, Ok(IpcResponse::Done)).unwrap();
    assert_eq!(service.state, UiState::Idle);
    assert_eq!(service.on_command(UiCommand::Shutdown), Some(IpcCommand::Shutdown));
    assert!(service.is_done());
    assert_eq!(UiError::ChannelSend.message(), "Channel send error");
    assert_eq!(UiError::ChannelReceive.message(), "Channel receive error");
}
