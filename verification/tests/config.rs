use bsr::config::{
    default_output_folder, ensure_config_exists, get_config_path, home_dir, is_foreign_path,
    packaged_config_paths, repair_note, validate_config, BsrConfig, CaptureRegion, ConfigAction, ConfigError,
    ContainerFormat, EncoderPreset, Environment, OutputConfig, AUTO_STOP_TEMP_C_BITS,
    THROTTLE_TEMP_C_BITS,
};

fn r(x1: i32, y1: i32, x2: i32, y2: i32) -> CaptureRegion {
    CaptureRegion { x1, y1, x2, y2 }
}

/// The environment of an ordinary user.
fn env() -> Environment {
    Environment {
        home: Some("/home/someone".to_string()),
        user_profile: None,
        temp: None,
        temp_dir: "/tmp".to_string(),
    }
}

fn bare_env() -> Environment {
    Environment { home: None, ..env() }
}

#[test]
fn plain_region_resolves_unchanged() {
    assert_eq!(r(100, 50, 900, 650).resolve(1920, 1080), Some((100, 50, 800, 600)));
}

#[test]
fn corners_may_be_given_in_any_order() {
    assert_eq!(
        r(900, 650, 100, 50).resolve(1920, 1080),
        r(100, 50, 900, 650).resolve(1920, 1080)
    );
}

#[test]
fn odd_sizes_snap_down_to_even_for_h264() {
    let (x, y, w, h) = r(0, 0, 801, 601).resolve(1920, 1080).unwrap();
    assert_eq!((x, y), (0, 0));
    assert_eq!((w, h), (800, 600));
    assert_eq!(w % 2, 0);
    assert_eq!(h % 2, 0);
}

#[test]
fn region_larger_than_the_screen_is_clamped_not_read_past() {
    assert_eq!(r(-500, -500, 5000, 5000).resolve(1920, 1080), Some((0, 0, 1920, 1080)));
}

#[test]
fn region_entirely_off_screen_is_no_crop_rather_than_a_panic() {
    assert_eq!(r(4000, 4000, 5000, 5000).resolve(1920, 1080), None);
}

#[test]
fn degenerate_and_sub_pixel_regions_are_rejected() {
    assert_eq!(r(10, 10, 10, 10).resolve(1920, 1080), None, "zero area");
    assert_eq!(r(10, 10, 11, 11).resolve(1920, 1080), None, "1x1 snaps to 0x0");
    assert_eq!(r(0, 0, 1920, 1).resolve(1920, 1080), None, "one pixel tall");
}

#[test]
fn a_crop_never_escapes_the_frame() {
    for &(x1, y1, x2, y2) in &[
        (-9, -9, 33, 33), (0, 0, 1921, 1081), (1919, 1079, -5, -5), (7, 3, 1913, 1077),
    ] {
        if let Some((x, y, w, h)) = r(x1, y1, x2, y2).resolve(1920, 1080) {
            assert!(x + w <= 1920, "{x}+{w} overruns width");
            assert!(y + h <= 1080, "{y}+{h} overruns height");
        }
    }
}

#[test]
fn a_resolved_region_resolves_to_itself() {
    let (x, y, w, h) = r(7, 3, 1913, 1077).resolve(1920, 1080).unwrap();
    assert_eq!((x, y, w, h), (7, 3, 1906, 1074));
    let again = r(x as i32, y as i32, (x + w) as i32, (y + h) as i32);
    assert_eq!(again.resolve(1920, 1080), Some((x, y, w, h)));
    assert_eq!(r(0, 0, 10, 10).resolve(1, 1080), None, "a frame without two columns");
}

#[test]
fn a_region_knows_its_size() {
    let region = r(10, 20, 110, 70);
    assert_eq!((region.width(), region.height()), (100, 50));
    assert!(region.is_valid());
    assert!(!r(10, 20, 10, 70).is_valid());
    assert!(!r(110, 20, 10, 70).is_valid());
}

#[test]
fn the_default_output_folder_is_usable_on_this_platform() {
    let folder = OutputConfig::default_in(&env()).output_folder;
    assert!(!folder.is_empty());
    assert!(
        !is_foreign_path(&folder),
        "the default output folder is not usable here: {folder:?}"
    );
    assert!(
        std::path::Path::new(&folder).is_absolute(),
        "must be absolute, got {folder:?}"
    );
    assert!(!folder.contains('\\'), "no backslash separators on unix: {folder:?}");
    assert!(!folder.contains(':'), "no drive letter on unix: {folder:?}");
}

#[test]
fn windows_paths_are_recognised_as_foreign_on_unix() {
    for p in [
        "C:\\Users\\Default\\Videos\\BSR Recordings",
        "D:/Videos",
        "\\\\server\\share\\clips",
        "Videos\\BSR",
    ] {
        assert!(is_foreign_path(p), "{p:?} should be foreign here");
    }
    for p in ["/home/someone/Videos", "/tmp/x", "/var/tmp/BSR Recordings"] {
        assert!(!is_foreign_path(p), "{p:?} is a perfectly good unix path");
    }
    assert!(is_foreign_path(""), "an empty path is unusable everywhere");
    assert!(is_foreign_path("   "), "and so is whitespace");
}

#[test]
fn a_config_with_a_windows_path_is_repaired_on_load() {
    let mut config = BsrConfig::default_in(&env());
    config.output.output_folder = "C:\\Users\\Default\\Videos\\BSR Recordings".to_string();

    let notes = config.repair_for_this_platform(&env());

    assert_eq!(notes.len(), 1, "the repair must be reported, not silent");
    assert!(notes[0].contains("not usable"), "got: {}", notes[0]);
    assert!(
        !is_foreign_path(&config.output.output_folder),
        "still unusable after repair: {:?}",
        config.output.output_folder
    );
    // Quotes and backslashes are escaped in the note.
    assert_eq!(
        notes[0],
        "output folder \"C:\\\\Users\\\\Default\\\\Videos\\\\BSR Recordings\" is not usable on \
         this platform; using \"/home/someone/Videos/BSR Recordings\""
    );
    assert!(config.repair_for_this_platform(&env()).is_empty(), "once is enough");
}

#[test]
fn a_usable_config_is_not_touched() {
    let mut config = BsrConfig::default_in(&env());
    let before = config.output.output_folder.clone();
    assert!(config.repair_for_this_platform(&env()).is_empty(), "nothing to repair");
    assert_eq!(config.output.output_folder, before);
}

#[test]
fn test_default_config() {
    let config = BsrConfig::default_in(&env());
    assert!(config.output.output_folder.contains("BSR"));
    assert_eq!(config.hotkeys.start_recording, "Ctrl+Shift+R");
}

#[test]
fn the_home_directory_decides_where_recordings_go() {
    assert_eq!(home_dir(&env()).as_deref(), Some("/home/someone"));
    assert_eq!(default_output_folder(&env()), "/home/someone/Videos/BSR Recordings");
    assert_eq!(home_dir(&bare_env()), None);
    assert_eq!(default_output_folder(&bare_env()), "/tmp/BSR Recordings");
    let mut profile = bare_env();
    profile.user_profile = Some("/users/me".to_string());
    assert_eq!(default_output_folder(&profile), "/users/me/Videos/BSR Recordings");
}

#[test]
fn temperatures_are_kept_as_bits() {
    assert_eq!(f64::from_bits(THROTTLE_TEMP_C_BITS), 85.0);
    assert_eq!(f64::from_bits(AUTO_STOP_TEMP_C_BITS), 95.0);
    let config = BsrConfig::default_in(&env());
    assert_eq!(f64::from_bits(config.hrt.throttle_temp_c_bits), 85.0);
    assert_eq!(f64::from_bits(config.hrt.auto_stop_temp_c_bits), 95.0);
}

#[test]
fn presets_have_the_names_of_the_encoder() {
    let names: Vec<&str> = [EncoderPreset::Fast, EncoderPreset::Balanced, EncoderPreset::Quality]
        .iter()
        .map(|p| p.x264_name())
        .collect();
    assert_eq!(names, ["ultrafast", "superfast", "veryfast"]);
}

#[test]
fn every_complaint_is_made_in_order() {
    let mut config = BsrConfig::default_in(&env());
    config.output.output_folder = "C:/Videos".to_string();
    config.capture.fps = 30;
    config.encoder.bitrate_kbps = 8000;
    assert!(validate_config(&config).is_empty());

    config.output.output_folder = "/home/someone".to_string();
    config.capture.fps = 9;
    config.encoder.bitrate_kbps = 100_001;
    let texts: Vec<String> = validate_config(&config).iter().map(|e| e.message()).collect();
    assert_eq!(
        texts,
        [
            "Validation error: FPS must be between 10 and 120",
            "Validation error: Bitrate must be between 1000 and 100000 kbps",
            "Validation error: Output folder must be on C:/ or D:/",
        ]
    );
}

#[test]
fn a_repair_names_both_folders() {
    assert_eq!(
        repair_note("\"a\"", "\"b\""),
        "output folder \"a\" is not usable on this platform; using \"b\""
    );
}

#[test]
fn errors_say_what_failed() {
    assert_eq!(ConfigError::Load("x".to_string()).message(), "Failed to load config: x");
    assert_eq!(ConfigError::Save("y".to_string()).message(), "Failed to save config: y");
}

#[test]
fn the_config_file_is_found_beside_the_executable() {
    let (dir, file) = packaged_config_paths("/opt/bsr");
    assert_eq!((dir.as_str(), file.as_str()), ("/opt/bsr/config", "/opt/bsr/config/bsr-config.toml"));
    let exe = || Some("/opt/bsr".to_string());
    assert_eq!(get_config_path(exe(), true, true).unwrap(), "/opt/bsr/config/bsr-config.toml");
    assert_eq!(get_config_path(exe(), false, true).unwrap(), "/opt/bsr/config/bsr-config.toml");
    assert_eq!(get_config_path(exe(), false, false).unwrap(), "bsr-config.toml");
    assert_eq!(get_config_path(None, true, true).unwrap(), "bsr-config.toml");
}

#[test]
fn a_missing_config_file_is_created_with_its_directory() {
    assert!(matches!(ensure_config_exists("/a/b.toml", true), ConfigAction::Keep));
    match ensure_config_exists("/a/b.toml", false) {
        ConfigAction::Create { directory } => assert_eq!(directory.as_deref(), Some("/a")),
        other => panic!("{other:?}"),
    }
    match ensure_config_exists("b.toml", false) {
        ConfigAction::Create { directory } => assert_eq!(directory.as_deref(), Some("")),
        other => panic!("{other:?}"),
    }
}

#[test]
fn recordings_are_mp4_files_of_five_hours_at_most() {
    let output = OutputConfig::default_in(&env());
    assert_eq!(output.container, ContainerFormat::Mp4);
    assert!(!output.auto_remux_to_mp4);
    assert_eq!(output.file_name_pattern, "BSR_{date}_{time}");
    assert_eq!(output.max_duration_hours, 5);
}
