use bsr::app_state::{already_running_text, AppMode, AppState, RecordingState, DEFAULT_PORT};
use bsr::config::{BsrConfig, Environment};

fn config() -> BsrConfig {
    BsrConfig::default_in(&Environment {
        home: Some("/home/someone".to_string()),
        user_profile: None,
        temp: None,
        temp_dir: "/tmp".to_string(),
    })
}

#[test]
fn test_app_state_init() {
    let app_state = AppState::new(config(), 0);
    assert_eq!(app_state.app_mode_rx(), AppMode::Visible);
    assert_eq!(app_state.recording_state_rx(), RecordingState::Idle);
}

#[test]
fn test_set_app_mode() {
    let mut app_state = AppState::new(config(), 0);
    app_state.set_app_mode(AppMode::Stealth);
    assert_eq!(app_state.app_mode_rx(), AppMode::Stealth);
}

#[test]
fn test_set_recording_state() {
    let mut app_state = AppState::new(config(), 0);
    app_state.set_recording_state(RecordingState::Recording);
    assert_eq!(app_state.recording_state_rx(), RecordingState::Recording);
    assert!(app_state.recording_active());
    app_state.set_recording_state(RecordingState::Paused);
    assert!(!app_state.recording_active());
}

#[test]
fn counters_and_uptime_advance() {
    let mut app_state = AppState::new(config(), 1_000_000);
    assert_eq!(app_state.uptime_ms(6_500_000), 5);
    assert_eq!(app_state.uptime_ms(0), 0);
    app_state.increment_frames_captured();
    app_state.increment_frames_captured();
    app_state.increment_frames_dropped();
    assert_eq!((app_state.frames_captured(), app_state.frames_dropped()), (2, 1));
    assert!(!app_state.encoding_available());
    app_state.set_encoding_available(true);
    assert!(app_state.encoding_available());
}

#[test]
fn a_new_configuration_replaces_the_old_one() {
    let mut app_state = AppState::new(config(), 0);
    let mut other = config();
    other.capture.fps = 24;
    app_state.set_config(other);
    assert_eq!(app_state.config().capture.fps, 24);
}

#[test]
fn a_second_instance_is_told_about_the_first() {
    assert_eq!(DEFAULT_PORT, 51839);
    assert_eq!(
        already_running_text(DEFAULT_PORT, "address in use"),
        "another instance is already running (loopback port 51839): address in use"
    );
}
