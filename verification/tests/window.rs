//! The recorder window, driven frame by frame.
use bsr::file_path::FilePath;
use bsr::config::{BsrConfig, CaptureRegion, Environment};
use bsr::controls::Control;
use bsr::events::{
    live_view_stopped, live_view_unavailable, tray_menu, LimitAction, Trigger, ViewportAction,
    RESTART_NANOS, ROLLOVER_NANOS,
};
use bsr::ipc::{push_record_space_to_ui, RecordSpaceSlot, TelemetryEvent};
use bsr::mux::MuxerTelemetry;
use bsr::preview::PreviewImage;
use bsr::record_space::{LiveViewAction, RecordSpaceClick};
use bsr::save_dialog::{
    save_target, Blocked, PickPoll, SaveClick, SaveFacts, SaveFrame, SaveRequest,
};
use bsr::ui_model::RecordingStatus;
use bsr::ui_settings::Corner;
use bsr::window::{finalize_outcome, fragment_seq_path, AppWindow, FinalizePoll, MuxerEnd, StopAction};

const FINE: SaveFacts = SaveFacts { same: false, folder_missing: false };

fn env() -> Environment {
    Environment {
        home: Some("/home/someone".to_string()),
        user_profile: None,
        temp: None,
        temp_dir: "/tmp".to_string(),
    }
}

struct Harness {
    app: AppWindow,
    commands: Vec<ViewportAction>,
    /// What the save dialog showed in the last frame.
    modal: Option<SaveFrame>,
    now: u64,
}

impl Harness {
    fn new() -> Self {
        let config = BsrConfig::default_in(&env());
        let mut app = AppWindow::build(&config, &env(), &None, Some(9), false);
        app.model.settings.output_folder = "/rec".to_string();
        Harness { app, commands: Vec::new(), modal: None, now: 1_000_000_000 }
    }

    fn open_modal() -> Self {
        let mut h = Harness::new();
        h.app.pending_local_save = Some("take.mp4".to_string());
        h.frames(3);
        h
    }

    /// One frame, with a click in the save dialog.
    fn frame_with(&mut self, click: SaveClick, facts: SaveFacts) {
        self.now += 16_000_000;
        self.commands = self.app.tick_begin(false);
        let folder = self.app.save_dest_folder.clone();
        let name = self.app.pending_local_save.clone().unwrap_or_default();
        self.modal = self.app.render_local_save_modal(folder, name, click, facts, &env(), self.now);
    }

    fn frame(&mut self) {
        self.frame_with(SaveClick::Nothing, FINE);
    }

    fn frames(&mut self, n: usize) {
        for _ in 0..n {
            self.frame();
        }
    }

    fn answer_pick(&mut self, answer: Result<Option<FilePath>, String>) {
        self.app.poll_save_pick(PickPoll::Answered(answer), self.now);
        self.frames(3);
    }

    fn modal_shows(&self, needle: &str) -> bool {
        let m = self.modal.as_ref().expect("the save dialog is not open");
        m.note.contains(needle)
            || m.status.as_deref().unwrap_or("").contains(needle)
            || m.blocked.map(|b| b.text()).unwrap_or_default().contains(needle)
    }

    fn minimised(&self) -> Option<bool> {
        self.commands.iter().find_map(|c| match c {
            ViewportAction::Minimized(v) => Some(*v),
            _ => None,
        })
    }

    fn raised(&self) -> bool {
        self.commands.iter().any(|c| matches!(c, ViewportAction::Focus))
    }

    fn last_line(&self) -> &str {
        self.app.model.diagnostics.lines.last().map(|l| l.as_str()).unwrap_or("")
    }

    fn record(&mut self) {
        assert!(self.app.on_record_pressed().is_some());
        self.app.on_encoder_ready_at(Ok(()), self.now, "2026-01-02", "03-04-05").unwrap();
    }
}

#[test]
fn the_app_renders_its_main_controls() {
    let mut h = Harness::new();
    h.frame();
    for (control, text) in [
        (Control::RecordSpace, "Record space"),
        (Control::Telemetry, "Telemetry"),
        (Control::Diagnostics, "Diagnostics"),
        (Control::SetCorner(Corner::TopLeft), "Set top-left"),
    ] {
        assert!(h.app.shows(control));
        assert_eq!(control.label(), text, "the corner controls must be on screen");
    }
}

#[test]
fn the_save_modal_appears_with_a_folder_a_name_and_a_browse_button() {
    let mut h = Harness::new();
    h.frame();
    assert!(!h.app.shows(Control::SaveHeading), "no modal until a recording is finished");
    assert!(h.modal.is_none());

    h.app.pending_local_save = Some("take.mp4".to_string());
    h.frames(3);
    assert!(h.modal.is_some());
    for (control, text) in [
        (Control::SaveHeading, "Save a copy"),
        (Control::SaveFolder, "Folder:"),
        (Control::SaveName, "Filename:"),
        (Control::Browse, "Browse"),
    ] {
        assert!(h.app.shows(control) && control.label().contains(text), "{text}");
    }
}

#[test]
fn clearing_the_folder_does_not_snap_back_to_the_default() {
    let mut h = Harness::open_modal();
    h.app.save_dest_folder.clear();
    h.frames(5);
    assert_eq!(
        h.app.save_dest_folder, "",
        "the folder box refilled itself; it cannot be cleared to paste a path into"
    );
}

#[test]
fn an_edited_folder_survives_across_frames() {
    let mut h = Harness::open_modal();
    h.app.save_dest_folder = "/var/tmp".to_string();
    h.frames(5);
    assert_eq!(h.app.save_dest_folder, "/var/tmp", "an edited folder must persist");
}

#[test]
fn clicking_browse_reaches_the_handler() {
    let mut h = Harness::open_modal();
    assert!(h.app.save_status.is_none(), "nothing attempted yet");
    h.app.save_dest_folder = "/var/tmp".to_string();
    h.frame_with(SaveClick::Browse, FINE);
    assert!(
        h.app.save_status.is_some(),
        "clicking Browse did not reach browse_for_save_location — the button is not wired"
    );
    match h.modal.as_ref().map(|m| &m.request) {
        Some(SaveRequest::Pick(p)) => {
            assert_eq!((p.suggested_name.as_str(), p.start_dir.as_str()), ("take.mp4", "/var/tmp"))
        }
        other => panic!("{other:?}"),
    }
    h.frame();
    assert!(h.modal_shows("A save dialog has opened"), "and it must say so in the modal");
}

#[test]
fn save_status_is_shown_inside_the_modal() {
    let mut h = Harness::new();
    h.app.pending_local_save = Some("take.mp4".to_string());
    h.app.save_status = Some("Save dialog failed: no portal".to_string());
    h.frames(3);
    assert!(
        h.modal_shows("Save dialog failed"),
        "the status must be painted in the modal, not only in Diagnostics"
    );
}

#[test]
fn cancel_closes_the_modal() {
    let mut h = Harness::open_modal();
    h.frame_with(SaveClick::Cancel, FINE);
    assert!(h.app.pending_local_save.is_none(), "Cancel must dismiss the modal");
    h.frame();
    assert!(h.modal.is_none() && !h.app.shows(Control::SaveHeading), "and it must stop being painted");
    assert_eq!(h.last_line(), "Save cancelled — the recording is still in the output folder.");
}

#[test]
fn arming_a_corner_is_reflected_in_the_ui() {
    let mut h = Harness::new();
    h.frame();
    assert!(h.app.pending_pick.is_none());
    assert!(!h.app.record_space_view().can_cancel_pick);

    assert_eq!(h.app.on_record_space(RecordSpaceClick::Pick(Corner::TopLeft)), LiveViewAction::Start);
    assert_eq!(h.app.pending_pick, Some(Corner::TopLeft), "the button must arm the pick");
    assert!(h.app.live_view && h.app.has_preview);
    assert!(h.app.record_space_view().can_cancel_pick, "and the way out must be visible");
    assert!(h.app.shows(Control::CancelPick) && Control::CancelPick.label() == "Cancel pick");
    assert_eq!(h.last_line(), "Click the preview to place the top-left corner.");

    h.app.on_record_space(RecordSpaceClick::CancelPick);
    assert!(h.app.pending_pick.is_none(), "Cancel pick must disarm");
    assert!(h.app.live_view && h.app.has_preview, "the live view goes on");
    assert_eq!(h.last_line(), "Corner pick cancelled (cancelled).");
}

#[test]
fn the_record_space_readout_follows_the_crop() {
    let mut h = Harness::new();
    h.frame();
    let view = h.app.record_space_view();
    assert_eq!(view.readout, "Recording the full screen (1920x1080)", "default is the whole screen");

    h.app.model.settings.crop_left = 200;
    h.app.model.settings.crop_right = 200;
    h.frame();
    let view = h.app.record_space_view();
    assert!(view.readout.contains("1520x1080"), "{}", view.readout);
    assert_eq!(view.readout, "Recording 1520x1080 of 1920x1080");

    h.app.model.settings.crop_right = 1720;
    let view = h.app.record_space_view();
    assert!(view.unusable);
    assert_eq!(
        view.readout,
        "⚠ Those edges leave nothing to record — recording the full screen"
    );
    h.app.on_record_space(RecordSpaceClick::Reset);
    assert!(!h.app.model.settings.has_crop_insets());
}

#[test]
fn a_chosen_location_updates_the_folder_and_the_filename() {
    let mut h = Harness::open_modal();
    h.frame_with(SaveClick::Browse, FINE);
    h.answer_pick(Ok(Some(FilePath::from_text("/var/tmp/clips/final take.mp4"))));

    assert_eq!(h.app.save_dest_folder, "/var/tmp/clips", "the folder must follow the choice");
    assert_eq!(h.app.pending_local_save.as_deref(), Some("final take.mp4"), "and so must the name");
    assert!(h.app.save_status.is_none(), "a successful pick leaves no warning behind");
    assert!(h.modal_shows("final take.mp4"), "the modal must show the chosen name");
}

#[test]
fn a_chosen_name_that_is_no_text_is_not_taken() {
    let mut h = Harness::open_modal();
    let name = h.app.pending_local_save.clone();
    h.frame_with(SaveClick::Browse, FINE);
    h.answer_pick(Ok(Some(FilePath { bytes: b"/a/\xff".to_vec() })));
    assert_eq!(h.app.save_dest_folder, "/a");
    assert_eq!(h.app.pending_local_save, name);
    assert_eq!(h.last_line(), "Save location set to /a/\u{fffd}");

    h.frame_with(SaveClick::Browse, FINE);
    h.answer_pick(Ok(Some(FilePath { bytes: b"/\xff/take.mp4".to_vec() })));
    assert_eq!(h.app.save_dest_folder, "/\u{fffd}");
    assert_eq!(h.app.pending_local_save.as_deref(), Some("take.mp4"));
}

#[test]
fn a_cancelled_dialog_changes_nothing_and_says_so() {
    let mut h = Harness::open_modal();
    let folder_before = h.app.save_dest_folder.clone();
    h.frame_with(SaveClick::Browse, FINE);
    h.answer_pick(Ok(None));

    assert_eq!(h.app.save_dest_folder, folder_before, "cancel must not move the folder");
    assert!(h.modal_shows("cancelled"), "and the modal must say it was cancelled");
}

#[test]
fn a_failed_dialog_is_reported_in_the_modal() {
    let mut h = Harness::open_modal();
    h.frame_with(SaveClick::Browse, FINE);
    h.answer_pick(Err("could not open the save dialog: no portal".to_string()));
    assert!(h.modal_shows("no portal"), "the reason must be visible where the operator is looking");
    assert!(!h.app.picking);
}

#[test]
fn a_dialog_that_never_answers_eventually_explains_itself() {
    let mut h = Harness::open_modal();
    h.frame_with(SaveClick::Browse, FINE);
    h.app.poll_save_pick(PickPoll::Waiting, h.now);
    h.frames(3);
    assert!(h.modal_shows("A save dialog has opened"), "it should say a dialog is up");

    // Bring the deadline forward rather than waiting for it.
    h.app.pick_deadline = Some(h.now);
    h.app.poll_save_pick(PickPoll::Waiting, h.now);
    h.frames(3);
    assert!(h.modal_shows("Gave up waiting"), "a silent dialog must time out and say so");
    assert!(!h.app.picking, "and the in-flight pick must be cleared");
}

#[test]
fn a_lost_dialog_is_an_error() {
    let mut h = Harness::open_modal();
    h.frame_with(SaveClick::Browse, FINE);
    h.app.poll_save_pick(PickPoll::Gone, h.now);
    assert_eq!(
        h.app.save_status.as_deref(),
        Some("Save dialog failed: the save dialog task ended without answering")
    );
}

#[test]
fn typing_a_folder_changes_the_destination() {
    let mut h = Harness::new();
    h.app.pending_local_save = Some("take.mp4".to_string());
    h.app.save_dest_folder = "/home/somebody/Videos".to_string();
    h.frames(3);
    assert!(h.modal_shows("/home/somebody/Videos"), "the starting folder should be on screen");

    let modal = h.app.render_local_save_modal(
        "/var/tmp".to_string(), "take.mp4".to_string(), SaveClick::Nothing, FINE, &env(), h.now,
    );
    assert_eq!(modal.unwrap().folder, "/var/tmp");
    h.frames(3);
    assert_eq!(h.app.save_dest_folder, "/var/tmp", "typing must reach the setting");
    assert!(
        h.modal_shows("/var/tmp/take.mp4"),
        "the destination preview must follow what was typed"
    );
}

#[test]
fn pressing_save_asks_for_the_copy_that_was_typed() {
    let mut h = Harness::new();
    h.app.current_recording_path = Some("/rec/BSR/recording-2026-09-06.mp4".to_string());
    h.app.pending_local_save = Some("recording-2026-09-06.mp4".to_string());
    h.app.save_dest_folder = "/home/me/nlp".to_string();
    h.frame_with(SaveClick::Save, FINE);
    match &h.modal.as_ref().unwrap().request {
        SaveRequest::Copy { src, dst } => {
            assert_eq!(src, "/rec/BSR/recording-2026-09-06.mp4");
            assert_eq!(dst, &FilePath::from_text("/home/me/nlp/recording-2026-09-06.mp4"));
        }
        other => panic!("{other:?}"),
    }
    assert!(h.app.pending_local_save.is_none(), "the modal should close after saving");
    h.app.on_copied("a.mp4", "/rec/a.mp4", &FilePath::from_text("/c/a.mp4"), &Ok("1.5".to_string()));
    assert_eq!(h.last_line(), "Saved a.mp4 (1.5 MB) to /c/a.mp4");
    h.app.on_copied("a.mp4", "/rec/a.mp4", &FilePath::from_text("/c/a.mp4"), &Err("disk full".to_string()));
    assert_eq!(h.last_line(), "Save failed: disk full — the original is still at /rec/a.mp4");
}

#[test]
fn saving_onto_the_recording_itself_is_still_refused() {
    let mut h = Harness::new();
    h.app.current_recording_path = Some("/rec/take.mp4".to_string());
    h.app.pending_local_save = Some("take.mp4".to_string());
    h.app.save_dest_folder = "/rec".to_string();
    let same = SaveFacts { same: true, folder_missing: false };
    h.frame_with(SaveClick::Nothing, same);
    assert!(h.modal_shows("That is the recording itself"), "it must warn");
    h.frame_with(SaveClick::Save, same);
    assert!(matches!(h.modal.as_ref().unwrap().request, SaveRequest::Nothing));
    assert!(h.app.pending_local_save.is_some());
}

#[test]
fn a_disabled_save_always_says_why() {
    let mut h = Harness::new();
    h.app.pending_local_save = Some("take.mp4".to_string());
    h.app.current_recording_path = None;
    h.frames(3);
    assert!(h.modal_shows("no recording to copy"));

    h.app.current_recording_path = Some("/rec/take.mp4".to_string());
    h.frame_with(SaveClick::Nothing, SaveFacts { same: false, folder_missing: true });
    assert!(h.modal_shows("that folder does not exist"));
    h.frame_with(SaveClick::Nothing, SaveFacts { same: true, folder_missing: false });
    assert!(h.modal_shows("that is the recording itself"));

    h.app.pending_local_save = Some("   ".to_string());
    h.frames(3);
    assert!(h.modal_shows("enter a filename"));
    assert_eq!(Blocked::NoName.text(), "Can't save: enter a filename");
}

#[test]
fn a_valid_destination_shows_no_reason() {
    let mut h = Harness::new();
    h.app.current_recording_path = Some("/rec/take.mp4".to_string());
    h.app.pending_local_save = Some("take.mp4".to_string());
    h.app.save_dest_folder = "/rec/out".to_string();
    h.frames(3);
    assert!(!h.modal_shows("Can't save"));
    assert!(h.modal_shows("→ /rec/out/take.mp4"));
}

#[test]
fn a_missing_folder_can_be_created() {
    let mut h = Harness::new();
    h.app.pending_local_save = Some("take.mp4".to_string());
    h.app.save_dest_folder = "~/clips".to_string();
    h.frame_with(SaveClick::CreateFolder, SaveFacts { same: false, folder_missing: true });
    match &h.modal.as_ref().unwrap().request {
        SaveRequest::Create(dir) => assert_eq!(dir, &FilePath::from_text("/home/someone/clips")),
        other => panic!("{other:?}"),
    }
    h.app.on_folder_created(&FilePath::from_text("/home/someone/clips"), &Ok(()));
    assert_eq!(h.last_line(), "Created /home/someone/clips");
    h.app.on_folder_created(&FilePath::from_text("/x"), &Err("denied".to_string()));
    assert_eq!(h.last_line(), "Could not create /x: denied");
    h.frame_with(SaveClick::DefaultFolder, FINE);
    assert_eq!(h.app.save_dest_folder, "/home/someone/Videos");
    assert_eq!(save_target("", "a.mp4", &env()).dst, FilePath::from_text("./a.mp4"));
}

#[test]
fn recording_minimises_the_window_and_finishing_restores_it() {
    let mut h = Harness::new();
    h.frame();
    assert_eq!(h.minimised(), None, "nothing asked for at rest");

    h.app.model.settings.minimize_while_recording = true;
    h.record();
    h.frame();
    assert_eq!(h.minimised(), Some(true), "recording must minimise the window");

    h.app.on_stop_pressed();
    h.app.poll_finalize(FinalizePoll::Finished(Ok(())), false, &env());
    h.frame();
    assert_eq!(h.minimised(), Some(false), "finishing must restore it");
    assert!(h.raised(), "and raise it, or it comes back behind everything");
}

#[test]
fn the_window_raises_itself_on_launch() {
    let mut h = Harness::new();
    h.frame();
    assert!(h.raised(), "the first frame must ask to be raised");
    h.frame();
    assert!(!h.raised(), "but only once — repeating it would steal focus from the operator's work");
}

#[test]
fn the_window_request_is_not_repeated() {
    let mut h = Harness::new();
    h.app.pending_window_cmd = Some(true);
    h.frame();
    assert_eq!(h.minimised(), Some(true));
    h.frame();
    assert_eq!(h.minimised(), None, "the request must not repeat");
}

#[test]
fn restoring_the_window_unminimises_and_raises_it() {
    let mut h = Harness::new();
    h.frame();
    h.app.on_menu_event("Open");
    h.frame();
    assert_eq!(h.minimised(), Some(false), "must un-minimise");
    assert!(h.raised(), "and raise, or it comes back behind whatever is maximised");
}

#[test]
fn hiding_while_recording_can_be_turned_off() {
    let mut h = Harness::new();
    h.frame();
    assert!(h.app.shows(Control::HideWhileRecording), "the toggle must be reachable");
    assert_eq!(Control::HideWhileRecording.label(), "Hide while recording");
    assert!(
        h.app.model.settings.minimize_while_recording,
        "on by default, since being in your own recording is never wanted"
    );
    assert!(h.app.record_space_view().hide_while_recording);
    h.app.on_record_space(RecordSpaceClick::HideWhileRecording(false));
    h.record();
    h.frame();
    assert_eq!(h.minimised(), None);
}

#[test]
fn test_ui_resets_muxer_telemetry_on_start() {
    let mut h = Harness::new();
    let t = &mut h.app.model.telemetry;
    t.file_size_bytes = 1000;
    t.recording_duration_secs = 60;
    t.latency_samples = vec![10.0f32.to_bits(), 20.0f32.to_bits()];
    h.record();
    let t = &h.app.model.telemetry;
    assert_eq!(t.file_size_bytes, 0);
    assert_eq!(t.recording_duration_secs, 0);
    assert!(t.latency_samples.is_empty());
    assert_eq!(h.app.model.diagnostics.lines, ["Recording started."]);
}

#[test]
fn a_recording_is_planned_for_the_cropped_size() {
    let mut h = Harness::new();
    h.app.model.settings.set_capture_region(Some(CaptureRegion { x1: 300, y1: 150, x2: 1500, y2: 900 }));
    h.app.on_record_space(RecordSpaceClick::LiveView(true));
    h.app.on_record_space(RecordSpaceClick::Pick(Corner::TopLeft));
    let plan = h.app.on_record_pressed().unwrap();
    assert!(plan.stop_live_view && !h.app.live_view && h.app.pending_pick.is_none());
    assert_eq!((plan.capture.width, plan.capture.height), (1200, 750));
    assert_eq!((plan.encoder.width, plan.encoder.height), (1200, 750));
    assert_eq!(h.last_line(), "Recording cropped region 1200x750 (from 300,150 to 1500,900).");

    let start = h.app.on_encoder_ready_at(Ok(()), 7, "2026-01-02", "03-04-05").unwrap();
    assert_eq!((start.muxer.width, start.muxer.height), (1200, 750));
    assert_eq!(start.output_path, "/rec/recording-2026-01-02_03-04-05-1.mp4");
    assert_eq!(start.seq_path, "/rec/.bsr_fragment_seq");
    assert_eq!(start.seq_dir.as_deref(), Some("/rec"));
    assert_eq!(start.seq_tmp_path, "/rec/.bsr_fragment_seq.tmp");
    assert_eq!(start.seq_text, "2");
    assert_eq!(h.app.model.status, RecordingStatus::Recording);
    assert!(h.app.on_record_pressed().is_none(), "one at a time");
    assert!(!h.app.record_enabled() && h.app.stop_enabled());
}

#[test]
fn an_encoder_that_does_not_open_starts_nothing() {
    let mut h = Harness::new();
    h.app.on_record_pressed();
    assert!(h.app.on_encoder_ready(Err("no codec".to_string()), 0).is_none());
    assert_eq!(h.last_line(), "Encoder init failed: no codec");
    assert_eq!(h.app.model.status, RecordingStatus::Idle);
}

#[test]
fn the_numbering_goes_on_after_a_restart() {
    let config = BsrConfig::default_in(&env());
    let build = |text: &str| {
        AppWindow::build(&config, &env(), &Some(text.to_string()), None, false).recording_seq
    };
    assert_eq!(build("17\n"), 17);
    assert_eq!(build("seventeen"), 1);
    let mut app = AppWindow::build(&config, &env(), &Some("17".to_string()), None, false);
    app.on_record_pressed();
    let start = app.on_encoder_ready(Ok(()), 0).unwrap();
    assert!(start.output_path.ends_with("-17.mp4"), "{}", start.output_path);
    assert_eq!(build(&start.seq_text), 18);
    assert_eq!(fragment_seq_path("/rec"), "/rec/.bsr_fragment_seq");
}

#[test]
fn stopping_waits_for_the_file() {
    let mut h = Harness::new();
    assert_eq!(h.app.on_stop_pressed(), None, "nothing is running");
    h.record();
    assert_eq!(h.app.on_stop_pressed(), Some(StopAction { stop_pipeline: true }));
    assert_eq!(h.app.model.status, RecordingStatus::ShuttingDown);
    assert!(h.app.on_record_pressed().is_none(), "not before the file is finalised");
    h.app.poll_finalize(FinalizePoll::Pending, false, &env());
    assert_eq!(h.app.model.status, RecordingStatus::ShuttingDown);
    assert!(h.app.pending_local_save.is_none());

    h.app.poll_finalize(FinalizePoll::Finished(Ok(())), false, &env());
    assert_eq!(h.app.model.status, RecordingStatus::Idle);
    assert_eq!(h.app.pending_local_save.as_deref(), Some("recording-2026-01-02_03-04-05-1.mp4"));
    assert_eq!(h.app.save_dest_folder, "/home/someone/Videos");
    assert_eq!(h.last_line(), "Recording finalised and ready to save.");
}

#[test]
fn a_bad_end_is_reported() {
    for (poll, empty, line) in [
        (FinalizePoll::Gone, false,
         "Finalising failed (the finalising task disappeared) — the file may be incomplete or unplayable."),
        (FinalizePoll::Finished(Err("io".to_string())), false,
         "Finalising failed (io) — the file may be incomplete or unplayable."),
        (FinalizePoll::Finished(Ok(())), true,
         "Finalising produced an EMPTY recording — no video data reached the muxer. The file is not usable."),
    ] {
        let mut h = Harness::new();
        h.app.has_ipc_client = true;
        h.record();
        h.app.on_stop_pressed();
        let offered = h.app.poll_finalize(poll, empty, &env());
        assert_eq!(offered.as_deref(), Some("/rec/recording-2026-01-02_03-04-05-1.mp4"));
        assert_eq!(h.last_line(), line);
        assert_eq!(h.app.model.status, RecordingStatus::Idle);
    }
    assert!(finalize_outcome(&MuxerEnd::Finished).is_ok());
    let e = |end| finalize_outcome(&end).unwrap_err();
    assert_eq!(e(MuxerEnd::Failed("x".into())), "x");
    assert_eq!(e(MuxerEnd::Panicked("x".into())), "muxer task panicked: x");
    assert_eq!(e(MuxerEnd::TimedOut), "timed out waiting for the MP4 trailer");
    assert_eq!(e(MuxerEnd::NoTask), "no muxer task to wait for");
}

#[test]
fn the_tray_and_the_hotkey_drive_the_recorder() {
    let entries: Vec<(&str, bool)> = tray_menu();
    assert_eq!(
        entries,
        [("Open", true), ("Start Recording", true), ("Stop Recording", false), ("Exit", true)]
    );
    let mut h = Harness::new();
    assert!(matches!(h.app.on_menu_event("Start Recording"), Trigger::Record(_)));
    assert!(matches!(h.app.on_menu_event("Stop Recording"), Trigger::Nothing));
    assert_eq!(h.app.pending_window_cmd, Some(false));
    assert!(matches!(h.app.on_menu_event("Exit"), Trigger::Exit(None)));
    assert!(matches!(h.app.on_menu_event("open"), Trigger::Nothing));

    assert!(matches!(h.app.on_hotkey(8, true), Trigger::Nothing), "another key");
    assert!(matches!(h.app.on_hotkey(9, false), Trigger::Nothing), "released");
    assert!(matches!(h.app.on_hotkey(9, true), Trigger::Record(_)));
    h.record();
    assert!(matches!(h.app.on_hotkey(9, true), Trigger::Stop(_)));
    h.app.model.status = RecordingStatus::Recording;
    assert!(matches!(h.app.on_menu_event("Exit"), Trigger::Exit(Some(_))));
}

#[test]
fn reports_reach_the_diagnostics() {
    let mut h = Harness::new();
    h.app.on_telemetry(&TelemetryEvent::RecordingStarted);
    assert_eq!(h.last_line(), "Telemetry: recording started");
    h.app.on_telemetry(&TelemetryEvent::ErrorOccurred { message: "hot".to_string() });
    assert_eq!(h.last_line(), "Error: hot");
    h.app.on_telemetry(&TelemetryEvent::AppStarted);
    assert_eq!(h.last_line(), "Error: hot");
    h.record();
    h.app.on_telemetry(&TelemetryEvent::RecordingStopped);
    assert_eq!(h.last_line(), "Telemetry: recording stopped");
    assert_eq!(h.app.model.status, RecordingStatus::Idle);
}

#[test]
fn the_muxer_reports_sizes_and_the_limit() {
    let mut h = Harness::new();
    h.record();
    let mut mt = MuxerTelemetry {
        file_size_bytes: 2048,
        duration_secs: 3,
        last_write_latency_ms: 4,
        max_duration_reached: false,
    };
    h.app.on_muxer_telemetry(&mt, 4.0f32.to_bits(), "4.0");
    assert_eq!(h.last_line(), "Muxer: size=2048 bytes, duration=3 s, write=4.0 ms");
    assert_eq!(h.app.model.telemetry.file_size_bytes, 2048);
    assert_eq!(h.app.model.status, RecordingStatus::Recording);
    mt.max_duration_reached = true;
    h.app.on_muxer_telemetry(&mt, 0, "0.0");
    assert_eq!(h.last_line(), "Recording stopped automatically: 5‑hour limit reached.");
    assert_eq!(h.app.model.status, RecordingStatus::Idle);
    assert_eq!(h.app.model.telemetry.latency_samples.len(), 2);
}

#[test]
fn an_hour_rolls_over_into_a_new_file() {
    let mut h = Harness::new();
    let t0 = h.now;
    h.record();
    assert!(matches!(h.app.enforce_limits(t0 + ROLLOVER_NANOS - 1), LimitAction::Nothing));
    let t1 = t0 + ROLLOVER_NANOS;
    assert!(matches!(h.app.enforce_limits(t1), LimitAction::Stop(StopAction { stop_pipeline: true })));
    assert!(matches!(h.app.enforce_limits(t1 + RESTART_NANOS), LimitAction::Nothing), "not finalised");
    h.app.poll_finalize(FinalizePoll::Finished(Ok(())), false, &env());
    assert!(matches!(h.app.enforce_limits(t1 + RESTART_NANOS - 1), LimitAction::Nothing));
    assert!(matches!(h.app.enforce_limits(t1 + RESTART_NANOS), LimitAction::Restart(_)));
    assert_eq!(h.last_line(), "Auto-restarting recording after rollover.");
    assert!(matches!(h.app.enforce_limits(t1 + 2 * RESTART_NANOS), LimitAction::Nothing), "once");
}

#[test]
fn one_request_for_consent_is_shown_at_a_time() {
    let mut h = Harness::new();
    assert!(!h.app.answer_consent());
    assert!(h.app.on_consent_request(Some("agent".to_string())));
    assert_eq!(h.app.requester_text().as_deref(), Some("Requester: agent"));
    assert!(!h.app.on_consent_request(None), "a second one is declined");
    assert!(h.app.answer_consent());
    assert!(h.app.on_consent_request(None));
    assert_eq!(h.app.requester_text(), None);
}

#[test]
fn an_offered_recording_is_saved_in_the_output_folder() {
    let mut h = Harness::new();
    assert!(h.app.on_save_offer("/far/take.mp4".to_string()));
    assert!(!h.app.on_save_offer("/far/other.mp4".to_string()), "one at a time");
    let name = AppWindow::offered_file_name("/far/take.mp4");
    assert_eq!(name, "take.mp4");
    assert_eq!(AppWindow::offered_file_name("/"), "recording.mp4");
    assert_eq!(h.app.answer_save_offer(&Some(name)), Some(Some("/rec/take.mp4".to_string())));
    assert_eq!(h.app.answer_save_offer(&None), None);
    h.app.on_save_offer("/far/take.mp4".to_string());
    assert_eq!(h.app.answer_save_offer(&None), Some(None));
}

#[test]
fn a_record_space_from_outside_is_adopted_and_said() {
    let mut h = Harness::new();
    let mut slot = RecordSpaceSlot::default();
    h.app.poll_record_space(&mut slot);
    assert!(h.app.model.diagnostics.lines.is_empty());
    push_record_space_to_ui(&mut slot, Some(CaptureRegion { x1: 300, y1: 150, x2: 1500, y2: 900 }));
    h.app.poll_record_space(&mut slot);
    assert_eq!(h.last_line(), "Record space set over IPC: 1200x750.");
    assert_eq!(h.app.model.settings.recording_size(), (1200, 750));
    push_record_space_to_ui(&mut slot, None);
    h.app.poll_record_space(&mut slot);
    assert_eq!(h.last_line(), "Record space reset to the full screen over IPC.");
    assert!(!h.app.model.settings.has_crop_insets());
}

#[test]
fn a_click_on_the_preview_places_the_armed_corner() {
    let mut h = Harness::new();
    h.app.on_preview_click(Some((5, 5)));
    assert!(!h.app.model.settings.has_crop_insets(), "nothing is armed");

    h.app.on_record_space(RecordSpaceClick::Pick(Corner::TopLeft));
    let view = h.app.preview_view();
    assert_eq!(view.caption, Some("Starting live view…"));
    assert_eq!(
        view.hint.as_deref(),
        Some("Click the preview to place the top-left corner (Esc cancels).")
    );
    h.app.on_preview_click(Some((300, 150)));
    assert_eq!(h.last_line(), "Set top-left corner to 300,150 — recording 1620x930.");
    assert!(h.app.pending_pick.is_none());
    assert_eq!(h.app.preview_view().crop, Some((300, 150, 1620, 930)));

    h.app.on_record_space(RecordSpaceClick::Pick(Corner::BottomRight));
    h.app.on_preview_click(Some((200, 100)));
    assert_eq!(
        h.last_line(),
        "200,100 would leave nothing to record — bottom-right corner unchanged."
    );
    assert_eq!(h.app.model.settings.recording_size(), (1620, 930));

    h.app.on_record_space(RecordSpaceClick::Pick(Corner::BottomLeft));
    h.app.on_preview_click(None);
    assert_eq!(h.last_line(), "Corner pick cancelled (preview had no size).");
}

#[test]
fn escape_disarms_a_corner() {
    let mut h = Harness::new();
    h.app.on_record_space(RecordSpaceClick::Pick(Corner::TopRight));
    h.app.tick_begin(true);
    assert!(h.app.pending_pick.is_none());
    assert_eq!(h.last_line(), "Corner pick cancelled (Esc).");
}

#[test]
fn the_idle_capture_never_runs_beside_a_recording() {
    let mut h = Harness::new();
    assert_eq!(h.app.on_record_space(RecordSpaceClick::LiveView(true)), LiveViewAction::Start);
    assert_eq!(h.app.on_record_space(RecordSpaceClick::LiveView(true)), LiveViewAction::Nothing);
    assert_eq!(h.app.record_space_view().live_view, Some(true));
    let img = PreviewImage { width: 1, height: 1, data: vec![0; 4] };
    assert!(h.app.on_preview_image(&img));
    assert!(!h.app.on_preview_image(&PreviewImage { width: 0, height: 1, data: vec![0; 4] }));
    assert_eq!(h.app.preview_view().caption, None);
    h.record();
    assert!(!h.app.live_view);
    assert!(h.app.preview_view().recording);
    assert_eq!(h.app.record_space_view().live_view, None);
    assert_eq!(h.app.on_record_space(RecordSpaceClick::LiveView(true)), LiveViewAction::Nothing);
    assert_eq!(h.app.on_record_space(RecordSpaceClick::LiveView(false)), LiveViewAction::Nothing);
}

#[test]
fn a_stopped_live_view_leaves_no_preview() {
    let mut h = Harness::new();
    h.app.on_record_space(RecordSpaceClick::LiveView(true));
    assert!(h.app.live_view && h.app.has_preview);
    assert_eq!(h.last_line(), "Live view started.");
    assert_eq!(h.app.on_record_space(RecordSpaceClick::LiveView(false)), LiveViewAction::Stop);
    assert!(!h.app.live_view && !h.app.has_preview);
    assert_eq!(h.app.pending_pick, None);
}

#[test]
fn a_new_line_leaves_the_times_of_the_others() {
    let mut h = Harness::new();
    for n in 0..50 {
        h.app.model.diagnostics.push_at("line", &format!("00:00:{n:02}"));
    }
    h.app.on_record_space(RecordSpaceClick::Pick(Corner::TopLeft));
    let times = &h.app.model.diagnostics.timestamps;
    assert_eq!((times.len(), times[0].as_str(), times[47].as_str()), (50, "00:00:02", "00:00:49"));
    assert_eq!(h.app.model.diagnostics.lines[48], "Live view started.");
}

#[test]
fn every_line_carries_a_time_of_day() {
    let mut h = Harness::new();
    h.app.on_record_space(RecordSpaceClick::LiveView(true));
    h.app.on_record_space(RecordSpaceClick::Pick(Corner::TopLeft));
    let diagnostics = &h.app.model.diagnostics;
    assert!(!diagnostics.lines.is_empty());
    assert_eq!(diagnostics.lines.len(), diagnostics.timestamps.len());
    for time in &diagnostics.timestamps {
        let parts: Vec<u32> = time.split(':').map(|n| n.parse().unwrap()).collect();
        assert_eq!((time.len(), parts.len()), (8, 3), "{time}");
        assert!(parts[0] < 24 && parts[1] < 60 && parts[2] <= 60, "{time}");
    }
}

#[test]
fn a_failed_idle_capture_gives_up_the_pick() {
    let mut h = Harness::new();
    h.app.on_record_space(RecordSpaceClick::Pick(Corner::TopLeft));
    h.app.drain_live_view_error(&None);
    assert!(h.app.live_view);
    h.app.drain_live_view_error(&Some(live_view_unavailable("no portal")));
    assert_eq!(h.last_line(), "Live view unavailable: no portal");
    assert!(!h.app.live_view && h.app.pending_pick.is_none());
    assert_eq!(live_view_stopped("gone"), "Live view stopped: gone");
    assert_eq!(h.app.preview_view().caption, Some("No preview available"));
}

#[test]
fn insets_are_entered_in_the_panel() {
    let mut h = Harness::new();
    h.app.on_record_space(RecordSpaceClick::Insets { left: 100, top: 50, right: 300, bottom: 150 });
    assert_eq!(h.app.model.settings.recording_size(), (1520, 880));
    assert_eq!(h.app.record_space_view().screen, (1920, 1080));
}
