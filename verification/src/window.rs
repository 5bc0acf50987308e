//! The recorder window: what it remembers between two frames, and what it does when a button
//! is pressed, a dialog answers or the recorder reports.
use vstd::prelude::*;
use vstd::string::*;

use crate::capture::{CaptureConfig, DropPolicy};
use crate::clock::{is_date, is_time};
use crate::config::{BsrConfig, CaptureRegion, Environment};
use crate::encode::EncoderConfig;
use crate::ipc::{FileNamingStrategy, MuxerConfig};
use crate::json::decimal_is_unique;
use crate::path::{
    a_file_is_known_by_its_folder_and_its_name, file_name, join, joined, last_name, parent,
    parent_path, plain_name,
};
use crate::recording_file::{default_save_folder, save_folder};
use crate::text::{
    a_number_reads_back_as_it_was_written, copy_opt, dec, decimal, decimal_i32, is_blank, opt_text,
    parse_unsigned, signed_dec, trim, trimmed, unsigned_value,
};
use crate::ui_model::{
    count, lemma_timed_on, logged, timed, RecordingStatus, UiDiagnostics, UiModel, UiTelemetry,
    MAX_SAMPLES,
};
use crate::ui_settings::{
    encoder_config_for, recordings_folder, Corner, FileNamingStrategyUi, UiSettings,
};

verus! {

/// The state of the window. Channels, textures and tasks are held elsewhere; here stands
/// whether there is one.
#[derive(Debug, Clone)]
pub struct AppWindow {
    pub model: UiModel,
    /// Is a recording pipeline running?
    pub pipeline: bool,
    /// Is a recording being finalised?
    pub finalizing: bool,
    /// A change of the window that is due at the next frame: minimise, or restore and raise.
    pub pending_window_cmd: Option<bool>,
    /// The window has not been raised yet.
    pub needs_initial_raise: bool,
    /// The corner that the next click on the preview places.
    pub pending_pick: Option<Corner>,
    /// Does an idle capture feed the preview?
    pub live_view: bool,
    pub record_hotkey_id: Option<u32>,
    /// The file of the current or last recording.
    pub current_recording_path: Option<String>,
    /// A recording that a remote participant offers.
    pub pending_save_offer: Option<String>,
    /// The file name in the save dialog, while that is open.
    pub pending_local_save: Option<String>,
    /// Where the save dialog copies to. This is not the folder that recordings are written to.
    pub save_dest_folder: String,
    /// Is a file dialog of the desktop open?
    pub picking: bool,
    /// What the save dialog says about the last attempt to browse.
    pub save_status: Option<String>,
    /// When waiting for the file dialog ends, in nanoseconds on the monotonic clock.
    pub pick_deadline: Option<u64>,
    /// Someone asks to record: their name, if they gave one.
    pub pending_consent: Option<Option<String>>,
    /// Can preview pictures arrive?
    pub has_preview: bool,
    /// Is a preview picture shown?
    pub preview_shown: bool,
    /// Can finished recordings be offered to others?
    pub has_ipc_client: bool,
    /// When the recording started, in nanoseconds on the monotonic clock.
    pub recording_start: Option<u64>,
    /// The number of the next recording.
    pub recording_seq: u64,
    /// When a recording was stopped to be started again.
    pub pending_auto_restart: Option<u64>,
}

/// `log` with a line added where `cond` holds.
pub open spec fn logged_if(log: Seq<Seq<char>>, cond: bool, line: Seq<char>) -> Seq<Seq<char>> {
    if cond {
        logged(log, line)
    } else {
        log
    }
}

/// The file that holds the number of the next recording.
pub open spec fn sequence_file(folder: Seq<char>) -> Seq<char> {
    joined(folder, ".bsr_fragment_seq"@)
}

/// The file that holds the number of the next recording.
pub fn fragment_seq_path(folder: &str) -> (r: String)
    ensures
        r@ == sequence_file(folder@),
{
    join(folder, ".bsr_fragment_seq")
}

/// The number in the text of that file; one where there is none.
pub open spec fn sequence_in(contents: Option<Seq<char>>) -> u64 {
    match contents {
        Some(c) => match unsigned_value(trimmed(c), u64::MAX as nat) {
            Some(n) => n as u64,
            None => 1,
        },
        None => 1,
    }
}

fn initial_seq(contents: &Option<String>) -> (r: u64)
    ensures
        r == sequence_in(opt_text(*contents)),
{
    match contents {
        Some(c) => match parse_unsigned(trim(c.as_str()).as_str(), u64::MAX) {
            Some(n) => n,
            None => 1,
        },
        None => 1,
    }
}

impl AppWindow {
    /// The window's own books are in order, and no idle capture runs beside a recording.
    pub open spec fn wf(self) -> bool {
        &&& self.model.diagnostics.wf()
        &&& self.model.diagnostics.stamped()
        &&& self.model.telemetry.latency_samples@.len() <= MAX_SAMPLES
        &&& self.live_view ==> self.model.status != RecordingStatus::Recording
    }

    /// The diagnostic lines.
    pub open spec fn log(self) -> Seq<Seq<char>> {
        self.model.diagnostics.log()
    }

    /// `n` lines came after `before`, each with its time of day.
    pub open spec fn timed_since(self, before: AppWindow, n: nat) -> bool {
        timed(before.model.diagnostics.times(), self.model.diagnostics.times(), n)
    }

    /// This window with other diagnostics.
    pub open spec fn relogged(self, d: UiDiagnostics) -> AppWindow {
        AppWindow { model: UiModel { diagnostics: d, ..self.model }, ..self }
    }

    /// This window with another status.
    pub open spec fn with_status(self, status: RecordingStatus) -> AppWindow {
        AppWindow { model: UiModel { status, ..self.model }, ..self }
    }

    /// This window with other settings.
    pub open spec fn with_settings(self, settings: UiSettings) -> AppWindow {
        AppWindow { model: UiModel { settings, ..self.model }, ..self }
    }

    /// The settings of a window that opens with `config`: the defaults, with what the
    /// configuration says in their place.
    pub open spec fn seeded(settings: UiSettings, config: BsrConfig, env: Environment) -> bool {
        &&& settings.resolution@ == "1920x1080"@
        &&& settings.screen() == (1920u32, 1080u32)
        &&& settings.fps == (if config.capture.fps > 0 {
            config.capture.fps
        } else {
            60
        })
        &&& settings.output_folder@ == (if trimmed(config.output.output_folder@).len() > 0 {
            config.output.output_folder@
        } else {
            recordings_folder(env)
        })
        &&& settings.file_naming_strategy == FileNamingStrategyUi::Simple
        &&& settings.minimize_while_recording
        &&& settings.preset@ == config.encoder.preset.x264()
        &&& settings.bitrate_kbps == (if config.encoder.bitrate_kbps > 0 {
            config.encoder.bitrate_kbps
        } else {
            8000
        })
        &&& settings == (UiSettings {
            crop_left: 0,
            crop_top: 0,
            crop_right: 0,
            crop_bottom: 0,
            ..settings
        }).with_region(config.capture.region)
    }

    /// Opens the window with a configuration. `seq_file` is the text of the file that holds the
    /// number of the next recording.
    pub fn build(
        config: &BsrConfig,
        env: &Environment,
        seq_file: &Option<String>,
        record_hotkey_id: Option<u32>,
        has_ipc_client: bool,
    ) -> (r: Self)
        ensures
            r.wf(),
            Self::seeded(r.model.settings, *config, *env),
            r.model.status == RecordingStatus::Idle,
            r.model.telemetry.is_zero(),
            r.log() == Seq::<Seq<char>>::empty(),
            r.model.diagnostics_auto_scroll && r.model.folder_valid,
            !r.pipeline && !r.finalizing,
            r.pending_window_cmd is None && r.needs_initial_raise,
            r.pending_pick is None && !r.live_view,
            r.record_hotkey_id == record_hotkey_id,
            r.current_recording_path is None,
            r.pending_save_offer is None && r.pending_local_save is None,
            r.save_dest_folder@.len() == 0,
            !r.picking && r.save_status is None && r.pick_deadline is None,
            r.pending_consent is None,
            !r.has_preview && !r.preview_shown,
            r.has_ipc_client == has_ipc_client,
            r.recording_start is None && r.pending_auto_restart is None,
            r.recording_seq == sequence_in(opt_text(*seq_file)),
    {
        let mut settings = UiSettings::default_in(env);
        if !is_blank(config.output.output_folder.as_str()) {
            settings.output_folder = config.output.output_folder.clone();
        }
        if config.capture.fps > 0 {
            settings.fps = config.capture.fps;
        }
        settings.preset = String::from_str(config.encoder.preset.x264_name());
        if config.encoder.bitrate_kbps > 0 {
            settings.bitrate_kbps = config.encoder.bitrate_kbps;
        }
        settings.set_capture_region(config.capture.region);
        AppWindow {
            model: UiModel::with_settings(settings),
            pipeline: false,
            finalizing: false,
            pending_window_cmd: None,
            needs_initial_raise: true,
            pending_pick: None,
            live_view: false,
            record_hotkey_id,
            current_recording_path: None,
            pending_save_offer: None,
            pending_local_save: None,
            save_dest_folder: String::new(),
            picking: false,
            save_status: None,
            pick_deadline: None,
            pending_consent: None,
            has_preview: false,
            preview_shown: false,
            has_ipc_client,
            recording_start: None,
            recording_seq: initial_seq(seq_file),
            pending_auto_restart: None,
        }
    }

    /// Adds a diagnostic line.
    pub fn say(&mut self, line: &str)
        requires
            old(self).wf(),
        ensures
            final(self).wf(),
            *final(self) == old(self).relogged(final(self).model.diagnostics),
            final(self).log() == logged(old(self).log(), line@),
            final(self).timed_since(*old(self), 1),
    {
        self.model.diagnostics.push(line);
    }

    /// Disarms a corner that waits for a click, and says why.
    pub fn cancel_pick(&mut self, why: &str)
        requires
            old(self).wf(),
        ensures
            final(self).wf(),
            *final(self) == (AppWindow { pending_pick: None, ..*old(self) }).relogged(
                final(self).model.diagnostics,
            ),
            final(self).log() == logged_if(
                old(self).log(),
                old(self).pending_pick is Some,
                "Corner pick cancelled ("@ + why@ + ")."@,
            ),
            final(self).timed_since(*old(self), count(old(self).pending_pick is Some)),
            old(self).pending_pick is None ==> *final(self) == *old(self),
    {
        if self.pending_pick.is_some() {
            self.pending_pick = None;
            let mut line = String::from_str("Corner pick cancelled (");
            line.append(why);
            line.append(").");
            self.say(line.as_str());
        }
    }

    /// Starts the idle capture that feeds the preview, unless it runs or a recording does.
    /// Returns whether it is to be started.
    pub fn start_live_view(&mut self) -> (start: bool)
        requires
            old(self).wf(),
        ensures
            final(self).wf(),
            start == (!old(self).live_view && old(self).model.status
                != RecordingStatus::Recording),
            if start {
                &&& *final(self) == (AppWindow {
                    live_view: true,
                    has_preview: true,
                    ..*old(self)
                }).relogged(final(self).model.diagnostics)
                &&& final(self).log() == logged(old(self).log(), "Live view started."@)
                &&& final(self).timed_since(*old(self), 1)
            } else {
                *final(self) == *old(self)
            },
    {
        if self.live_view || self.model.status == RecordingStatus::Recording {
            return false;
        }
        self.has_preview = true;
        self.live_view = true;
        self.say("Live view started.");
        true
    }

    /// This window without the idle capture.
    pub open spec fn without_live_view(self) -> AppWindow {
        if self.live_view {
            AppWindow { live_view: false, has_preview: false, preview_shown: false, ..self }
        } else {
            self
        }
    }

    /// Stops the idle capture. Returns whether there is one to stop.
    pub fn stop_live_view(&mut self) -> (stop: bool)
        requires
            old(self).wf(),
        ensures
            final(self).wf(),
            stop == old(self).live_view,
            *final(self) == old(self).without_live_view().relogged(final(self).model.diagnostics),
            final(self).log() == logged_if(old(self).log(), stop, "Live view stopped."@),
            final(self).timed_since(*old(self), count(stop)),
            !stop ==> *final(self) == *old(self),
    {
        if !self.live_view {
            return false;
        }
        self.live_view = false;
        self.has_preview = false;
        self.preview_shown = false;
        self.say("Live view stopped.");
        true
    }

    /// Reports that the idle capture has failed, once, and gives up a pick that waits for it.
    pub fn drain_live_view_error(&mut self, error: &Option<String>)
        requires
            old(self).wf(),
        ensures
            final(self).wf(),
            match (*error, old(self).live_view) {
                (Some(msg), true) => {
                    &&& *final(self) == (AppWindow {
                        pending_pick: None,
                        live_view: false,
                        ..*old(self)
                    }).relogged(final(self).model.diagnostics)
                    &&& final(self).log() == logged(old(self).log(), msg@)
                    &&& final(self).timed_since(*old(self), 1)
                },
                _ => *final(self) == *old(self),
            },
    {
        if self.live_view {
            if let Some(msg) = error {
                self.say(msg.as_str());
                self.pending_pick = None;
                self.live_view = false;
            }
        }
    }

    /// Arms a corner for placement, and makes sure that there is something to click on. Returns
    /// whether the idle capture is to be started.
    pub fn begin_pick(&mut self, corner: Corner) -> (start: bool)
        requires
            old(self).wf(),
        ensures
            final(self).wf(),
            start == (!old(self).live_view && old(self).model.status
                != RecordingStatus::Recording),
            *final(self) == (AppWindow {
                pending_pick: Some(corner),
                live_view: old(self).live_view || start,
                has_preview: old(self).has_preview || start,
                ..*old(self)
            }).relogged(final(self).model.diagnostics),
            final(self).log() == logged(
                logged_if(old(self).log(), start, "Live view started."@),
                "Click the preview to place the "@ + corner.name() + " corner."@,
            ),
            final(self).timed_since(*old(self), count(start) + 1),
    {
        self.pending_pick = Some(corner);
        let start = self.start_live_view();
        let mut line = String::from_str("Click the preview to place the ");
        line.append(corner.label());
        line.append(" corner.");
        let ghost between = *self;
        self.say(line.as_str());
        proof {
            lemma_timed_on(
                old(self).model.diagnostics.times(),
                between.model.diagnostics.times(),
                self.model.diagnostics.times(),
                count(start),
                1,
            );
        }
        start
    }
}

/// What is done when Record is pressed, before the encoder is opened.
#[derive(Debug, Clone)]
pub struct RecordingPlan {
    /// Stop the idle capture first: two capture sessions at once are asking for trouble.
    pub stop_live_view: bool,
    pub capture: CaptureConfig,
    pub encoder: EncoderConfig,
}

/// How many frames wait between capture and encoder at most.
pub const FRAME_BUFFER_CAPACITY: usize = 8;

/// The least time between two preview frames of a recording, in milliseconds.
pub const PREVIEW_INTERVAL_MS: u64 = 200;

/// The width of the preview of a recording.
pub const RECORDING_PREVIEW_WIDTH: u32 = 320;

/// The width of the preview of the idle capture, which delivers a frame every 200 ms.
pub const LIVE_VIEW_WIDTH: u32 = 480;

/// What is said when a recording takes only part of the screen.
pub open spec fn cropped_line(size: (u32, u32), r: CaptureRegion) -> Seq<char> {
    "Recording cropped region "@ + dec(size.0 as nat) + "x"@ + dec(size.1 as nat) + " (from "@
        + signed_dec(r.x1 as int) + ","@ + signed_dec(r.y1 as int) + " to "@ + signed_dec(
        r.x2 as int,
    ) + ","@ + signed_dec(r.y2 as int) + ")."@
}

/// What is done once the encoder is open.
#[derive(Debug, Clone)]
pub struct RecordingStart {
    pub muxer: MuxerConfig,
    /// The file of the recording.
    pub output_path: String,
    /// The file that holds the number of the next recording, and its directory.
    pub seq_path: String,
    pub seq_dir: Option<String>,
    /// Where that number is written first, to be renamed into place.
    pub seq_tmp_path: String,
    pub seq_text: String,
}

/// The name of the file of recording number `seq`, started on `date` at `time`.
pub open spec fn recording_name(date: Seq<char>, time: Seq<char>, seq: u64) -> Seq<char> {
    "recording-"@ + date + "_"@ + time + "-"@ + dec(seq as nat) + ".mp4"@
}

/// The number after `seq`; the largest number stays.
pub open spec fn next_seq(seq: u64) -> u64 {
    if seq == u64::MAX {
        seq
    } else {
        (seq + 1) as u64
    }
}

/// A file beside another one.
pub open spec fn beside(path: Seq<char>, name: Seq<char>) -> Seq<char> {
    match parent_path(path) {
        Some(dir) => joined(dir, name),
        None => name,
    }
}

/// How a recording is stopped.
#[derive(Debug, Clone, Copy, PartialEq, Eq, Structural)]
pub struct StopAction {
    /// Shut down capture, then the encoder, then the muxer, and wait for the file to be
    /// finalised. False where no pipeline is running.
    pub stop_pipeline: bool,
}

/// The pause between the steps of a shutdown, in milliseconds.
pub const SHUTDOWN_PAUSE_MS: u64 = 100;

/// How long the muxer has to finalise the file, in seconds.
pub const FINALIZE_TIMEOUT_SECS: u64 = 30;

/// How the muxer ended.
#[derive(Debug, Clone)]
pub enum MuxerEnd {
    Finished,
    Failed(String),
    Panicked(String),
    TimedOut,
    NoTask,
}

/// Whether the file was finalised, or what went wrong.
pub fn finalize_outcome(end: &MuxerEnd) -> (r: Result<(), String>)
    ensures
        match (*end, r) {
            (MuxerEnd::Finished, Ok(())) => true,
            (MuxerEnd::Failed(cause), Err(e)) => e@ == cause@,
            (MuxerEnd::Panicked(cause), Err(e)) => e@ == "muxer task panicked: "@ + cause@,
            (MuxerEnd::TimedOut, Err(e)) => e@ == "timed out waiting for the MP4 trailer"@,
            (MuxerEnd::NoTask, Err(e)) => e@ == "no muxer task to wait for"@,
            _ => false,
        },
{
    match end {
        MuxerEnd::Finished => Ok(()),
        MuxerEnd::Failed(cause) => Err(cause.clone()),
        MuxerEnd::Panicked(cause) => Err(
            String::from_str("muxer task panicked: ").concat(cause.as_str()),
        ),
        MuxerEnd::TimedOut => Err(String::from_str("timed out waiting for the MP4 trailer")),
        MuxerEnd::NoTask => Err(String::from_str("no muxer task to wait for")),
    }
}

/// What is known of a recording that is being finalised.
#[derive(Debug)]
pub enum FinalizePoll {
    Pending,
    /// The task that finalises it is gone.
    Gone,
    Finished(Result<(), String>),
}

/// What is said once finalising is over.
pub open spec fn finalized_line(outcome: Result<(), Seq<char>>, empty: bool) -> Seq<char> {
    match outcome {
        Ok(()) => if empty {
            "Finalising produced an EMPTY recording — no video data reached the muxer. The file is not usable."@
        } else {
            "Recording finalised and ready to save."@
        },
        Err(e) => "Finalising failed ("@ + e + ") — the file may be incomplete or unplayable."@,
    }
}

/// The outcome with the text of its error.
pub open spec fn outcome_text(outcome: Result<(), String>) -> Result<(), Seq<char>> {
    match outcome {
        Ok(()) => Ok(()),
        Err(e) => Err(e@),
    }
}

fn finalized_text(outcome: &Result<(), String>, empty: bool) -> (r: String)
    ensures
        r@ == finalized_line(outcome_text(*outcome), empty),
{
    match outcome {
        Ok(()) => {
            if empty {
                String::from_str(
                    "Finalising produced an EMPTY recording — no video data reached the muxer. The file is not usable.",
                )
            } else {
                String::from_str("Recording finalised and ready to save.")
            }
        },
        Err(e) => {
            let mut line = String::from_str("Finalising failed (");
            line.append(e.as_str());
            line.append(") — the file may be incomplete or unplayable.");
            line
        },
    }
}

impl AppWindow {
    /// What is said, after `log`, when Record is pressed, before the encoder is opened.
    pub open spec fn record_log(self, log: Seq<Seq<char>>) -> Seq<Seq<char>> {
        let a = logged_if(log, self.live_view, "Live view stopped."@);
        let b = logged_if(
            a,
            self.pending_pick is Some,
            "Corner pick cancelled ("@ + "recording started"@ + ")."@,
        );
        match self.model.settings.region() {
            Some(r) => logged(b, cropped_line(self.model.settings.recorded(), r)),
            None => b,
        }
    }

    /// How many lines that is.
    pub open spec fn record_lines(self) -> nat {
        count(self.live_view) + count(self.pending_pick is Some) + count(
            self.model.settings.region() is Some,
        )
    }

    /// The plan of a recording: capture and encoder are built for the recorded size.
    pub open spec fn plans(self, p: RecordingPlan) -> bool {
        let s = self.model.settings;
        &&& p.stop_live_view == self.live_view
        &&& p.capture == (CaptureConfig {
            width: s.recorded().0,
            height: s.recorded().1,
            fps: 30,
            drop_policy: DropPolicy::DropNewest,
            buffer_capacity: FRAME_BUFFER_CAPACITY,
            region: s.region(),
        })
        &&& p.encoder.codec@ == "h264"@
        &&& p.encoder.preset == s.preset
        &&& p.encoder.bitrate_kbps == s.bitrate_kbps
        &&& (p.encoder.width, p.encoder.height) == s.recorded()
        &&& p.encoder.fps == s.fps
    }

    /// This window about to record: without the idle capture, and with no corner that waits for
    /// a click.
    pub open spec fn about_to_record(self) -> AppWindow {
        AppWindow { pending_pick: None, ..self.without_live_view() }
    }

    /// How Record leaves the window: as it is unless the recorder is idle.
    pub open spec fn record_pressed(self, after: AppWindow, plan: Option<RecordingPlan>) -> bool {
        if self.model.status != RecordingStatus::Idle {
            plan is None && after == self
        } else {
            &&& plan matches Some(p) && self.plans(p)
            &&& after == self.about_to_record().relogged(after.model.diagnostics)
            &&& after.log() == self.record_log(self.log())
            &&& after.timed_since(self, self.record_lines())
        }
    }

    /// Record is pressed. Nothing happens unless the recorder is idle. Capture, encoder and
    /// muxer are all built for the same, cropped, size.
    pub fn on_record_pressed(&mut self) -> (plan: Option<RecordingPlan>)
        requires
            old(self).wf(),
        ensures
            final(self).wf(),
            old(self).record_pressed(*final(self), plan),
    {
        if self.model.status != RecordingStatus::Idle {
            return None;
        }
        Some(self.plan_recording())
    }

    /// Makes ready for a recording, and says what it takes.
    pub fn plan_recording(&mut self) -> (plan: RecordingPlan)
        requires
            old(self).wf(),
            old(self).model.status == RecordingStatus::Idle,
        ensures
            final(self).wf(),
            old(self).record_pressed(*final(self), Some(plan)),
    {
        let stop_live_view = self.stop_live_view();
        let ghost stopped = *self;
        self.cancel_pick("recording started");
        let ghost cancelled = *self;
        let (width, height) = self.model.settings.recording_size();
        let region = self.model.settings.to_capture_region();
        let mut capture = CaptureConfig::default();
        capture.region = region;
        capture.width = width;
        capture.height = height;
        if let Some(r) = region {
            let mut line = String::from_str("Recording cropped region ");
            line.append(decimal(width as u64).as_str());
            line.append("x");
            line.append(decimal(height as u64).as_str());
            line.append(" (from ");
            line.append(decimal_i32(r.x1).as_str());
            line.append(",");
            line.append(decimal_i32(r.y1).as_str());
            line.append(" to ");
            line.append(decimal_i32(r.x2).as_str());
            line.append(",");
            line.append(decimal_i32(r.y2).as_str());
            line.append(").");
            self.say(line.as_str());
        }
        proof {
            let cropped = count(region is Some);
            let picking = count(old(self).pending_pick is Some);
            lemma_timed_on(
                stopped.model.diagnostics.times(),
                cancelled.model.diagnostics.times(),
                self.model.diagnostics.times(),
                picking,
                cropped,
            );
            lemma_timed_on(
                old(self).model.diagnostics.times(),
                stopped.model.diagnostics.times(),
                self.model.diagnostics.times(),
                count(stop_live_view),
                picking + cropped,
            );
        }
        let encoder = encoder_config_for(&self.model.settings, width, height);
        RecordingPlan { stop_live_view, capture, encoder }
    }

    /// The recording that starts on `date` at `time`.
    pub open spec fn starts(self, start: RecordingStart, date: Seq<char>, time: Seq<char>) -> bool {
        let s = self.model.settings;
        let name = recording_name(date, time, self.recording_seq);
        &&& start.muxer.base_output_path == s.output_folder
        &&& start.muxer.file_naming_strategy matches FileNamingStrategy::Simple(n) && n@ == name
        &&& start.muxer.max_duration.total() == 18_000_000_000_000
        &&& start.muxer.fps == s.fps
        &&& (start.muxer.width, start.muxer.height) == s.recorded()
        &&& start.output_path@ == joined(s.output_folder@, name)
        &&& start.seq_path@ == sequence_file(s.output_folder@)
        &&& opt_text(start.seq_dir) == parent_path(sequence_file(s.output_folder@))
        &&& start.seq_tmp_path@ == beside(
            sequence_file(s.output_folder@),
            ".bsr_fragment_seq.tmp"@,
        )
        &&& start.seq_text@ == dec(next_seq(self.recording_seq) as nat)
    }

    /// This window once a recording into `path` is running since `now`, with its telemetry and
    /// diagnostics started over.
    pub open spec fn recording_into(self, path: Option<String>, now: u64, model: UiModel) -> AppWindow {
        AppWindow {
            model: UiModel {
                status: RecordingStatus::Recording,
                telemetry: model.telemetry,
                diagnostics: model.diagnostics,
                ..self.model
            },
            pipeline: true,
            has_preview: true,
            current_recording_path: path,
            recording_start: Some(now),
            recording_seq: next_seq(self.recording_seq),
            pending_window_cmd: if self.model.settings.minimize_while_recording {
                Some(true)
            } else {
                self.pending_window_cmd
            },
            ..self
        }
    }

    /// The encoder is open, or could not be opened. The recording gets a name of its own, with
    /// the date and time in UTC and its number, and the next number is set aside.
    pub fn on_encoder_ready_at(
        &mut self,
        outcome: Result<(), String>,
        now: u64,
        date: &str,
        time: &str,
    ) -> (start: Option<RecordingStart>)
        requires
            old(self).wf(),
            !old(self).live_view,
        ensures
            final(self).wf(),
            match outcome {
                Err(e) => {
                    &&& start is None
                    &&& *final(self) == old(self).relogged(final(self).model.diagnostics)
                    &&& final(self).log() == logged(old(self).log(), "Encoder init failed: "@ + e@)
                    &&& final(self).timed_since(*old(self), 1)
                },
                Ok(()) => {
                    &&& start matches Some(s) && old(self).starts(s, date@, time@)
                        && opt_text(final(self).current_recording_path) == Some(s.output_path@)
                    &&& *final(self) == old(self).recording_into(
                        final(self).current_recording_path,
                        now,
                        final(self).model,
                    )
                    &&& final(self).model.telemetry.is_zero()
                    &&& final(self).log() == logged(Seq::empty(), "Recording started."@)
                    &&& timed(Seq::empty(), final(self).model.diagnostics.times(), 1)
                },
            },
    {
        if let Err(e) = outcome {
            let line = String::from_str("Encoder init failed: ").concat(e.as_str());
            self.say(line.as_str());
            return None;
        }
        let mut name = String::from_str("recording-");
        name.append(date);
        name.append("_");
        name.append(time);
        name.append("-");
        name.append(decimal(self.recording_seq).as_str());
        name.append(".mp4");
        let mut muxer = self.model.settings.to_muxer_config();
        let output_path = join(muxer.base_output_path.as_str(), name.as_str());
        muxer.file_naming_strategy = FileNamingStrategy::Simple(name);
        self.current_recording_path = Some(output_path.clone());
        self.recording_seq = self.recording_seq.saturating_add(1);
        let seq_path = fragment_seq_path(self.model.settings.output_folder.as_str());
        let seq_dir = parent(seq_path.as_str());
        let seq_tmp_path = match &seq_dir {
            Some(dir) => join(dir.as_str(), ".bsr_fragment_seq.tmp"),
            None => String::from_str(".bsr_fragment_seq.tmp"),
        };
        let seq_text = decimal(self.recording_seq);
        self.has_preview = true;
        self.pipeline = true;
        self.recording_start = Some(now);
        if self.model.settings.minimize_while_recording {
            self.pending_window_cmd = Some(true);
        }
        self.model.status = RecordingStatus::Recording;
        self.model.telemetry = UiTelemetry::default();
        self.model.diagnostics = UiDiagnostics::default();
        self.say("Recording started.");
        Some(RecordingStart { muxer, output_path, seq_path, seq_dir, seq_tmp_path, seq_text })
    }

    /// The encoder is open, or could not be opened, now.
    pub fn on_encoder_ready(&mut self, outcome: Result<(), String>, now: u64) -> (start: Option<
        RecordingStart,
    >)
        requires
            old(self).wf(),
            !old(self).live_view,
        ensures
            final(self).wf(),
            match outcome {
                Err(e) => {
                    &&& start is None
                    &&& *final(self) == old(self).relogged(final(self).model.diagnostics)
                    &&& final(self).log() == logged(old(self).log(), "Encoder init failed: "@ + e@)
                    &&& final(self).timed_since(*old(self), 1)
                },
                Ok(()) => {
                    &&& start matches Some(s) && (exists|date: Seq<char>, time: Seq<char>|
                        is_date(date) && is_time(time, '-')
                            && #[trigger] old(self).starts(s, date, time)) && opt_text(
                        final(self).current_recording_path,
                    ) == Some(s.output_path@)
                    &&& *final(self) == old(self).recording_into(
                        final(self).current_recording_path,
                        now,
                        final(self).model,
                    )
                    &&& final(self).model.telemetry.is_zero()
                    &&& final(self).log() == logged(Seq::empty(), "Recording started."@)
                    &&& timed(Seq::empty(), final(self).model.diagnostics.times(), 1)
                },
            },
    {
        let (date, time) = crate::clock::utc_date_and_time();
        self.on_encoder_ready_at(outcome, now, date.as_str(), time.as_str())
    }

    /// This window once Stop has been pressed.
    pub open spec fn stopped(self) -> AppWindow {
        let s = self.with_status(RecordingStatus::ShuttingDown);
        if self.pipeline {
            AppWindow {
                pipeline: false,
                has_preview: false,
                preview_shown: false,
                finalizing: true,
                recording_start: None,
                ..s
            }
        } else {
            AppWindow { recording_start: None, ..s }
        }
    }

    /// How Stop leaves the window: as it is unless a recording is running, else shutting down.
    pub open spec fn stop_pressed(self, after: AppWindow, r: Option<StopAction>) -> bool {
        if self.model.status != RecordingStatus::Recording {
            r is None && after == self
        } else {
            &&& r == Some(StopAction { stop_pipeline: self.pipeline })
            &&& after == self.stopped().relogged(after.model.diagnostics)
            &&& after.log() == logged(self.log(), "Recording stopped — finalising the file…"@)
            &&& after.timed_since(self, 1)
        }
    }

    /// Stop is pressed. Nothing happens unless a recording is running. The recorder is not idle
    /// before the file is finalised.
    pub fn on_stop_pressed(&mut self) -> (r: Option<StopAction>)
        requires
            old(self).wf(),
        ensures
            final(self).wf(),
            old(self).stop_pressed(*final(self), r),
    {
        if self.model.status != RecordingStatus::Recording {
            return None;
        }
        Some(self.stop_recording())
    }

    /// Ends the recording that is running.
    pub fn stop_recording(&mut self) -> (r: StopAction)
        requires
            old(self).wf(),
            old(self).model.status == RecordingStatus::Recording,
        ensures
            final(self).wf(),
            old(self).stop_pressed(*final(self), Some(r)),
    {
        let stop_pipeline = self.pipeline;
        if self.pipeline {
            self.pipeline = false;
            self.has_preview = false;
            self.preview_shown = false;
            self.finalizing = true;
        }
        self.model.status = RecordingStatus::ShuttingDown;
        self.say("Recording stopped — finalising the file…");
        self.recording_start = None;
        StopAction { stop_pipeline }
    }

    /// The name under which a recording is offered for saving: that of its file.
    pub open spec fn offered_name(path: Seq<char>) -> Seq<char> {
        match last_name(path) {
            Some(name) => name,
            None => "recording.mp4"@,
        }
    }

    /// The outcome of finalising, where it is over.
    pub open spec fn finalize_result(poll: FinalizePoll) -> Option<Result<(), Seq<char>>> {
        match poll {
            FinalizePoll::Pending => None,
            FinalizePoll::Gone => Some(Err("the finalising task disappeared"@)),
            FinalizePoll::Finished(outcome) => Some(outcome_text(outcome)),
        }
    }

    /// How the end of a recording leaves the window, and what is offered to others: nothing
    /// happens before the file is finalised.
    pub open spec fn finalized(
        self,
        poll: FinalizePoll,
        file_is_empty: bool,
        env: Environment,
        after: AppWindow,
        offered: Option<Seq<char>>,
    ) -> bool {
        if !self.finalizing || Self::finalize_result(poll) is None {
            offered is None && after == self
        } else {
            let outcome = Self::finalize_result(poll)->0;
            &&& after.log() == logged(
                self.log(),
                finalized_line(outcome, file_is_empty && self.current_recording_path is Some),
            )
            &&& after.timed_since(self, 1)
            &&& after == (AppWindow {
                finalizing: false,
                pending_window_cmd: Some(false),
                pending_local_save: after.pending_local_save,
                save_status: after.save_status,
                save_dest_folder: after.save_dest_folder,
                ..self.with_status(RecordingStatus::Idle)
            }).relogged(after.model.diagnostics)
            &&& match self.current_recording_path {
                Some(path) => {
                    &&& opt_text(after.pending_local_save) == Some(Self::offered_name(path@))
                    &&& after.save_status is None
                    &&& after.save_dest_folder@ == (if self.save_dest_folder@.len() == 0 {
                        save_folder(env)
                    } else {
                        self.save_dest_folder@
                    })
                    &&& offered == (if self.has_ipc_client {
                        Some(path@)
                    } else {
                        None
                    })
                },
                None => {
                    &&& offered is None
                    &&& after.pending_local_save == self.pending_local_save
                    &&& after.save_status == self.save_status
                    &&& after.save_dest_folder == self.save_dest_folder
                },
            }
        }
    }

    /// Completes a stop once the file is finalised: the window comes back, says how it went, and
    /// offers the file for saving, also after a failure. `file_is_empty` tells whether the file
    /// holds no video data. Returns the path to offer to others, where that is possible.
    pub fn poll_finalize(&mut self, poll: FinalizePoll, file_is_empty: bool, env: &Environment) -> (r:
        Option<String>)
        requires
            old(self).wf(),
        ensures
            final(self).wf(),
            old(self).finalized(poll, file_is_empty, *env, *final(self), opt_text(r)),
    {
        if !self.finalizing {
            return None;
        }
        let outcome: Result<(), String> = match poll {
            FinalizePoll::Pending => {
                return None;
            },
            FinalizePoll::Gone => Err(String::from_str("the finalising task disappeared")),
            FinalizePoll::Finished(outcome) => outcome,
        };
        self.finalizing = false;
        self.model.status = RecordingStatus::Idle;
        self.pending_window_cmd = Some(false);
        let line = finalized_text(
            &outcome,
            file_is_empty && self.current_recording_path.is_some(),
        );
        self.say(line.as_str());
        let path = copy_opt(&self.current_recording_path);
        match path {
            Some(path) => {
                self.open_save(path.as_str(), env);
                if self.has_ipc_client {
                    Some(path)
                } else {
                    None
                }
            },
            None => None,
        }
    }

    /// Opens the save dialog for the file at `path`. The folder is set where it is empty, and
    /// only here: the field can be cleared to paste another path into it.
    fn open_save(&mut self, path: &str, env: &Environment)
        ensures
            *final(self) == (AppWindow {
                pending_local_save: final(self).pending_local_save,
                save_status: None,
                save_dest_folder: final(self).save_dest_folder,
                ..*old(self)
            }),
            opt_text(final(self).pending_local_save) == Some(Self::offered_name(path@)),
            final(self).save_dest_folder@ == (if old(self).save_dest_folder@.len() == 0 {
                save_folder(*env)
            } else {
                old(self).save_dest_folder@
            }),
    {
        let name = match file_name(path) {
            Some(name) => name,
            None => String::from_str("recording.mp4"),
        };
        self.pending_local_save = Some(name);
        self.save_status = None;
        if self.save_dest_folder.as_str().is_empty() {
            self.save_dest_folder = default_save_folder(env);
        }
    }
}

/// A recording is planned exactly when the recorder is idle, and what is left then is a window
/// whose encoder can be opened: no idle capture runs, and no corner waits for a click.
pub proof fn a_recording_starts_only_from_idle(
    w: AppWindow,
    after: AppWindow,
    plan: Option<RecordingPlan>,
)
    requires
        w.wf(),
        w.record_pressed(after, plan),
    ensures
        plan is Some <==> w.model.status == RecordingStatus::Idle,
        plan is Some ==> !after.live_view && after.pending_pick is None && after.model.status
            == RecordingStatus::Idle,
{
}

/// The capture, the encoder and the container of one recording all have the recorded size, and
/// the encoder runs with the preset and bitrate of the settings.
pub proof fn one_size_runs_through_a_recording(
    w: AppWindow,
    ready: AppWindow,
    plan: RecordingPlan,
    start: RecordingStart,
    date: Seq<char>,
    time: Seq<char>,
)
    requires
        w.record_pressed(ready, Some(plan)),
        ready.starts(start, date, time),
    ensures
        (plan.capture.width, plan.capture.height) == w.model.settings.recorded(),
        (plan.encoder.width, plan.encoder.height) == w.model.settings.recorded(),
        (start.muxer.width, start.muxer.height) == w.model.settings.recorded(),
        plan.capture.region == w.model.settings.region(),
        plan.encoder.fps == start.muxer.fps,
        plan.encoder.preset == w.model.settings.preset,
        plan.encoder.bitrate_kbps == w.model.settings.bitrate_kbps,
{
}

/// Between Stop and the end of finalising nothing can be recorded and nothing is offered for
/// saving; once finalising is over, well or badly, the recorder is idle, the window comes back
/// and the file is offered.
pub proof fn a_stopped_recording_is_finalised_before_it_is_offered(
    w: AppWindow,
    stopped: AppWindow,
    action: StopAction,
    poll: FinalizePoll,
    file_is_empty: bool,
    env: Environment,
    after: AppWindow,
    offered: Option<Seq<char>>,
)
    requires
        w.pipeline,
        w.stop_pressed(stopped, Some(action)),
        stopped.finalized(poll, file_is_empty, env, after, offered),
    ensures
        stopped.model.status == RecordingStatus::ShuttingDown,
        stopped.pending_local_save == w.pending_local_save,
        stopped.record_pressed(stopped, None),
        poll is Pending ==> after == stopped && offered is None,
        poll !is Pending ==> {
            &&& after.model.status == RecordingStatus::Idle
            &&& after.pending_window_cmd == Some(false)
            &&& w.current_recording_path matches Some(path) ==> opt_text(after.pending_local_save)
                == Some(AppWindow::offered_name(path@))
        },
{
}

/// The number of the next recording survives a restart of the program: what is written to the
/// file reads back as the same number, and it is larger than the one just used.
pub proof fn numbering_continues_after_a_restart(
    w: AppWindow,
    start: RecordingStart,
    date: Seq<char>,
    time: Seq<char>,
)
    requires
        w.starts(start, date, time),
    ensures
        sequence_in(Some(start.seq_text@)) == next_seq(w.recording_seq),
        w.recording_seq < u64::MAX ==> sequence_in(Some(start.seq_text@)) == w.recording_seq + 1,
{
    a_number_reads_back_as_it_was_written(next_seq(w.recording_seq) as nat, u64::MAX as nat);
}

/// Recordings of the same second differ in their names where they differ in their numbers.
pub proof fn numbered_recordings_have_names_of_their_own(
    date: Seq<char>,
    time: Seq<char>,
    a: u64,
    b: u64,
)
    requires
        recording_name(date, time, a) == recording_name(date, time, b),
    ensures
        a == b,
{
    let front = "recording-"@ + date + "_"@ + time + "-"@;
    let name = recording_name(date, time, a);
    let back = ".mp4"@;
    let n = name.len() - back.len();
    assert(name.subrange(front.len() as int, n) =~= dec(a as nat));
    assert(recording_name(date, time, b).subrange(front.len() as int, n) =~= dec(b as nat));
    decimal_is_unique(a as nat, b as nat);
}

/// A recording runs with what the settings say, and begins with the idle capture stopped and the
/// pick given up; nothing else of the window changes but what it says.
pub proof fn a_recording_is_planned_by_the_settings(
    w: AppWindow,
    after: AppWindow,
    plan: RecordingPlan,
)
    requires
        w.record_pressed(after, Some(plan)),
    ensures
        plan.stop_live_view == w.live_view,
        plan.encoder.fps == w.model.settings.fps,
        plan.encoder.preset == w.model.settings.preset,
        plan.encoder.bitrate_kbps == w.model.settings.bitrate_kbps,
        plan.encoder.codec@ == "h264"@,
        plan.capture.region == w.model.settings.region(),
        plan.capture.fps == 30 && plan.capture.buffer_capacity == 8,
        plan.capture.drop_policy == DropPolicy::DropNewest,
        !after.live_view && after.pending_pick is None,
        w.live_view ==> !after.has_preview && !after.preview_shown,
        !w.live_view ==> after.has_preview == w.has_preview && after.preview_shown
            == w.preview_shown,
        after == (AppWindow {
            model: UiModel { diagnostics: after.model.diagnostics, ..w.model },
            live_view: after.live_view,
            pending_pick: after.pending_pick,
            has_preview: after.has_preview,
            preview_shown: after.preview_shown,
            ..w
        }),
{
}

/// The muxer writes the file that the window says it writes, whenever it is asked, for five hours
/// at most; it lies in the output folder, and the number of the next recording lies beside it.
pub proof fn a_recording_goes_where_the_window_says(
    w: AppWindow,
    start: RecordingStart,
    date: Seq<char>,
    time: Seq<char>,
    other_date: Seq<char>,
    other_time: Seq<char>,
)
    requires
        w.starts(start, date, time),
    ensures
        start.muxer.path_at(other_date, other_time) == start.output_path@,
        start.muxer.base_output_path@ == w.model.settings.output_folder@,
        start.muxer.max_duration.secs * 1_000_000_000 + start.muxer.max_duration.nanos == 5 * 3600
            * 1_000_000_000,
        start.muxer.fps == w.model.settings.fps,
        ({
            let folder = w.model.settings.output_folder@;
            let name = "recording-"@ + date + "_"@ + time + "-"@ + dec(w.recording_seq as nat)
                + ".mp4"@;
            folder.len() > 0 && folder.last() != '/' ==> {
                &&& start.output_path@ == folder + seq!['/'] + name
                &&& start.seq_path@ == folder + seq!['/'] + ".bsr_fragment_seq"@
            }
        }),
{
    reveal_strlit("recording-");
    reveal_strlit(".bsr_fragment_seq");
    let folder = w.model.settings.output_folder@;
    let name = recording_name(date, time, w.recording_seq);
    assert(name[0] == 'r');
    assert(joined(folder, name) =~= folder.push('/') + name || folder.len() == 0 || folder.last()
        == '/');
    assert(folder.push('/') + name =~= folder + seq!['/'] + name);
    assert(folder.push('/') + ".bsr_fragment_seq"@ =~= folder + seq!['/'] + ".bsr_fragment_seq"@);
}

/// A recording that starts has the next number set aside, runs from now on into its own file, and
/// hides the window where that is asked for. The settings stay.
pub proof fn a_started_recording_is_under_way(
    w: AppWindow,
    path: Option<String>,
    now: u64,
    model: UiModel,
)
    ensures
        ({
            let after = w.recording_into(path, now, model);
            &&& after.model.status == RecordingStatus::Recording
            &&& after.model.settings == w.model.settings
            &&& after.current_recording_path == path
            &&& after.recording_start == Some(now)
            &&& w.recording_seq < u64::MAX ==> after.recording_seq == w.recording_seq + 1
            &&& w.recording_seq == u64::MAX ==> after.recording_seq == u64::MAX
            &&& after.pipeline && after.has_preview
            &&& w.model.settings.minimize_while_recording ==> after.pending_window_cmd == Some(true)
            &&& !w.model.settings.minimize_while_recording ==> after.pending_window_cmd
                == w.pending_window_cmd
            &&& after.finalizing == w.finalizing && after.pending_auto_restart
                == w.pending_auto_restart
            &&& after.live_view == w.live_view && after.pending_pick == w.pending_pick
            &&& after.pending_local_save == w.pending_local_save && after.save_dest_folder
                == w.save_dest_folder
        }),
{
}

/// Stop ends a recording that is running and nothing else: the recorder shuts down, and waits for
/// the file where a pipeline was running. What was recorded stays known.
pub proof fn a_stop_ends_the_recording(w: AppWindow, after: AppWindow, r: Option<StopAction>)
    requires
        w.stop_pressed(after, r),
    ensures
        r is Some <==> w.model.status == RecordingStatus::Recording,
        r is None ==> after == w,
        r matches Some(action) ==> {
            &&& action.stop_pipeline == w.pipeline
            &&& after.model.status == RecordingStatus::ShuttingDown
            &&& after.recording_start is None
            &&& after.current_recording_path == w.current_recording_path
            &&& after.recording_seq == w.recording_seq
            &&& after.model.settings == w.model.settings
            &&& w.pipeline ==> !after.pipeline && after.finalizing && !after.has_preview
                && !after.preview_shown
            &&& !w.pipeline ==> after.finalizing == w.finalizing && !after.pipeline
            &&& after.pending_local_save == w.pending_local_save
        },
{
}

/// Once a file is finalised the recorder is idle again and the window comes back. The file is
/// offered under its own name, in the folder that stands in the field or, where that is empty, in
/// the default one; others are offered its path where they can be reached.
pub proof fn a_finalised_file_is_offered(
    w: AppWindow,
    poll: FinalizePoll,
    file_is_empty: bool,
    env: Environment,
    after: AppWindow,
    offered: Option<Seq<char>>,
    folder: Seq<char>,
    name: Seq<char>,
)
    requires
        w.finalizing,
        poll !is Pending,
        w.finalized(poll, file_is_empty, env, after, offered),
        folder.len() > 0 && folder.last() != '/' && folder.last() != '.',
        plain_name(name),
    ensures
        after.model.status == RecordingStatus::Idle,
        !after.finalizing,
        after.pending_window_cmd == Some(false),
        after.current_recording_path == w.current_recording_path,
        after.model.settings == w.model.settings,
        w.current_recording_path is None ==> offered is None && after.pending_local_save
            == w.pending_local_save,
        w.current_recording_path matches Some(path) ==> {
            &&& offered == (if w.has_ipc_client { Some(path@) } else { None })
            &&& after.save_status is None
            &&& path@ == folder + seq!['/'] + name ==> opt_text(after.pending_local_save) == Some(
                name,
            )
            &&& w.save_dest_folder@.len() > 0 ==> after.save_dest_folder@ == w.save_dest_folder@
            &&& w.save_dest_folder@.len() == 0 ==> after.save_dest_folder@ == save_folder(env)
        },
{
    a_file_is_known_by_its_folder_and_its_name(folder, name);
    assert(name[0] != '/');
    assert(joined(folder, name) =~= folder + seq!['/'] + name);
}

/// How finalising ended is said as it is: what went wrong where something did, and that nothing
/// was recorded where the file is empty.
pub proof fn the_end_of_a_recording_is_told_as_it_is(cause: Seq<char>)
    ensures
        finalized_line(Ok(()), false) == "Recording finalised and ready to save."@,
        finalized_line(Ok(()), true)
            == "Finalising produced an EMPTY recording — no video data reached the muxer. The file is not usable."@,
        forall|empty: bool| #[trigger]
            finalized_line(Err(cause), empty) == "Finalising failed ("@ + cause
                + ") — the file may be incomplete or unplayable."@,
{
}

/// The number of the next recording is the one that its file holds, white space around it or not,
/// and one where it holds none.
pub proof fn the_next_number_is_read_from_its_file(n: u64, contents: Seq<char>)
    ensures
        sequence_in(None) == 1,
        trimmed(contents) == dec(n as nat) ==> sequence_in(Some(contents)) == n,
        unsigned_value(trimmed(contents), u64::MAX as nat) is None ==> sequence_in(Some(contents))
            == 1,
{
    a_number_reads_back_as_it_was_written(n as nat, u64::MAX as nat);
}

/// A window opens with what the configuration says, and with the default where it says nothing.
pub proof fn a_window_opens_as_configured(settings: UiSettings, config: BsrConfig, env: Environment)
    requires
        AppWindow::seeded(settings, config, env),
    ensures
        config.capture.fps > 0 ==> settings.fps == config.capture.fps,
        config.capture.fps == 0 ==> settings.fps == 60,
        config.encoder.bitrate_kbps > 0 ==> settings.bitrate_kbps == config.encoder.bitrate_kbps,
        config.encoder.bitrate_kbps == 0 ==> settings.bitrate_kbps == 8000,
        trimmed(config.output.output_folder@).len() > 0 ==> settings.output_folder@
            == config.output.output_folder@,
        trimmed(config.output.output_folder@).len() == 0 ==> settings.output_folder@
            == recordings_folder(env),
        config.encoder.preset is Fast ==> settings.preset@ == "ultrafast"@,
        config.encoder.preset is Balanced ==> settings.preset@ == "superfast"@,
        config.encoder.preset is Quality ==> settings.preset@ == "veryfast"@,
        settings.screen() == (1920u32, 1080u32),
        config.capture.region is None ==> settings.crop_left + settings.crop_top
            + settings.crop_right + settings.crop_bottom == 0,
        config.capture.region matches Some(r) ==> (0 <= r.x1 && r.x1 + 2 <= r.x2 <= 1920 && 0 <= r.y1
            && r.y1 + 2 <= r.y2 <= 1080 && (r.x2 - r.x1) % 2 == 0 && (r.y2 - r.y1) % 2 == 0 ==> {
            &&& settings.crop_left == r.x1 && settings.crop_top == r.y1
            &&& settings.crop_right == 1920 - r.x2 && settings.crop_bottom == 1080 - r.y2
        }),
{
    reveal(CaptureRegion::resolved);
}

/// What the window says, it says where there is a reason, and saying it changes nothing else.
pub proof fn saying_a_line_changes_nothing_else(
    w: AppWindow,
    d: UiDiagnostics,
    log: Seq<Seq<char>>,
    line: Seq<char>,
)
    ensures
        w.relogged(d) == (AppWindow { model: UiModel { diagnostics: d, ..w.model }, ..w }),
        w.with_status(RecordingStatus::Idle) == (AppWindow {
            model: UiModel { status: RecordingStatus::Idle, ..w.model },
            ..w
        }),
        logged_if(log, true, line) == logged(log, line),
        logged_if(log, false, line) == log,
{
}

/// A cropped recording is announced by its size and its corners.
pub proof fn a_cropped_recording_is_announced(size: (u32, u32), r: CaptureRegion)
    ensures
        cropped_line(size, r) == "Recording cropped region "@ + dec(size.0 as nat) + "x"@ + dec(
            size.1 as nat,
        ) + " (from "@ + signed_dec(r.x1 as int) + ","@ + signed_dec(r.y1 as int) + " to "@
            + signed_dec(r.x2 as int) + ","@ + signed_dec(r.y2 as int) + ")."@,
{
}

/// Stopping the idle capture takes its picture away, and nothing else.
pub proof fn a_stopped_live_view_leaves_no_picture(w: AppWindow)
    ensures
        w.live_view ==> w.without_live_view() == (AppWindow {
            live_view: false,
            has_preview: false,
            preview_shown: false,
            ..w
        }),
        !w.live_view ==> w.without_live_view() == w,
        w.about_to_record().pending_pick is None && !w.about_to_record().live_view,
{
}

} // verus!
