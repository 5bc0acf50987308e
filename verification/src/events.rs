//! What reaches the window from outside in the course of a frame: the tray, the hotkey, the
//! recorder's reports, the clock and requests for consent.
use vstd::prelude::*;
use vstd::string::*;

use crate::buffer::newest;
use crate::config::Environment;
use crate::ipc::TelemetryEvent;
use crate::mux::MuxerTelemetry;
use crate::preview::{is_paintable, PreviewImage};
use crate::text::{dec, decimal, opt_text, same};
use crate::ui_model::{
    count, lemma_timed_on, logged, RecordingStatus, UiModel, UiTelemetry, MAX_SAMPLES,
};
use crate::window::{logged_if, AppWindow, FinalizePoll, RecordingPlan, StopAction};

verus! {

/// A command to the desktop about the window.
#[derive(Debug, Clone, Copy, PartialEq, Eq, Structural)]
pub enum ViewportAction {
    Focus,
    Minimized(bool),
}

/// What follows an entry of the tray menu, or the hotkey.
#[derive(Debug, Clone)]
pub enum Trigger {
    Nothing,
    Record(RecordingPlan),
    Stop(StopAction),
    /// Leave the program, after stopping what is running.
    Exit(Option<StopAction>),
}

/// What follows from the time that has passed.
#[derive(Debug, Clone)]
pub enum LimitAction {
    Nothing,
    Stop(StopAction),
    Restart(RecordingPlan),
}

/// How long a recording runs before it is continued in a new file, in nanoseconds.
pub const ROLLOVER_NANOS: u64 = 3_600_000_000_000;

/// How long after that the new recording starts at the earliest, in nanoseconds.
pub const RESTART_NANOS: u64 = 250_000_000;

/// What the tray menu offers, and whether the entry is enabled.
pub fn tray_menu() -> (r: Vec<(&'static str, bool)>)
    ensures
        r@.len() == 4,
        r@[0].0@ == "Open"@ && r@[0].1,
        r@[1].0@ == "Start Recording"@ && r@[1].1,
        r@[2].0@ == "Stop Recording"@ && !r@[2].1,
        r@[3].0@ == "Exit"@ && r@[3].1,
{
    let mut r: Vec<(&'static str, bool)> = Vec::new();
    r.push(("Open", true));
    r.push(("Start Recording", true));
    r.push(("Stop Recording", false));
    r.push(("Exit", true));
    r
}

impl AppWindow {
    /// The commands that are due at the start of a frame.
    pub open spec fn due_commands(self) -> Seq<ViewportAction> {
        let raise = if self.needs_initial_raise {
            seq![ViewportAction::Focus]
        } else {
            seq![]
        };
        match self.pending_window_cmd {
            Some(true) => raise.push(ViewportAction::Minimized(true)),
            Some(false) => raise.push(ViewportAction::Minimized(false)).push(ViewportAction::Focus),
            None => raise,
        }
    }

    /// How the start of a frame leaves the window.
    pub open spec fn begun(self, esc_pressed: bool, after: AppWindow) -> bool {
        &&& after == (AppWindow {
            needs_initial_raise: false,
            pending_window_cmd: None,
            pending_pick: if esc_pressed {
                None
            } else {
                self.pending_pick
            },
            ..self
        }).relogged(after.model.diagnostics)
        &&& after.log() == logged_if(
            self.log(),
            esc_pressed && self.pending_pick is Some,
            "Corner pick cancelled ("@ + "Esc"@ + ")."@,
        )
        &&& after.timed_since(self, count(esc_pressed && self.pending_pick is Some))
    }

    /// A frame begins. The window comes to the front at the first frame; a change that was asked
    /// for is made once; Esc disarms a corner that waits for a click.
    pub fn tick_begin(&mut self, esc_pressed: bool) -> (r: Vec<ViewportAction>)
        requires
            old(self).wf(),
        ensures
            final(self).wf(),
            r@ == old(self).due_commands(),
            old(self).begun(esc_pressed, *final(self)),
    {
        let r = self.take_commands();
        if esc_pressed {
            self.cancel_pick("Esc");
        }
        r
    }

    fn take_commands(&mut self) -> (r: Vec<ViewportAction>)
        ensures
            r@ == old(self).due_commands(),
            *final(self) == (AppWindow {
                needs_initial_raise: false,
                pending_window_cmd: None,
                ..*old(self)
            }),
    {
        let mut r: Vec<ViewportAction> = Vec::new();
        if self.needs_initial_raise {
            r.push(ViewportAction::Focus);
        }
        if let Some(minimize) = self.pending_window_cmd {
            r.push(ViewportAction::Minimized(minimize));
            if !minimize {
                r.push(ViewportAction::Focus);
            }
        }
        assert(r@ =~= self.due_commands());
        self.needs_initial_raise = false;
        self.pending_window_cmd = None;
        r
    }

    /// This window with another change due.
    pub open spec fn with_window_cmd(self, cmd: Option<bool>) -> AppWindow {
        AppWindow { pending_window_cmd: cmd, ..self }
    }

    /// How Record leaves the window, with what follows as an action.
    pub open spec fn record_triggered(self, after: AppWindow, r: Trigger) -> bool {
        match r {
            Trigger::Record(plan) => self.record_pressed(after, Some(plan)),
            Trigger::Nothing => self.record_pressed(after, None),
            _ => false,
        }
    }

    /// How Stop leaves the window, with what follows as an action.
    pub open spec fn stop_triggered(self, after: AppWindow, r: Trigger) -> bool {
        match r {
            Trigger::Stop(stop) => self.stop_pressed(after, Some(stop)),
            Trigger::Nothing => self.stop_pressed(after, None),
            _ => false,
        }
    }

    /// An entry of the tray menu is chosen. After a stop the window comes back, to show the
    /// result and the save dialog.
    pub fn on_menu_event(&mut self, id: &str) -> (r: Trigger)
        requires
            old(self).wf(),
        ensures
            final(self).wf(),
            if id@ == "Open"@ {
                r is Nothing && *final(self) == old(self).with_window_cmd(Some(false))
            } else if id@ == "Start Recording"@ {
                old(self).record_triggered(*final(self), r)
            } else if id@ == "Stop Recording"@ {
                &&& final(self).pending_window_cmd == Some(false)
                &&& old(self).stop_triggered(
                    final(self).with_window_cmd(old(self).pending_window_cmd),
                    r,
                )
            } else if id@ == "Exit"@ {
                r matches Trigger::Exit(stop) && old(self).stop_pressed(*final(self), stop)
            } else {
                r is Nothing && *final(self) == *old(self)
            },
    {
        if same(id, "Open") {
            self.pending_window_cmd = Some(false);
            Trigger::Nothing
        } else if same(id, "Start Recording") {
            match self.on_record_pressed() {
                Some(plan) => Trigger::Record(plan),
                None => Trigger::Nothing,
            }
        } else if same(id, "Stop Recording") {
            let stop = self.on_stop_pressed();
            let ghost stopped = *self;
            self.pending_window_cmd = Some(false);
            assert(stopped == self.with_window_cmd(old(self).pending_window_cmd));
            match stop {
                Some(s) => Trigger::Stop(s),
                None => Trigger::Nothing,
            }
        } else if same(id, "Exit") {
            Trigger::Exit(self.on_stop_pressed())
        } else {
            Trigger::Nothing
        }
    }

    /// A hotkey is pressed or released. The record hotkey stops a recording that is running and
    /// starts one otherwise.
    pub fn on_hotkey(&mut self, id: u32, pressed: bool) -> (r: Trigger)
        requires
            old(self).wf(),
        ensures
            final(self).wf(),
            if old(self).record_hotkey_id != Some(id) || !pressed {
                r is Nothing && *final(self) == *old(self)
            } else if old(self).model.status == RecordingStatus::Recording {
                old(self).stop_triggered(*final(self), r)
            } else {
                old(self).record_triggered(*final(self), r)
            },
    {
        let ours = match self.record_hotkey_id {
            Some(own) => own == id,
            None => false,
        };
        if !ours || !pressed {
            return Trigger::Nothing;
        }
        if self.model.status == RecordingStatus::Recording {
            match self.on_stop_pressed() {
                Some(s) => Trigger::Stop(s),
                None => Trigger::Nothing,
            }
        } else {
            match self.on_record_pressed() {
                Some(plan) => Trigger::Record(plan),
                None => Trigger::Nothing,
            }
        }
    }

    /// A report about the recording arrives.
    pub fn on_telemetry(&mut self, event: &TelemetryEvent)
        requires
            old(self).wf(),
        ensures
            final(self).wf(),
            match *event {
                TelemetryEvent::RecordingStarted => old(self).saying(
                    *final(self),
                    "Telemetry: recording started"@,
                ),
                TelemetryEvent::RecordingStopped => old(self).with_status(
                    RecordingStatus::Idle,
                ).saying(*final(self), "Telemetry: recording stopped"@),
                TelemetryEvent::ErrorOccurred { message } => old(self).saying(
                    *final(self),
                    "Error: "@ + message@,
                ),
                _ => *final(self) == *old(self),
            },
    {
        match event {
            TelemetryEvent::RecordingStarted => {
                self.say("Telemetry: recording started");
            },
            TelemetryEvent::RecordingStopped => {
                self.model.status = RecordingStatus::Idle;
                self.say("Telemetry: recording stopped");
            },
            TelemetryEvent::ErrorOccurred { message } => {
                let line = String::from_str("Error: ").concat(message.as_str());
                self.say(line.as_str());
            },
            _ => {},
        }
    }

    /// What is said about the muxer; `write` is the latency of the last write in milliseconds.
    pub open spec fn muxer_line(mt: MuxerTelemetry, write: Seq<char>) -> Seq<char> {
        "Muxer: size="@ + dec(mt.file_size_bytes as nat) + " bytes, duration="@ + dec(
            mt.duration_secs as nat,
        ) + " s, write="@ + write + " ms"@
    }

    /// How a report of the muxer leaves the window.
    pub open spec fn muxer_reported(
        self,
        mt: MuxerTelemetry,
        latency_bits: u32,
        latency_text: Seq<char>,
        after: AppWindow,
    ) -> bool {
        &&& after == (AppWindow {
            model: UiModel {
                status: if mt.max_duration_reached {
                    RecordingStatus::Idle
                } else {
                    self.model.status
                },
                telemetry: UiTelemetry {
                    file_size_bytes: mt.file_size_bytes,
                    recording_duration_secs: mt.duration_secs,
                    latency_samples: after.model.telemetry.latency_samples,
                    ..self.model.telemetry
                },
                ..self.model
            },
            ..self
        }).relogged(after.model.diagnostics)
        &&& after.model.telemetry.latency_samples@ == newest(
            self.model.telemetry.latency_samples@.push(latency_bits),
            MAX_SAMPLES as nat,
        )
        &&& after.log() == logged_if(
            logged(self.log(), Self::muxer_line(mt, latency_text)),
            mt.max_duration_reached,
            "Recording stopped automatically: 5‑hour limit reached."@,
        )
        &&& after.timed_since(self, 1 + count(mt.max_duration_reached))
    }

    /// A report of the muxer arrives. `latency_bits` is its write latency as the bits of a
    /// single-precision number, and `latency_text` the same number with one decimal.
    pub fn on_muxer_telemetry(&mut self, mt: &MuxerTelemetry, latency_bits: u32, latency_text: &str)
        requires
            old(self).wf(),
        ensures
            final(self).wf(),
            old(self).muxer_reported(*mt, latency_bits, latency_text@, *final(self)),
    {
        self.model.telemetry.file_size_bytes = mt.file_size_bytes;
        self.model.telemetry.recording_duration_secs = mt.duration_secs;
        self.model.telemetry.update_smoothed_latency(latency_bits);
        let mut line = String::from_str("Muxer: size=");
        line.append(decimal(mt.file_size_bytes).as_str());
        line.append(" bytes, duration=");
        line.append(decimal(mt.duration_secs).as_str());
        line.append(" s, write=");
        line.append(latency_text);
        line.append(" ms");
        self.say(line.as_str());
        if mt.max_duration_reached {
            let ghost between = *self;
            self.say("Recording stopped automatically: 5‑hour limit reached.");
            self.model.status = RecordingStatus::Idle;
            proof {
                lemma_timed_on(
                    old(self).model.diagnostics.times(),
                    between.model.diagnostics.times(),
                    self.model.diagnostics.times(),
                    1,
                    1,
                );
            }
        }
    }

    /// How a request to record leaves the window, and whether it is shown.
    pub open spec fn consent_asked(
        self,
        requester: Option<String>,
        after: AppWindow,
        shown: bool,
    ) -> bool {
        &&& shown == (self.pending_consent is None)
        &&& after == (if shown {
            AppWindow { pending_consent: Some(requester), ..self }
        } else {
            self
        })
    }

    /// Someone asks to record. One request is shown at a time: a second one is declined at once,
    /// which is what `false` means.
    pub fn on_consent_request(&mut self, requester: Option<String>) -> (shown: bool)
        ensures
            old(self).consent_asked(requester, *final(self), shown),
    {
        if self.pending_consent.is_some() {
            false
        } else {
            self.pending_consent = Some(requester);
            true
        }
    }

    /// The request that is shown is answered. Returns whether there was one.
    pub fn answer_consent(&mut self) -> (r: bool)
        ensures
            r == (old(self).pending_consent is Some),
            *final(self) == (AppWindow { pending_consent: None, ..*old(self) }),
    {
        let r = self.pending_consent.is_some();
        self.pending_consent = None;
        r
    }

    /// Who asks to record, as the dialog shows it.
    pub fn requester_text(&self) -> (r: Option<String>)
        ensures
            opt_text(r) == match self.pending_consent {
                Some(Some(name)) => Some("Requester: "@ + name@),
                _ => None,
            },
    {
        match &self.pending_consent {
            Some(Some(name)) => Some(String::from_str("Requester: ").concat(name.as_str())),
            _ => None,
        }
    }

    /// The newest preview picture arrives. Returns whether it is shown.
    pub fn on_preview_image(&mut self, img: &PreviewImage) -> (shown: bool)
        ensures
            shown == (old(self).has_preview && img.width > 0 && img.height > 0 && img.data@.len()
                > 0),
            *final(self) == (AppWindow {
                preview_shown: old(self).preview_shown || shown,
                ..*old(self)
            }),
    {
        if self.has_preview && is_paintable(img) {
            self.preview_shown = true;
            true
        } else {
            false
        }
    }

    /// Has the recording run for so long that it is continued in a new file?
    pub open spec fn rolls_over(self, now: u64) -> bool {
        &&& self.model.status == RecordingStatus::Recording
        &&& self.recording_start matches Some(start) && now - start >= ROLLOVER_NANOS
    }

    /// Is it time for that file?
    pub open spec fn restarts(self, now: u64) -> bool {
        &&& self.model.status == RecordingStatus::Idle
        &&& self.pending_auto_restart matches Some(at) && now - at >= RESTART_NANOS
    }

    /// This window with another time for the restart.
    pub open spec fn with_restart_at(self, at: Option<u64>) -> AppWindow {
        AppWindow { pending_auto_restart: at, ..self }
    }

    /// This window with a line said.
    pub open spec fn saying(self, after: AppWindow, line: Seq<char>) -> bool {
        &&& after == self.relogged(after.model.diagnostics)
        &&& after.log() == logged(self.log(), line)
        &&& after.timed_since(self, 1)
    }

    /// How the clock leaves the window, and what follows.
    pub open spec fn limited(self, now: u64, after: AppWindow, r: LimitAction) -> bool {
        if self.rolls_over(now) {
            &&& r == LimitAction::Stop(StopAction { stop_pipeline: self.pipeline })
            &&& after == self.stopped().with_restart_at(Some(now)).relogged(
                after.model.diagnostics,
            )
            &&& after.log() == logged(
                logged(self.log(), "Recording reached 60-minute limit; rolling over."@),
                "Recording stopped — finalising the file…"@,
            )
            &&& after.timed_since(self, 2)
        } else if self.restarts(now) {
            &&& r matches LimitAction::Restart(plan) && self.plans(plan)
            &&& after == self.about_to_record().with_restart_at(None).relogged(
                after.model.diagnostics,
            )
            &&& after.log() == self.record_log(
                logged(self.log(), "Auto-restarting recording after rollover."@),
            )
            &&& after.timed_since(self, 1 + self.record_lines())
        } else {
            r is Nothing && after == self
        }
    }

    /// Enforces the hour after which a recording rolls over: it is stopped, and a new one starts
    /// once it is finalised and a quarter of a second has passed. `now` is in nanoseconds on the
    /// monotonic clock.
    pub fn enforce_limits(&mut self, now: u64) -> (r: LimitAction)
        requires
            old(self).wf(),
        ensures
            final(self).wf(),
            old(self).limited(now, *final(self), r),
    {
        let rolls_over = match self.recording_start {
            Some(start) => self.model.status == RecordingStatus::Recording && now >= start && now
                - start >= ROLLOVER_NANOS,
            None => false,
        };
        let restarts = match self.pending_auto_restart {
            Some(at) => self.model.status == RecordingStatus::Idle && now >= at && now - at
                >= RESTART_NANOS,
            None => false,
        };
        if rolls_over {
            LimitAction::Stop(self.roll_over(now))
        } else if restarts {
            LimitAction::Restart(self.restart())
        } else {
            LimitAction::Nothing
        }
    }

    fn roll_over(&mut self, now: u64) -> (r: StopAction)
        requires
            old(self).wf(),
            old(self).model.status == RecordingStatus::Recording,
        ensures
            final(self).wf(),
            r == (StopAction { stop_pipeline: old(self).pipeline }),
            *final(self) == old(self).stopped().with_restart_at(Some(now)).relogged(
                final(self).model.diagnostics,
            ),
            final(self).log() == logged(
                logged(old(self).log(), "Recording reached 60-minute limit; rolling over."@),
                "Recording stopped — finalising the file…"@,
            ),
            final(self).timed_since(*old(self), 2),
    {
        self.say("Recording reached 60-minute limit; rolling over.");
        let ghost between = *self;
        let stop = self.stop_recording();
        self.pending_auto_restart = Some(now);
        proof {
            lemma_timed_on(
                old(self).model.diagnostics.times(),
                between.model.diagnostics.times(),
                self.model.diagnostics.times(),
                1,
                1,
            );
        }
        stop
    }

    fn restart(&mut self) -> (r: RecordingPlan)
        requires
            old(self).wf(),
            old(self).model.status == RecordingStatus::Idle,
        ensures
            final(self).wf(),
            old(self).plans(r),
            *final(self) == old(self).about_to_record().with_restart_at(None).relogged(
                final(self).model.diagnostics,
            ),
            final(self).log() == old(self).record_log(
                logged(old(self).log(), "Auto-restarting recording after rollover."@),
            ),
            final(self).timed_since(*old(self), 1 + old(self).record_lines()),
    {
        self.pending_auto_restart = None;
        self.say("Auto-restarting recording after rollover.");
        let ghost between = *self;
        let plan = self.plan_recording();
        proof {
            lemma_timed_on(
                old(self).model.diagnostics.times(),
                between.model.diagnostics.times(),
                self.model.diagnostics.times(),
                1,
                between.record_lines(),
            );
        }
        plan
    }

    /// Does the record button take clicks?
    pub fn record_enabled(&self) -> (r: bool)
        ensures
            r == (self.model.status != RecordingStatus::Recording),
    {
        self.model.status != RecordingStatus::Recording
    }

    /// Does the stop button take clicks?
    pub fn stop_enabled(&self) -> (r: bool)
        ensures
            r == (self.model.status == RecordingStatus::Recording),
    {
        self.model.status == RecordingStatus::Recording
    }
}

/// A change of the window that was asked for is made in one frame and not again in the next,
/// and the window is raised of its own accord only once.
pub proof fn a_window_change_is_made_once(w: AppWindow, esc_pressed: bool, after: AppWindow)
    requires
        w.begun(esc_pressed, after),
    ensures
        after.due_commands() == Seq::<ViewportAction>::empty(),
{
    assert(after.due_commands() =~= Seq::empty());
}

/// A recording that rolls over is stopped, and once its file is finalised, a quarter of a second
/// later, the next one starts; not before.
pub proof fn a_rolled_over_recording_is_continued(
    w: AppWindow,
    now: u64,
    stopped: AppWindow,
    action: LimitAction,
    poll: FinalizePoll,
    file_is_empty: bool,
    env: Environment,
    ended: AppWindow,
    offered: Option<Seq<char>>,
    later: u64,
    after: AppWindow,
    next: LimitAction,
)
    requires
        w.pipeline,
        w.rolls_over(now),
        w.limited(now, stopped, action),
        stopped.finalized(poll, file_is_empty, env, ended, offered),
        ended.limited(later, after, next),
    ensures
        action is Stop,
        next is Restart <==> poll !is Pending && later - now >= RESTART_NANOS,
        next !is Restart ==> after == ended,
        next is Restart ==> after.pending_auto_restart is None,
{
}

/// Why the idle capture could not start.
pub fn live_view_unavailable(error: &str) -> (r: String)
    ensures
        r@ == "Live view unavailable: "@ + error@,
{
    String::from_str("Live view unavailable: ").concat(error)
}

/// Why the idle capture ended.
pub fn live_view_stopped(error: &str) -> (r: String)
    ensures
        r@ == "Live view stopped: "@ + error@,
{
    String::from_str("Live view stopped: ").concat(error)
}

/// The window shows the size and the duration that the muxer reports, and is idle once the longest
/// duration is reached; of the latencies it keeps the last ten.
pub proof fn a_report_is_shown_as_it_came(
    w: AppWindow,
    mt: MuxerTelemetry,
    latency_bits: u32,
    latency_text: Seq<char>,
    after: AppWindow,
    i: int,
)
    requires
        w.model.telemetry.latency_samples@.len() <= 10,
        w.muxer_reported(mt, latency_bits, latency_text, after),
    ensures
        after.model.telemetry.file_size_bytes == mt.file_size_bytes,
        after.model.telemetry.recording_duration_secs == mt.duration_secs,
        after.model.telemetry.frames_captured == w.model.telemetry.frames_captured,
        after.model.telemetry.frames_dropped == w.model.telemetry.frames_dropped,
        after.model.telemetry.packets_encoded == w.model.telemetry.packets_encoded,
        mt.max_duration_reached ==> after.model.status == RecordingStatus::Idle,
        !mt.max_duration_reached ==> after.model.status == w.model.status,
        after.model.settings == w.model.settings,
        ({
            let old = w.model.telemetry.latency_samples@;
            let new = after.model.telemetry.latency_samples@;
            &&& new.len() == (if old.len() < 10 { old.len() + 1 } else { 10 })
            &&& new.last() == latency_bits
            &&& 0 <= i < new.len() - 1 ==> new[i] == old[if old.len() < 10 { i } else { i + 1 }]
        }),
{
}

/// A recording rolls over once it has run for an hour: it is stopped, and the moment is kept. A
/// quarter of a second later, once the recorder is idle, the next recording starts, and the moment
/// is forgotten. At any other time nothing happens.
pub proof fn a_recording_rolls_over_after_an_hour(
    w: AppWindow,
    now: u64,
    after: AppWindow,
    r: LimitAction,
)
    requires
        w.limited(now, after, r),
    ensures
        ({
            let hour_over = w.model.status == RecordingStatus::Recording && (
            w.recording_start matches Some(start) && start + 60 * 60 * 1_000_000_000 <= now);
            let pause_over = w.model.status == RecordingStatus::Idle && (
            w.pending_auto_restart matches Some(at) && at + 250 * 1_000_000 <= now);
            &&& r is Stop <==> hour_over
            &&& r is Restart <==> pause_over
            &&& r is Nothing ==> after == w
            &&& r is Stop ==> {
                &&& after.model.status == RecordingStatus::ShuttingDown
                &&& after.pending_auto_restart == Some(now)
                &&& after.recording_start is None
                &&& r == LimitAction::Stop(StopAction { stop_pipeline: w.pipeline })
                &&& w.pipeline ==> after.finalizing && !after.pipeline
            }
            &&& r is Restart ==> {
                &&& after.pending_auto_restart is None
                &&& after.model.status == RecordingStatus::Idle
                &&& !after.live_view && after.pending_pick is None
            }
            &&& after.model.settings == w.model.settings
            &&& after.recording_seq == w.recording_seq
            &&& after.current_recording_path == w.current_recording_path
        }),
{
}

/// The next recording of a rolled-over one is planned like any other.
pub proof fn a_restart_is_planned_like_a_start(
    w: AppWindow,
    now: u64,
    after: AppWindow,
    plan: RecordingPlan,
    pressed: AppWindow,
    other: RecordingPlan,
)
    requires
        w.limited(now, after, LimitAction::Restart(plan)),
        w.record_pressed(pressed, Some(other)),
    ensures
        plan.capture == other.capture,
        plan.stop_live_view == other.stop_live_view,
        plan.encoder.width == other.encoder.width && plan.encoder.height == other.encoder.height,
        plan.encoder.fps == other.encoder.fps,
        plan.encoder.preset == other.encoder.preset,
        plan.encoder.bitrate_kbps == other.encoder.bitrate_kbps,
{
}

/// What the desktop is asked at the start of a frame: to raise the window the first time, and to
/// hide it or to bring it back where that is due. Then it is due no more; Esc gives up a pick.
pub proof fn a_frame_asks_for_what_is_due(w: AppWindow, esc_pressed: bool, after: AppWindow)
    requires
        w.begun(esc_pressed, after),
    ensures
        ({
            let due = w.due_commands();
            let first: int = if w.needs_initial_raise { 1 } else { 0 };
            &&& w.needs_initial_raise ==> due[0] == ViewportAction::Focus
            &&& w.pending_window_cmd is None ==> due.len() == first
            &&& w.pending_window_cmd == Some(true) ==> due.len() == first + 1 && due[first]
                == ViewportAction::Minimized(true)
            &&& w.pending_window_cmd == Some(false) ==> due.len() == first + 2 && due[first]
                == ViewportAction::Minimized(false) && due[first + 1] == ViewportAction::Focus
        }),
        !after.needs_initial_raise && after.pending_window_cmd is None,
        esc_pressed ==> after.pending_pick is None,
        !esc_pressed ==> after.pending_pick == w.pending_pick && after.log() == w.log(),
        after == (AppWindow {
            model: UiModel { diagnostics: after.model.diagnostics, ..w.model },
            needs_initial_raise: after.needs_initial_raise,
            pending_window_cmd: after.pending_window_cmd,
            pending_pick: after.pending_pick,
            ..w
        }),
{
}

/// The record hotkey and the entries of the tray menu do what the buttons do: a stop leads to a
/// stop and a start to a recording, or to nothing where the button would do nothing.
pub proof fn triggers_do_what_the_buttons_do(w: AppWindow, after: AppWindow, r: Trigger)
    ensures
        w.record_triggered(after, r) ==> {
            &&& r is Record || r is Nothing
            &&& r is Record <==> w.model.status == RecordingStatus::Idle
            &&& r matches Trigger::Record(plan) ==> w.record_pressed(after, Some(plan))
            &&& r is Nothing ==> after == w
        },
        w.stop_triggered(after, r) ==> {
            &&& r is Stop || r is Nothing
            &&& r is Stop <==> w.model.status == RecordingStatus::Recording
            &&& r matches Trigger::Stop(stop) ==> w.stop_pressed(after, Some(stop))
            &&& r is Nothing ==> after == w
        },
{
}

/// A report of the muxer is said in its numbers.
pub proof fn a_report_is_said_in_its_numbers(mt: MuxerTelemetry, write: Seq<char>)
    ensures
        AppWindow::muxer_line(mt, write) == "Muxer: size="@ + dec(mt.file_size_bytes as nat)
            + " bytes, duration="@ + dec(mt.duration_secs as nat) + " s, write="@ + write + " ms"@,
{
}

/// A request to record waits for its answer: it is shown with who asks, and another one is
/// declined meanwhile without a trace.
pub proof fn one_request_is_shown_at_a_time(
    w: AppWindow,
    first: Option<String>,
    asked: AppWindow,
    shown: bool,
    second: Option<String>,
    after: AppWindow,
    shown_too: bool,
)
    requires
        w.pending_consent is None,
        w.consent_asked(first, asked, shown),
        asked.consent_asked(second, after, shown_too),
    ensures
        shown,
        asked.pending_consent == Some(first),
        asked == (AppWindow { pending_consent: asked.pending_consent, ..w }),
        !shown_too,
        after == asked,
{
}

} // verus!
