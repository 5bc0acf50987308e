//! The record space in the window: its panel, and the preview on which its corners are placed.
use vstd::prelude::*;
use vstd::string::*;

use crate::ipc::{try_take_record_space, RecordSpaceSlot};
use crate::text::{a_size_reads_back_as_it_was_written, dec, decimal, size_pair};
use crate::ui_model::{count, logged, RecordingStatus, UiDiagnostics, UiModel};
use crate::ui_settings::{a_moved_corner_takes_its_edges_along, Corner, UiSettings};
use crate::window::{logged_if, AppWindow};

verus! {

/// A size as `WIDTHxHEIGHT`.
pub open spec fn size_text(size: (u32, u32)) -> Seq<char> {
    dec(size.0 as nat) + "x"@ + dec(size.1 as nat)
}

fn size_string(size: (u32, u32)) -> (r: String)
    ensures
        r@ == size_text(size),
{
    let mut r = decimal(size.0 as u64);
    r.append("x");
    r.append(decimal(size.1 as u64).as_str());
    r
}

/// What the panel says about the recording: its size, or that the insets leave nothing.
pub open spec fn readout_text(s: UiSettings) -> Seq<char> {
    if s.has_insets() {
        if s.region() is None {
            "⚠ Those edges leave nothing to record — recording the full screen"@
        } else {
            "Recording "@ + size_text(s.recorded()) + " of "@ + size_text(s.screen())
        }
    } else {
        "Recording the full screen ("@ + size_text(s.screen()) + ")"@
    }
}

/// What the panel of the record space shows.
#[derive(Debug)]
pub struct RecordSpaceView {
    /// The largest inset of each edge: the width and the height of the screen.
    pub screen: (u32, u32),
    /// What will be recorded.
    pub readout: String,
    /// The insets leave nothing, and the readout is a warning.
    pub unusable: bool,
    /// A corner waits for a click: offer to cancel.
    pub can_cancel_pick: bool,
    /// Is the idle capture on? `None` while recording, when it is not offered.
    pub live_view: Option<bool>,
    /// Is the window kept out of recordings?
    pub hide_while_recording: bool,
}

/// What is done in the panel of the record space.
#[derive(Debug, Clone, Copy, PartialEq, Eq, Structural)]
pub enum RecordSpaceClick {
    /// The four insets, each at most the size of the screen.
    Insets { left: u32, top: u32, right: u32, bottom: u32 },
    Pick(Corner),
    CancelPick,
    LiveView(bool),
    HideWhileRecording(bool),
    Reset,
}

/// What follows for the idle capture.
#[derive(Debug, Clone, Copy, PartialEq, Eq, Structural)]
pub enum LiveViewAction {
    Nothing,
    Start,
    Stop,
}

/// What the preview shows.
#[derive(Debug)]
pub struct PreviewView {
    /// What is said in place of a picture.
    pub caption: Option<&'static str>,
    /// The rectangle of the screen that is recorded, if it is not all of it: left edge, top
    /// edge, width and height. What lies outside is dimmed.
    pub crop: Option<(u32, u32, u32, u32)>,
    /// What is said below the picture while a corner waits for a click.
    pub hint: Option<String>,
    /// A recording is running: paint the dot.
    pub recording: bool,
}

/// The settings after a click in the panel of the record space.
pub open spec fn settings_after(s: UiSettings, click: RecordSpaceClick) -> UiSettings {
    match click {
        RecordSpaceClick::Insets { left, top, right, bottom } => UiSettings {
            crop_left: left,
            crop_top: top,
            crop_right: right,
            crop_bottom: bottom,
            ..s
        },
        RecordSpaceClick::HideWhileRecording(on) => UiSettings {
            minimize_while_recording: on,
            ..s
        },
        RecordSpaceClick::Reset => s.with_region(None),
        _ => s,
    }
}

fn edit_settings(s: &mut UiSettings, click: RecordSpaceClick)
    ensures
        *final(s) == settings_after(*old(s), click),
{
    match click {
        RecordSpaceClick::Insets { left, top, right, bottom } => {
            s.crop_left = left;
            s.crop_top = top;
            s.crop_right = right;
            s.crop_bottom = bottom;
        },
        RecordSpaceClick::HideWhileRecording(on) => {
            s.minimize_while_recording = on;
        },
        RecordSpaceClick::Reset => {
            s.set_capture_region(None);
        },
        _ => {},
    }
}

/// What is said when a record space has been set from outside.
pub open spec fn record_space_line(s: UiSettings, full: bool) -> Seq<char> {
    if full {
        "Record space reset to the full screen over IPC."@
    } else {
        "Record space set over IPC: "@ + size_text(s.recorded()) + "."@
    }
}

fn record_space_report(s: &UiSettings, full: bool) -> (r: String)
    ensures
        r@ == record_space_line(*s, full),
{
    if full {
        String::from_str("Record space reset to the full screen over IPC.")
    } else {
        let mut line = String::from_str("Record space set over IPC: ");
        line.append(size_string(s.recording_size()).as_str());
        line.append(".");
        line
    }
}

/// What is said when a corner has been placed, or could not be.
pub open spec fn corner_line(
    corner: Corner,
    x: u32,
    y: u32,
    s: UiSettings,
    placed: bool,
) -> Seq<char> {
    let point = dec(x as nat) + ","@ + dec(y as nat);
    if placed {
        "Set "@ + corner.name() + " corner to "@ + point + " — recording "@ + size_text(
            s.recorded(),
        ) + "."@
    } else {
        point + " would leave nothing to record — "@ + corner.name() + " corner unchanged."@
    }
}

fn corner_report(corner: Corner, x: u32, y: u32, s: &UiSettings, placed: bool) -> (r: String)
    ensures
        r@ == corner_line(corner, x, y, *s, placed),
{
    let mut point = decimal(x as u64);
    point.append(",");
    point.append(decimal(y as u64).as_str());
    if placed {
        let mut line = String::from_str("Set ");
        line.append(corner.label());
        line.append(" corner to ");
        line.append(point.as_str());
        line.append(" — recording ");
        line.append(size_string(s.recording_size()).as_str());
        line.append(".");
        line
    } else {
        let mut line = point;
        line.append(" would leave nothing to record — ");
        line.append(corner.label());
        line.append(" corner unchanged.");
        line
    }
}

impl AppWindow {
    /// What the panel of the record space shows.
    pub fn record_space_view(&self) -> (r: RecordSpaceView)
        requires
            self.wf(),
        ensures
            r.screen == self.model.settings.screen(),
            r.readout@ == readout_text(self.model.settings),
            r.unusable == (self.model.settings.has_insets() && self.model.settings.region()
                is None),
            r.can_cancel_pick == (self.pending_pick is Some),
            r.live_view == (if self.model.status == RecordingStatus::Recording {
                None
            } else {
                Some(self.live_view)
            }),
            r.hide_while_recording == self.model.settings.minimize_while_recording,
    {
        let screen = self.model.settings.screen_size();
        let insets = self.model.settings.has_crop_insets();
        let unusable = insets && self.model.settings.to_capture_region().is_none();
        let readout = if !insets {
            let mut t = String::from_str("Recording the full screen (");
            t.append(size_string(screen).as_str());
            t.append(")");
            t
        } else if unusable {
            String::from_str("⚠ Those edges leave nothing to record — recording the full screen")
        } else {
            let mut t = String::from_str("Recording ");
            t.append(size_string(self.model.settings.recording_size()).as_str());
            t.append(" of ");
            t.append(size_string(screen).as_str());
            t
        };
        RecordSpaceView {
            screen,
            readout,
            unusable,
            can_cancel_pick: self.pending_pick.is_some(),
            live_view: if self.model.status == RecordingStatus::Recording {
                None
            } else {
                Some(self.live_view)
            },
            hide_while_recording: self.model.settings.minimize_while_recording,
        }
    }

    /// Takes what is done in the panel of the record space.
    pub fn on_record_space(&mut self, click: RecordSpaceClick) -> (r: LiveViewAction)
        requires
            old(self).wf(),
        ensures
            final(self).wf(),
            final(self).model.settings == settings_after(old(self).model.settings, click),
            match click {
                RecordSpaceClick::Pick(corner) => {
                    &&& r == (if !old(self).live_view && old(self).model.status
                        != RecordingStatus::Recording {
                        LiveViewAction::Start
                    } else {
                        LiveViewAction::Nothing
                    })
                    &&& *final(self) == (AppWindow {
                        pending_pick: Some(corner),
                        live_view: old(self).live_view || r == LiveViewAction::Start,
                        has_preview: old(self).has_preview || r == LiveViewAction::Start,
                        ..*old(self)
                    }).relogged(final(self).model.diagnostics)
                    &&& final(self).log() == logged(
                        logged_if(
                            old(self).log(),
                            r == LiveViewAction::Start,
                            "Live view started."@,
                        ),
                        "Click the preview to place the "@ + corner.name() + " corner."@,
                    )
                    &&& final(self).timed_since(*old(self), count(r == LiveViewAction::Start) + 1)
                },
                RecordSpaceClick::CancelPick => {
                    &&& r == LiveViewAction::Nothing
                    &&& *final(self) == (AppWindow { pending_pick: None, ..*old(self) }).relogged(
                        final(self).model.diagnostics,
                    )
                    &&& final(self).log() == logged_if(
                        old(self).log(),
                        old(self).pending_pick is Some,
                        "Corner pick cancelled ("@ + "cancelled"@ + ")."@,
                    )
                    &&& final(self).timed_since(*old(self), count(old(self).pending_pick is Some))
                },
                RecordSpaceClick::LiveView(on) => {
                    &&& r == (if on && !old(self).live_view && old(self).model.status
                        != RecordingStatus::Recording {
                        LiveViewAction::Start
                    } else if !on && old(self).live_view {
                        LiveViewAction::Stop
                    } else {
                        LiveViewAction::Nothing
                    })
                    &&& match r {
                        LiveViewAction::Start => {
                            &&& *final(self) == (AppWindow {
                                live_view: true,
                                has_preview: true,
                                ..*old(self)
                            }).relogged(final(self).model.diagnostics)
                            &&& final(self).log() == logged(old(self).log(), "Live view started."@)
                            &&& final(self).timed_since(*old(self), 1)
                        },
                        LiveViewAction::Stop => {
                            &&& *final(self) == old(self).without_live_view().relogged(
                                final(self).model.diagnostics,
                            )
                            &&& final(self).log() == logged(old(self).log(), "Live view stopped."@)
                            &&& final(self).timed_since(*old(self), 1)
                        },
                        LiveViewAction::Nothing => *final(self) == *old(self),
                    }
                },
                _ => {
                    &&& r == LiveViewAction::Nothing
                    &&& *final(self) == old(self).with_settings(final(self).model.settings)
                },
            },
    {
        match click {
            RecordSpaceClick::Pick(corner) => {
                if self.begin_pick(corner) {
                    LiveViewAction::Start
                } else {
                    LiveViewAction::Nothing
                }
            },
            RecordSpaceClick::CancelPick => {
                self.cancel_pick("cancelled");
                LiveViewAction::Nothing
            },
            RecordSpaceClick::LiveView(on) => {
                if on {
                    if self.start_live_view() {
                        LiveViewAction::Start
                    } else {
                        LiveViewAction::Nothing
                    }
                } else if self.stop_live_view() {
                    LiveViewAction::Stop
                } else {
                    LiveViewAction::Nothing
                }
            },
            _ => {
                edit_settings(&mut self.model.settings, click);
                LiveViewAction::Nothing
            },
        }
    }

    /// Adopts a record space that was asked for from outside, and says so. It takes effect with
    /// the next recording.
    pub fn poll_record_space(&mut self, slot: &mut RecordSpaceSlot)
        requires
            old(self).wf(),
        ensures
            final(self).wf(),
            final(slot).pending is None,
            match old(slot).pending {
                Some(region) => {
                    &&& *final(self) == old(self).with_settings(
                        old(self).model.settings.with_region(region),
                    ).relogged(final(self).model.diagnostics)
                    &&& final(self).log() == logged(
                        old(self).log(),
                        record_space_line(final(self).model.settings, region is None),
                    )
                    &&& final(self).timed_since(*old(self), 1)
                },
                None => *final(self) == *old(self),
            },
    {
        if let Some(region) = try_take_record_space(slot) {
            self.model.settings.set_capture_region(region);
            let line = record_space_report(&self.model.settings, region.is_none());
            self.say(line.as_str());
        }
    }

    /// What the preview shows.
    pub fn preview_view(&self) -> (r: PreviewView)
        requires
            self.wf(),
        ensures
            match r.caption {
                Some(c) => !self.preview_shown && c@ == (if self.live_view {
                    "Starting live view…"@
                } else {
                    "No preview available"@
                }),
                None => self.preview_shown,
            },
            r.crop == match self.model.settings.region() {
                Some(region) => region.resolved(
                    self.model.settings.screen().0,
                    self.model.settings.screen().1,
                ),
                None => None,
            },
            crate::text::opt_text(r.hint) == match self.pending_pick {
                Some(corner) => Some(
                    "Click the preview to place the "@ + corner.name() + " corner (Esc cancels)."@,
                ),
                None => None,
            },
            r.recording == (self.model.status == RecordingStatus::Recording),
    {
        let caption = if self.preview_shown {
            None
        } else if self.live_view {
            Some("Starting live view…")
        } else {
            Some("No preview available")
        };
        let (w, h) = self.model.settings.screen_size();
        let crop = match self.model.settings.to_capture_region() {
            Some(region) => region.resolve(w, h),
            None => None,
        };
        let hint = match self.pending_pick {
            Some(corner) => {
                let mut t = String::from_str("Click the preview to place the ");
                t.append(corner.label());
                t.append(" corner (Esc cancels).");
                Some(t)
            },
            None => None,
        };
        PreviewView {
            caption,
            crop,
            hint,
            recording: self.model.status == RecordingStatus::Recording,
        }
    }

    /// What is left of `self` when the corner that waits for a click is placed.
    pub open spec fn cornered(self, corner: Corner, x: u32, y: u32, d: UiDiagnostics) -> AppWindow {
        let settings = self.model.settings.with_corner(corner, x, y);
        AppWindow {
            model: UiModel { settings, diagnostics: d, ..self.model },
            pending_pick: None,
            ..self
        }
    }

    fn place_corner(&mut self, corner: Corner, x: u32, y: u32)
        requires
            old(self).wf(),
        ensures
            final(self).wf(),
            *final(self) == old(self).cornered(corner, x, y, final(self).model.diagnostics),
            final(self).log() == logged(
                old(self).log(),
                corner_line(
                    corner,
                    x,
                    y,
                    final(self).model.settings,
                    old(self).model.settings.corner_fits(corner, x, y),
                ),
            ),
            final(self).timed_since(*old(self), 1),
    {
        self.pending_pick = None;
        let placed = self.model.settings.set_corner(corner, x, y);
        let line = corner_report(corner, x, y, &self.model.settings, placed);
        self.say(line.as_str());
    }

    /// The preview is clicked at a point of the screen; `None` where it had no size. A corner
    /// that waits for a click is placed there, or refused with nothing changed.
    pub fn on_preview_click(&mut self, point: Option<(u32, u32)>)
        requires
            old(self).wf(),
        ensures
            final(self).wf(),
            match (old(self).pending_pick, point) {
                (None, _) => *final(self) == *old(self),
                (Some(corner), Some((x, y))) => {
                    &&& *final(self) == old(self).cornered(
                        corner,
                        x,
                        y,
                        final(self).model.diagnostics,
                    )
                    &&& final(self).log() == logged(
                        old(self).log(),
                        corner_line(
                            corner,
                            x,
                            y,
                            final(self).model.settings,
                            old(self).model.settings.corner_fits(corner, x, y),
                        ),
                    )
                    &&& final(self).timed_since(*old(self), 1)
                },
                (Some(_), None) => {
                    &&& *final(self) == (AppWindow { pending_pick: None, ..*old(self) }).relogged(
                        final(self).model.diagnostics,
                    )
                    &&& final(self).log() == logged(
                        old(self).log(),
                        "Corner pick cancelled ("@ + "preview had no size"@ + ")."@,
                    )
                    &&& final(self).timed_since(*old(self), 1)
                },
            },
    {
        if let Some(corner) = self.pending_pick {
            match point {
                Some((x, y)) => {
                    self.place_corner(corner, x, y);
                },
                None => {
                    self.cancel_pick("preview had no size");
                },
            }
        }
    }
}

/// What is entered in the panel is what the settings hold afterwards: the four insets each in its
/// own place, the wish to hide the window, or no insets at all. Nothing else changes.
pub proof fn the_panel_sets_what_was_entered(s: UiSettings, click: RecordSpaceClick)
    ensures
        ({
            let after = settings_after(s, click);
            &&& after == (UiSettings {
                crop_left: after.crop_left,
                crop_top: after.crop_top,
                crop_right: after.crop_right,
                crop_bottom: after.crop_bottom,
                minimize_while_recording: after.minimize_while_recording,
                ..s
            })
            &&& click matches RecordSpaceClick::Insets { left, top, right, bottom } ==> {
                &&& after.crop_left == left && after.crop_right == right
                &&& after.crop_top == top && after.crop_bottom == bottom
            }
            &&& click is Reset ==> after.crop_left + after.crop_top + after.crop_right
                + after.crop_bottom == 0
            &&& !(click is Insets || click is Reset) ==> after.insets() == s.insets()
            &&& click matches RecordSpaceClick::HideWhileRecording(on) ==> (
            after.minimize_while_recording <==> on)
            &&& !(click is HideWhileRecording) ==> after.minimize_while_recording
                == s.minimize_while_recording
        }),
{
}

/// The panel says what will be recorded, in numbers that read back as its size, and warns where
/// the insets leave nothing.
pub proof fn the_panel_says_what_will_be_recorded(s: UiSettings)
    ensures
        size_pair(size_text(s.recorded())) == Some(s.recorded()),
        s.crop_left + s.crop_top + s.crop_right + s.crop_bottom == 0 ==> readout_text(s)
            == "Recording the full screen ("@ + size_text(s.screen()) + ")"@,
        s.region() is Some ==> readout_text(s) == "Recording "@ + size_text(s.recorded()) + " of "@
            + size_text(s.screen()),
        s.crop_left + s.crop_right >= s.screen().0 && s.crop_left + s.crop_right > 0
            ==> readout_text(s)
            == "⚠ Those edges leave nothing to record — recording the full screen"@,
{
    reveal_strlit("x");
    assert("x"@ =~= seq!['x']);
    a_size_reads_back_as_it_was_written(s.recorded().0, s.recorded().1);
}

/// A click on the preview places the corner that waits for it at the clicked point, if at least
/// two pixels are left each way, and disarms it; nothing else of the window changes but what it
/// says.
pub proof fn a_click_places_the_armed_corner(
    w: AppWindow,
    corner: Corner,
    x: u32,
    y: u32,
    d: UiDiagnostics,
)
    requires
        w.model.settings.crop_left <= w.model.settings.screen().0 <= i32::MAX,
        w.model.settings.crop_top <= w.model.settings.screen().1 <= i32::MAX,
        w.model.settings.crop_right <= w.model.settings.screen().0,
        w.model.settings.crop_bottom <= w.model.settings.screen().1,
        x <= w.model.settings.screen().0,
        y <= w.model.settings.screen().1,
    ensures
        ({
            let s = w.model.settings;
            let after = w.cornered(corner, x, y, d);
            let (sw, sh) = (s.screen().0 as int, s.screen().1 as int);
            let at_left = corner is TopLeft || corner is BottomLeft;
            let at_top = corner is TopLeft || corner is TopRight;
            let left = if at_left { x as int } else { s.crop_left as int };
            let right = if at_left { sw - s.crop_right } else { x as int };
            let top = if at_top { y as int } else { s.crop_top as int };
            let bottom = if at_top { sh - s.crop_bottom } else { y as int };
            &&& after.pending_pick is None
            &&& after == (AppWindow {
                model: UiModel { settings: after.model.settings, diagnostics: d, ..w.model },
                pending_pick: after.pending_pick,
                ..w
            })
            &&& right - left >= 2 && bottom - top >= 2 ==> {
                &&& after.model.settings.crop_left == left && after.model.settings.crop_top == top
                &&& after.model.settings.crop_right == sw - right + (right - left) % 2
                &&& after.model.settings.crop_bottom == sh - bottom + (bottom - top) % 2
            }
            &&& !(right - left >= 2 && bottom - top >= 2) ==> after.model.settings == s
        }),
{
    a_moved_corner_takes_its_edges_along(w.model.settings, corner, x, y);
}

/// What is said about a record space and about a corner names the size that is recorded and the
/// point that was clicked.
pub proof fn a_placed_corner_is_said_with_its_point(
    corner: Corner,
    x: u32,
    y: u32,
    s: UiSettings,
)
    ensures
        corner_line(corner, x, y, s, true) == "Set "@ + corner.name() + " corner to "@ + (dec(
            x as nat,
        ) + ","@ + dec(y as nat)) + " — recording "@ + (dec(s.recorded().0 as nat) + "x"@ + dec(
            s.recorded().1 as nat,
        )) + "."@,
        corner_line(corner, x, y, s, false) == dec(x as nat) + ","@ + dec(y as nat)
            + " would leave nothing to record — "@ + corner.name() + " corner unchanged."@,
        record_space_line(s, true) == "Record space reset to the full screen over IPC."@,
        record_space_line(s, false) == "Record space set over IPC: "@ + (dec(s.recorded().0 as nat)
            + "x"@ + dec(s.recorded().1 as nat)) + "."@,
{
}

} // verus!
