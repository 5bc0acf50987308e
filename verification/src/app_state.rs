//! The state that the parts of the application share.
use vstd::prelude::*;
use vstd::string::*;

use crate::config::BsrConfig;
use crate::text::{dec, decimal};

verus! {

#[derive(Debug, Clone, Copy, PartialEq, Eq, Structural)]
pub enum AppMode {
    Visible,
    Stealth,
}

#[derive(Debug, Clone, Copy, PartialEq, Eq, Structural)]
pub enum RecordingState {
    Idle,
    Recording,
    Paused,
}

/// The configuration, the mode, the recording state and the frame counters.
#[derive(Debug, Clone)]
pub struct AppState {
    pub config: BsrConfig,
    pub app_mode: AppMode,
    pub recording_state: RecordingState,
    /// When the application started, in nanoseconds on the monotonic clock.
    pub start_time: u64,
    pub encoding_available: bool,
    pub frames_captured: u64,
    pub frames_dropped: u64,
}

/// One more than `n`, starting over behind the largest number.
pub open spec fn next_count(n: u64) -> u64 {
    if n == u64::MAX {
        0
    } else {
        (n + 1) as u64
    }
}

impl AppState {
    /// The state of an application that starts at `now`: visible, idle, nothing counted.
    pub fn new(config: BsrConfig, now: u64) -> (r: Self)
        ensures
            r == (AppState {
                config,
                app_mode: AppMode::Visible,
                recording_state: RecordingState::Idle,
                start_time: now,
                encoding_available: false,
                frames_captured: 0,
                frames_dropped: 0,
            }),
    {
        AppState {
            config,
            app_mode: AppMode::Visible,
            recording_state: RecordingState::Idle,
            start_time: now,
            encoding_available: false,
            frames_captured: 0,
            frames_dropped: 0,
        }
    }

    pub fn config(&self) -> (r: &BsrConfig)
        ensures
            *r == self.config,
    {
        &self.config
    }

    pub fn set_config(&mut self, config: BsrConfig)
        ensures
            *final(self) == (AppState { config, ..*old(self) }),
    {
        self.config = config;
    }

    /// The mode as an observer sees it.
    pub fn app_mode_rx(&self) -> (r: AppMode)
        ensures
            r == self.app_mode,
    {
        self.app_mode
    }

    /// The recording state as an observer sees it.
    pub fn recording_state_rx(&self) -> (r: RecordingState)
        ensures
            r == self.recording_state,
    {
        self.recording_state
    }

    pub fn set_app_mode(&mut self, mode: AppMode)
        ensures
            *final(self) == (AppState { app_mode: mode, ..*old(self) }),
    {
        self.app_mode = mode;
    }

    pub fn set_recording_state(&mut self, state: RecordingState)
        ensures
            *final(self) == (AppState { recording_state: state, ..*old(self) }),
    {
        self.recording_state = state;
    }

    /// Whole milliseconds since the application started.
    pub open spec fn up_for(self, now: u64) -> int {
        if now >= self.start_time {
            (now - self.start_time) / 1_000_000
        } else {
            0
        }
    }

    /// Whole milliseconds since the application started.
    pub fn uptime_ms(&self, now: u64) -> (r: u64)
        ensures
            r == self.up_for(now),
    {
        if now >= self.start_time {
            (now - self.start_time) / 1_000_000
        } else {
            0
        }
    }

    pub fn set_encoding_available(&mut self, available: bool)
        ensures
            *final(self) == (AppState { encoding_available: available, ..*old(self) }),
    {
        self.encoding_available = available;
    }

    pub fn encoding_available(&self) -> (r: bool)
        ensures
            r == self.encoding_available,
    {
        self.encoding_available
    }

    pub fn increment_frames_captured(&mut self)
        ensures
            *final(self) == (AppState {
                frames_captured: next_count(old(self).frames_captured),
                ..*old(self)
            }),
    {
        self.frames_captured = self.frames_captured.wrapping_add(1);
    }

    pub fn increment_frames_dropped(&mut self)
        ensures
            *final(self) == (AppState {
                frames_dropped: next_count(old(self).frames_dropped),
                ..*old(self)
            }),
    {
        self.frames_dropped = self.frames_dropped.wrapping_add(1);
    }

    pub fn frames_captured(&self) -> (r: u64)
        ensures
            r == self.frames_captured,
    {
        self.frames_captured
    }

    pub fn frames_dropped(&self) -> (r: u64)
        ensures
            r == self.frames_dropped,
    {
        self.frames_dropped
    }

    /// Is a recording running, not paused?
    pub fn recording_active(&self) -> (r: bool)
        ensures
            r == (self.recording_state == RecordingState::Recording),
    {
        self.recording_state == RecordingState::Recording
    }
}

/// The loopback port that the first instance of the application holds.
pub const DEFAULT_PORT: u16 = 51839;

/// What a second instance is told.
pub fn already_running_text(port: u16, cause: &str) -> (r: String)
    ensures
        r@ == "another instance is already running (loopback port "@ + dec(port as nat) + "): "@
            + cause@,
{
    let mut r = String::from_str("another instance is already running (loopback port ");
    r.append(decimal(port as u64).as_str());
    r.append("): ");
    r.append(cause);
    r
}

/// A counter goes up by one, and starts over behind the largest number.
pub proof fn a_counter_goes_up_by_one(n: u64)
    ensures
        n < 0xffff_ffff_ffff_ffff ==> next_count(n) == n + 1,
        n == 0xffff_ffff_ffff_ffff ==> next_count(n) == 0,
{
}

/// The uptime is the whole milliseconds from the start to now.
pub proof fn the_uptime_counts_from_the_start(s: AppState, now: u64)
    ensures
        now >= s.start_time ==> s.up_for(now) * 1_000_000 <= now - s.start_time < (s.up_for(now) + 1)
            * 1_000_000,
        now < s.start_time ==> s.up_for(now) == 0,
{
}

} // verus!
