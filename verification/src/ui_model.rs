//! What the recorder window shows, and the service that drives the recorder by commands.
use vstd::prelude::*;
use vstd::string::*;

use crate::buffer::newest;
use crate::clock::{is_time, local_now_as};
use crate::config::Environment;
use crate::ipc::{IpcCommand, IpcError, IpcResponse};
use crate::path::texts;
use crate::text::{dec, decimal, digit};
use crate::ui_settings::UiSettings;

verus! {

#[derive(Debug, Clone, Copy, PartialEq, Eq, Structural)]
pub enum UiCommand {
    StartRecording,
    StopRecording,
    Shutdown,
}

#[derive(Debug, Clone, Copy, PartialEq, Eq, Structural)]
pub enum UiState {
    Idle,
    Recording,
    ShuttingDown,
}

/// What went wrong with a command of the window.
#[derive(Debug, Clone, PartialEq, Eq)]
pub enum UiError {
    Ipc(IpcError),
    ChannelSend,
    ChannelReceive,
}

impl UiError {
    /// The text that is shown for the error.
    pub open spec fn shown(self) -> Seq<char> {
        match self {
            UiError::Ipc(e) => "IPC error: "@ + ("IPC Error: "@ + e.message@),
            UiError::ChannelSend => "Channel send error"@,
            UiError::ChannelReceive => "Channel receive error"@,
        }
    }

    /// The text that is shown for the error.
    pub fn message(&self) -> (r: String)
        ensures
            r@ == self.shown(),
    {
        match self {
            UiError::Ipc(e) => {
                let inner = e.message();
                String::from_str("IPC error: ").concat(inner.as_str())
            },
            UiError::ChannelSend => String::from_str("Channel send error"),
            UiError::ChannelReceive => String::from_str("Channel receive error"),
        }
    }
}

/// The command that the service sends to the recorder: a start when idle, a stop when
/// recording, a shutdown always.
pub open spec fn command_to_send(state: UiState, cmd: UiCommand) -> Option<IpcCommand> {
    match cmd {
        UiCommand::StartRecording => if state == UiState::Idle {
            Some(IpcCommand::StartRecording)
        } else {
            None
        },
        UiCommand::StopRecording => if state == UiState::Recording {
            Some(IpcCommand::StopRecording)
        } else {
            None
        },
        UiCommand::Shutdown => Some(IpcCommand::Shutdown),
    }
}

/// A start is passed on from idle alone, a stop from a recording alone, and a shutdown always.
pub proof fn commands_are_passed_on_where_they_make_sense(state: UiState, cmd: UiCommand)
    ensures
        command_to_send(state, cmd) == Some(IpcCommand::StartRecording) <==> cmd
            == UiCommand::StartRecording && state == UiState::Idle,
        command_to_send(state, cmd) == Some(IpcCommand::StopRecording) <==> cmd
            == UiCommand::StopRecording && state == UiState::Recording,
        command_to_send(state, cmd) == Some(IpcCommand::Shutdown) <==> cmd == UiCommand::Shutdown,
        command_to_send(state, cmd) is None <==> (cmd == UiCommand::StartRecording && state
            != UiState::Idle) || (cmd == UiCommand::StopRecording && state != UiState::Recording),
{
}

/// The service beside its channels.
#[derive(Debug, Clone, Copy, PartialEq, Eq, Structural)]
pub struct UiService {
    pub state: UiState,
}

impl UiService {
    pub fn new() -> (r: Self)
        ensures
            r.state == UiState::Idle,
    {
        UiService { state: UiState::Idle }
    }

    /// Takes a command. A shutdown takes effect at once; for the others the recorder's answer
    /// decides.
    pub fn on_command(&mut self, cmd: UiCommand) -> (r: Option<IpcCommand>)
        ensures
            r == command_to_send(old(self).state, cmd),
            final(self).state == (if cmd == UiCommand::Shutdown {
                UiState::ShuttingDown
            } else {
                old(self).state
            }),
    {
        match cmd {
            UiCommand::StartRecording => {
                if self.state == UiState::Idle {
                    Some(IpcCommand::StartRecording)
                } else {
                    None
                }
            },
            UiCommand::StopRecording => {
                if self.state == UiState::Recording {
                    Some(IpcCommand::StopRecording)
                } else {
                    None
                }
            },
            UiCommand::Shutdown => {
                self.state = UiState::ShuttingDown;
                Some(IpcCommand::Shutdown)
            },
        }
    }

    /// What an answer does to the service.
    pub open spec fn answered(
        self,
        cmd: UiCommand,
        response: Result<IpcResponse, IpcError>,
        after: UiService,
        r: Result<(), UiError>,
    ) -> bool {
        match response {
            Ok(resp) => r is Ok && after.state == (if resp is Done {
                match cmd {
                    UiCommand::StartRecording => UiState::Recording,
                    UiCommand::StopRecording => UiState::Idle,
                    UiCommand::Shutdown => self.state,
                }
            } else {
                self.state
            }),
            Err(e) => after.state == self.state && r == (if cmd == UiCommand::Shutdown {
                Ok::<(), UiError>(())
            } else {
                Err::<(), UiError>(UiError::Ipc(e))
            }),
        }
    }

    /// Takes the answer to the command that was sent for `cmd`. Only a plain acknowledgement
    /// changes the state; a command that failed is an error, except for a shutdown.
    pub fn on_response(&mut self, cmd: UiCommand, response: Result<IpcResponse, IpcError>) -> (r:
        Result<(), UiError>)
        requires
            command_to_send(old(self).state, cmd) is Some,
        ensures
            old(self).answered(cmd, response, *final(self), r),
    {
        match response {
            Ok(resp) => {
                let done = match resp {
                    IpcResponse::Done => true,
                    _ => false,
                };
                if done {
                    match cmd {
                        UiCommand::StartRecording => {
                            self.state = UiState::Recording;
                        },
                        UiCommand::StopRecording => {
                            self.state = UiState::Idle;
                        },
                        UiCommand::Shutdown => {},
                    }
                }
                Ok(())
            },
            Err(e) => match cmd {
                UiCommand::Shutdown => Ok(()),
                _ => Err(UiError::Ipc(e)),
            },
        }
    }

    /// Is the service done?
    pub fn is_done(&self) -> (r: bool)
        ensures
            r == (self.state == UiState::ShuttingDown),
    {
        self.state == UiState::ShuttingDown
    }
}

/// The state changes with an acknowledgement and with nothing else: a start leads to a recording
/// and a stop back to idle. A command that could not be delivered is an error, but for a shutdown.
pub proof fn the_state_follows_the_acknowledgements(
    s: UiService,
    cmd: UiCommand,
    response: Result<IpcResponse, IpcError>,
    after: UiService,
    r: Result<(), UiError>,
)
    requires
        s.answered(cmd, response, after, r),
    ensures
        !(response matches Ok(resp) && resp is Done) ==> after.state == s.state,
        (response matches Ok(resp) && resp is Done) ==> {
            &&& cmd == UiCommand::StartRecording ==> after.state == UiState::Recording
            &&& cmd == UiCommand::StopRecording ==> after.state == UiState::Idle
            &&& cmd == UiCommand::Shutdown ==> after.state == s.state
        },
        r is Err <==> response is Err && cmd != UiCommand::Shutdown,
        r matches Err(e) ==> e == UiError::Ipc(response->Err_0),
{
}

/// How many latency samples are kept.
pub const MAX_SAMPLES: usize = 10;

/// The numbers that the window shows. A latency is held as the bit pattern of the single
/// precision number of milliseconds.
#[derive(Debug, Clone)]
pub struct UiTelemetry {
    pub frames_captured: u64,
    pub frames_dropped: u64,
    pub packets_encoded: u64,
    pub file_size_bytes: u64,
    pub recording_duration_secs: u64,
    pub latency_samples: Vec<u32>,
}

impl Default for UiTelemetry {
    fn default() -> (r: Self)
        ensures
            r.is_zero(),
    {
        UiTelemetry {
            frames_captured: 0,
            frames_dropped: 0,
            packets_encoded: 0,
            file_size_bytes: 0,
            recording_duration_secs: 0,
            latency_samples: Vec::new(),
        }
    }
}

impl UiTelemetry {
    /// Nothing has been measured.
    pub open spec fn is_zero(self) -> bool {
        &&& self.frames_captured == 0
        &&& self.frames_dropped == 0
        &&& self.packets_encoded == 0
        &&& self.file_size_bytes == 0
        &&& self.recording_duration_secs == 0
        &&& self.latency_samples@.len() == 0
    }

    /// The numbers after one more latency.
    pub open spec fn sampled(self, latency_bits: u32, after: UiTelemetry) -> bool {
        &&& after == (UiTelemetry { latency_samples: after.latency_samples, ..self })
        &&& after.latency_samples@ == newest(
            self.latency_samples@.push(latency_bits),
            MAX_SAMPLES as nat,
        )
    }

    /// Keeps the latency of a write among the last ten, over which the shown latency is
    /// averaged.
    pub fn update_smoothed_latency(&mut self, latency_bits: u32)
        requires
            old(self).latency_samples@.len() <= MAX_SAMPLES,
        ensures
            old(self).sampled(latency_bits, *final(self)),
    {
        self.latency_samples.push(latency_bits);
        if self.latency_samples.len() > MAX_SAMPLES {
            let ghost before = self.latency_samples@;
            let _ = self.latency_samples.remove(0);
            assert(self.latency_samples@ =~= newest(before, MAX_SAMPLES as nat));
        }
    }
}

/// The last ten latencies are kept, the newest last, and no other number changes.
pub proof fn the_last_ten_latencies_are_kept(
    t: UiTelemetry,
    latency_bits: u32,
    after: UiTelemetry,
    i: int,
)
    requires
        t.latency_samples@.len() <= 10,
        t.sampled(latency_bits, after),
    ensures
        ({
            let (old, new) = (t.latency_samples@, after.latency_samples@);
            &&& new.len() == (if old.len() < 10 { old.len() + 1 } else { 10 })
            &&& new.last() == latency_bits
            &&& 0 <= i < new.len() - 1 ==> new[i] == old[if old.len() < 10 { i } else { i + 1 }]
        }),
        after.frames_captured == t.frames_captured,
        after.frames_dropped == t.frames_dropped,
        after.packets_encoded == t.packets_encoded,
        after.file_size_bytes == t.file_size_bytes,
        after.recording_duration_secs == t.recording_duration_secs,
{
}

#[derive(Debug, Clone, Copy, PartialEq, Eq, Structural)]
pub enum RecordingStatus {
    Idle,
    Recording,
    ShuttingDown,
}

impl RecordingStatus {
    /// What the status bar says.
    pub fn text(&self) -> (r: &'static str)
        ensures
            r@ == match *self {
                RecordingStatus::Idle => "Idle"@,
                RecordingStatus::Recording => "Recording"@,
                RecordingStatus::ShuttingDown => "Shutting down…"@,
            },
    {
        match self {
            RecordingStatus::Idle => "Idle",
            RecordingStatus::Recording => "Recording",
            RecordingStatus::ShuttingDown => "Shutting down…",
        }
    }
}

/// How many diagnostic lines are kept.
pub const MAX_LINES: usize = 50;

/// The last messages, each with the time at which it came.
#[derive(Debug, Clone)]
pub struct UiDiagnostics {
    pub lines: Vec<String>,
    pub timestamps: Vec<String>,
}

impl Default for UiDiagnostics {
    fn default() -> (r: Self)
        ensures
            r.wf(),
            r.stamped(),
            r.log() == Seq::<Seq<char>>::empty(),
            r.times() == Seq::<Seq<char>>::empty(),
    {
        reveal(UiDiagnostics::stamped);
        let r = UiDiagnostics { lines: Vec::new(), timestamps: Vec::new() };
        assert(r.log() =~= Seq::empty());
        assert(r.times() =~= Seq::empty());
        r
    }
}

/// A log after one more line: of more than fifty lines the last fifty are kept.
#[verifier::opaque]
pub open spec fn logged(log: Seq<Seq<char>>, line: Seq<char>) -> Seq<Seq<char>> {
    newest(log.push(line), MAX_LINES as nat)
}

/// How the times of the lines go on with one line: it brings a time of day, and the times of the
/// lines that are kept stay as they are.
pub open spec fn timed_once(before: Seq<Seq<char>>, after: Seq<Seq<char>>) -> bool {
    exists|time: Seq<char>| is_time(time, ':') && after == #[trigger] logged(before, time)
}

/// How the times of the lines go on with `n` lines, one after the other.
pub open spec fn timed(before: Seq<Seq<char>>, after: Seq<Seq<char>>, n: nat) -> bool
    decreases n,
{
    if n == 0 {
        after == before
    } else if n == 1 {
        timed_once(before, after)
    } else {
        exists|first: Seq<Seq<char>>| #[trigger]
            timed_once(before, first) && timed(first, after, (n - 1) as nat)
    }
}

/// One where `b` holds, else none.
pub open spec fn count(b: bool) -> nat {
    if b {
        1
    } else {
        0
    }
}

/// Lines that come after other lines.
pub proof fn lemma_timed_on(
    before: Seq<Seq<char>>,
    between: Seq<Seq<char>>,
    after: Seq<Seq<char>>,
    n: nat,
    m: nat,
)
    requires
        timed(before, between, n),
        timed(between, after, m),
    ensures
        timed(before, after, n + m),
    decreases n,
{
    if n > 1 {
        let first = choose|first: Seq<Seq<char>>| #[trigger]
            timed_once(before, first) && timed(first, between, (n - 1) as nat);
        lemma_timed_on(first, between, after, (n - 1) as nat, m);
        assert(timed(first, after, (n + m - 1) as nat));
    }
}

proof fn lemma_texts_newest(v: Seq<String>, line: String)
    ensures
        texts(newest(v.push(line), MAX_LINES as nat)) == logged(texts(v), line@),
{
    reveal(logged);
    assert(texts(v.push(line)) =~= texts(v).push(line@));
    assert(texts(newest(v.push(line), MAX_LINES as nat)) =~= newest(
        texts(v.push(line)),
        MAX_LINES as nat,
    ));
}

fn push_newest(v: &mut Vec<String>, line: String)
    ensures
        texts(final(v)@) == logged(texts(old(v)@), line@),
        final(v)@.len() == if old(v)@.len() + 1 > MAX_LINES {
            MAX_LINES as nat
        } else {
            old(v)@.len() + 1
        },
{
    proof {
        lemma_texts_newest(v@, line);
    }
    let ghost before = v@.push(line);
    v.push(line);
    if v.len() > MAX_LINES {
        let overflow: usize = v.len() - MAX_LINES;
        let kept = v.split_off(overflow);
        *v = kept;
        assert(v@ =~= newest(before, MAX_LINES as nat));
    }
}

impl UiDiagnostics {
    /// Every line has its time, and there are not too many of them.
    pub open spec fn wf(self) -> bool {
        self.lines@.len() == self.timestamps@.len() && self.lines@.len() <= MAX_LINES
    }

    /// Every time is a time of day.
    #[verifier::opaque]
    pub open spec fn stamped(self) -> bool {
        forall|i: int| 0 <= i < self.times().len() ==> is_time(#[trigger] self.times()[i], ':')
    }

    /// The lines.
    pub open spec fn log(self) -> Seq<Seq<char>> {
        texts(self.lines@)
    }

    /// The times of the lines.
    pub open spec fn times(self) -> Seq<Seq<char>> {
        texts(self.timestamps@)
    }

    /// Adds a line that came at `time`. Of more than fifty lines the last fifty are kept.
    pub fn push_at(&mut self, line: &str, time: &str)
        requires
            old(self).wf(),
        ensures
            final(self).wf(),
            final(self).log() == logged(old(self).log(), line@),
            final(self).log() == newest(old(self).log().push(line@), MAX_LINES as nat),
            final(self).times() == logged(old(self).times(), time@),
            final(self).times() == newest(old(self).times().push(time@), MAX_LINES as nat),
            old(self).stamped() && is_time(time@, ':') ==> final(self).stamped(),
    {
        reveal(logged);
        reveal(UiDiagnostics::stamped);
        push_newest(&mut self.lines, String::from_str(line));
        push_newest(&mut self.timestamps, String::from_str(time));
    }

    /// Adds a line now. The time is the local time of day.
    pub fn push(&mut self, line: &str)
        requires
            old(self).wf(),
        ensures
            final(self).wf(),
            final(self).log() == logged(old(self).log(), line@),
            timed(old(self).times(), final(self).times(), 1),
            old(self).stamped() ==> final(self).stamped(),
    {
        let time = local_now_as("%H:%M:%S");
        self.push_at(line, time.as_str());
    }

    /// The lines as they are shown, each behind its time.
    pub fn shown(&self) -> (r: Vec<String>)
        requires
            self.wf(),
        ensures
            r@.len() == self.lines@.len(),
            forall|i: int|
                0 <= i < r@.len() ==> (#[trigger] r@[i])@ == "["@ + self.times()[i] + "] "@
                    + self.log()[i],
    {
        let mut r: Vec<String> = Vec::new();
        for i in 0..self.lines.len()
            invariant
                self.wf(),
                r@.len() == i,
                forall|k: int|
                    0 <= k < i ==> (#[trigger] r@[k])@ == "["@ + self.times()[k] + "] "@
                        + self.log()[k],
        {
            let mut t = String::from_str("[");
            t.append(self.timestamps[i].as_str());
            t.append("] ");
            t.append(self.lines[i].as_str());
            r.push(t);
        }
        r
    }
}

/// A new line is the last one, there are at most fifty, and the others keep their order: what is
/// left of them is the end of the log.
pub proof fn the_newest_lines_are_kept(log: Seq<Seq<char>>, line: Seq<char>)
    requires
        log.len() <= MAX_LINES,
    ensures
        logged(log, line).last() == line,
        logged(log, line).len() <= MAX_LINES,
        exists|gone: int|
            0 <= gone <= 1 && logged(log, line) == #[trigger] log.skip(gone).push(line),
{
    reveal(logged);
    let gone: int = if log.len() == MAX_LINES {
        1
    } else {
        0
    };
    assert(logged(log, line) =~= log.skip(gone).push(line));
}

/// The log holds the last fifty lines, in order: where it is full, a new line takes the place of
/// the oldest, and nothing else moves out.
pub proof fn a_log_holds_the_last_fifty_lines(log: Seq<Seq<char>>, line: Seq<char>, i: int)
    requires
        log.len() <= 50,
    ensures
        logged(log, line).len() == (if log.len() < 50 { log.len() + 1 } else { 50 }),
        logged(log, line).last() == line,
        0 <= i < logged(log, line).len() - 1 ==> logged(log, line)[i] == log[if log.len() < 50 {
            i
        } else {
            i + 1
        }],
{
    reveal(logged);
}

/// A new line brings its time and leaves those of the other lines where they were.
pub proof fn a_new_time_moves_no_other(before: Seq<Seq<char>>, after: Seq<Seq<char>>, i: int)
    requires
        before.len() <= 50,
        timed(before, after, 1),
    ensures
        after.len() == (if before.len() < 50 { before.len() + 1 } else { 50 }),
        is_time(after.last(), ':'),
        0 <= i < after.len() - 1 ==> after[i] == before[if before.len() < 50 { i } else { i + 1 }],
        timed(before, before, 0),
{
    let time = choose|time: Seq<char>|
        is_time(time, ':') && after == #[trigger] logged(before, time);
    a_log_holds_the_last_fifty_lines(before, time, i);
}

/// What the window shows.
#[derive(Debug, Clone)]
pub struct UiModel {
    pub status: RecordingStatus,
    pub telemetry: UiTelemetry,
    pub settings: UiSettings,
    pub diagnostics: UiDiagnostics,
    pub diagnostics_auto_scroll: bool,
    pub folder_valid: bool,
}

impl UiModel {
    /// The model of a window that has just opened with these settings.
    pub fn with_settings(settings: UiSettings) -> (r: Self)
        ensures
            r.status == RecordingStatus::Idle,
            r.telemetry.is_zero(),
            r.settings == settings,
            r.diagnostics.wf(),
            r.diagnostics.stamped(),
            r.diagnostics.log() == Seq::<Seq<char>>::empty(),
            r.diagnostics_auto_scroll,
            r.folder_valid,
    {
        UiModel {
            status: RecordingStatus::Idle,
            telemetry: UiTelemetry::default(),
            settings,
            diagnostics: UiDiagnostics::default(),
            diagnostics_auto_scroll: true,
            folder_valid: true,
        }
    }

    /// The defaults for a process with the environment `env`.
    pub fn default_in(env: &Environment) -> (r: Self)
        ensures
            r.status == RecordingStatus::Idle,
            r.telemetry.is_zero(),
            r.settings.is_default_in(*env),
            r.diagnostics.wf(),
            r.diagnostics.stamped(),
            r.diagnostics.log() == Seq::<Seq<char>>::empty(),
            r.diagnostics_auto_scroll,
            r.folder_valid,
    {
        UiModel::with_settings(UiSettings::default_in(env))
    }
}

/// `n` with at least two digits.
pub open spec fn two_digits(n: nat) -> Seq<char> {
    if n < 10 {
        "0"@ + dec(n)
    } else {
        dec(n)
    }
}

fn padded(n: u64) -> (r: String)
    ensures
        r@ == two_digits(n as nat),
{
    if n < 10 {
        String::from_str("0").concat(decimal(n).as_str())
    } else {
        decimal(n)
    }
}

/// A duration as `HH:MM:SS`.
pub open spec fn clock_text(secs: nat) -> Seq<char> {
    two_digits(secs / 3600) + ":"@ + two_digits(secs % 3600 / 60) + ":"@ + two_digits(secs % 60)
}

/// A duration is shown as its hours, minutes and seconds, each below a hundred with two digits.
pub proof fn a_duration_is_shown_by_hours_minutes_and_seconds(h: nat, m: nat, s: nat)
    requires
        m < 60,
        s < 60,
    ensures
        h < 100 ==> clock_text(h * 3600 + m * 60 + s) == seq![
            digit(h / 10),
            digit(h % 10),
            ':',
            digit(m / 10),
            digit(m % 10),
            ':',
            digit(s / 10),
            digit(s % 10),
        ],
        h >= 100 ==> clock_text(h * 3600 + m * 60 + s) == dec(h) + seq![
            ':',
            digit(m / 10),
            digit(m % 10),
            ':',
            digit(s / 10),
            digit(s % 10),
        ],
        forall|d: nat| d < 10 ==> #[trigger] digit(d) as u32 == 48 + d,
{
    reveal_strlit(":");
    reveal_strlit("0");
    reveal_with_fuel(dec, 3);
    let t = h * 3600 + m * 60 + s;
    assert(t / 3600 == h && t % 3600 / 60 == m && t % 60 == s);
    assert(":"@ =~= seq![':']);
    assert("0"@ =~= seq![digit(0)]);
    assert(two_digits(m) =~= seq![digit(m / 10), digit(m % 10)]);
    assert(two_digits(s) =~= seq![digit(s / 10), digit(s % 10)]);
    if h < 100 {
        assert(two_digits(h) =~= seq![digit(h / 10), digit(h % 10)]);
        assert(clock_text(t) =~= seq![
            digit(h / 10),
            digit(h % 10),
            ':',
            digit(m / 10),
            digit(m % 10),
            ':',
            digit(s / 10),
            digit(s % 10),
        ]);
    } else {
        assert(clock_text(t) =~= dec(h) + seq![
            ':',
            digit(m / 10),
            digit(m % 10),
            ':',
            digit(s / 10),
            digit(s % 10),
        ]);
    }
}

/// A duration as `HH:MM:SS`.
pub fn duration_text(secs: u64) -> (r: String)
    ensures
        r@ == clock_text(secs as nat),
{
    let mut r = padded(secs / 3600);
    r.append(":");
    r.append(padded(secs % 3600 / 60).as_str());
    r.append(":");
    r.append(padded(secs % 60).as_str());
    r
}

/// Is a recording of this length close to its longest duration? That begins after four hours.
pub fn duration_is_long(secs: u64) -> (r: bool)
    ensures
        r == (secs > 14400),
{
    secs > 14400
}

} // verus!
