//! The commands that drive the recorder, what it answers, and what waits for the window.
use vstd::prelude::*;
use vstd::string::*;

use crate::clock::{is_date, is_time, utc_date_and_time, Span};
use crate::config::CaptureRegion;
use crate::path::{absolute, join, joined};

verus! {

/// How the file of a recording is named.
#[derive(Debug, Clone, PartialEq, Eq)]
pub enum FileNamingStrategy {
    Simple(String),
    TimestampedFile,
    TimestampedFolder,
}

/// Where a recording goes, and the stream that goes into it.
#[derive(Debug, Clone, PartialEq, Eq)]
pub struct MuxerConfig {
    pub base_output_path: String,
    pub file_naming_strategy: FileNamingStrategy,
    pub max_duration: Span,
    /// Frames per second of the encoded stream; encoder timestamps count in 1/fps units.
    pub fps: u32,
    /// Encoded frame dimensions, written to the container.
    pub width: u32,
    pub height: u32,
}

/// The frame rate of a configuration that names none.
pub fn default_muxer_fps() -> (r: u32)
    ensures
        r == 30,
{
    30
}

/// The frame width of a configuration that names none.
pub fn default_muxer_width() -> (r: u32)
    ensures
        r == 1920,
{
    1920
}

/// The frame height of a configuration that names none.
pub fn default_muxer_height() -> (r: u32)
    ensures
        r == 1080,
{
    1080
}

impl MuxerConfig {
    /// The file of a recording that starts on `date` at `time`.
    pub open spec fn path_at(self, date: Seq<char>, time: Seq<char>) -> Seq<char> {
        let base = self.base_output_path@;
        match self.file_naming_strategy {
            FileNamingStrategy::Simple(name) => joined(base, name@),
            FileNamingStrategy::TimestampedFile => joined(base, date + "_"@ + time + ".mp4"@),
            FileNamingStrategy::TimestampedFolder => joined(joined(base, date), time + ".mp4"@),
        }
    }

    /// The file of a recording that starts on `date` at `time`.
    pub fn output_path_at(&self, date: &str, time: &str) -> (r: String)
        ensures
            r@ == self.path_at(date@, time@),
    {
        let base = self.base_output_path.as_str();
        match &self.file_naming_strategy {
            FileNamingStrategy::Simple(name) => join(base, name.as_str()),
            FileNamingStrategy::TimestampedFile => {
                let mut name = String::from_str(date);
                name.append("_");
                name.append(time);
                name.append(".mp4");
                join(base, name.as_str())
            },
            FileNamingStrategy::TimestampedFolder => {
                let folder = join(base, date);
                let mut name = String::from_str(time);
                name.append(".mp4");
                join(folder.as_str(), name.as_str())
            },
        }
    }

    /// The file that a recording started now goes to. The timestamps are in UTC.
    pub fn preview_output_path(&self) -> (r: String)
        ensures
            exists|date: Seq<char>, time: Seq<char>|
                is_date(date) && is_time(time, '-') && r@ == #[trigger] self.path_at(date, time),
    {
        let (date, time) = utc_date_and_time();
        self.output_path_at(date.as_str(), time.as_str())
    }
}

/// A timestamped recording lies below the output folder, whatever the clock says.
pub proof fn timestamped_recordings_stay_in_the_output_folder(
    config: MuxerConfig,
    date: Seq<char>,
    time: Seq<char>,
)
    requires
        is_date(date),
        is_time(time, '-'),
        config.file_naming_strategy !is Simple,
    ensures
        config.path_at(date, time).len() > config.base_output_path@.len(),
        config.path_at(date, time).subrange(0, config.base_output_path@.len() as int)
            == config.base_output_path@,
{
    let base = config.base_output_path@;
    assert(!absolute(date)) by {
        assert(date.take(date.len() - 6)[0] == date[0]);
    }
    assert(!absolute(time + ".mp4"@)) by {
        assert((time + ".mp4"@)[0] == time[0]);
    }
    assert(!absolute(date + "_"@ + time + ".mp4"@)) by {
        assert((date + "_"@ + time + ".mp4"@)[0] == date[0]);
    }
    assert(config.path_at(date, time).subrange(0, base.len() as int) =~= base);
}

impl Default for MuxerConfig {
    fn default() -> (r: Self)
        ensures
            r.base_output_path@ == "./output"@,
            r.file_naming_strategy is TimestampedFile,
            r.max_duration == (Span { secs: 18000, nanos: 0 }),
            r.fps == 30,
            r.width == 1920,
            r.height == 1080,
    {
        MuxerConfig {
            base_output_path: String::from_str("./output"),
            file_naming_strategy: FileNamingStrategy::TimestampedFile,
            max_duration: Span::from_secs(18000),
            fps: default_muxer_fps(),
            width: default_muxer_width(),
            height: default_muxer_height(),
        }
    }
}

/// Commands sent to the recorder.
#[derive(Debug, Clone, PartialEq, Eq)]
pub enum IpcCommand {
    StartRecording,
    /// Ask the local user for permission to start a recording.
    RequestStartRecording { requester: Option<String> },
    /// Ask the window whether it wants a local copy of the recording at `path`.
    OfferSaveCopy { path: String, requester: Option<String> },
    StopRecording,
    GetStatus,
    Shutdown,
    ConfigureMuxer(MuxerConfig),
    GetHealthStatus,
    /// Set the rectangle of the screen that the next recording takes; `None` restores the
    /// full screen.
    SetRecordSpace { region: Option<CaptureRegion> },
}

/// Responses sent from the recorder.
#[derive(Debug, Clone, PartialEq, Eq)]
pub enum IpcResponse {
    Done,
    Status { recording: bool, uptime_ms: u64 },
    Error(String),
    HealthStatus {
        status: String,
        uptime_nanos: u64,
        encoding_available: bool,
        recording_active: bool,
        /// `None`: the server does not observe the capture pipeline.
        frames_captured: Option<u64>,
        frames_dropped: Option<u64>,
    },
}

/// Events that are broadcast to whoever listens.
#[derive(Debug, Clone, PartialEq, Eq)]
pub enum TelemetryEvent {
    AppStarted,
    AppStopped,
    RecordingStarted,
    RecordingStopped,
    ErrorOccurred { message: String },
}

/// A command that could not be delivered or was not answered.
#[derive(Debug, Clone, PartialEq, Eq)]
pub struct IpcError {
    pub message: String,
}

impl IpcError {
    /// The text that is shown for the error.
    pub fn message(&self) -> (r: String)
        ensures
            r@ == "IPC Error: "@ + self.message@,
    {
        String::from_str("IPC Error: ").concat(self.message.as_str())
    }
}

/// A request for consent that waits for the user; `resp` takes the answer.
pub struct ConsentRequest<R> {
    pub requester: Option<String>,
    pub resp: R,
}

/// An offered copy that waits for the user; `resp` takes the place to save it, or `None`.
pub struct SaveOfferRequest<R> {
    pub path: String,
    pub resp: R,
}

/// The oldest of what waits is taken, if anything does.
pub open spec fn oldest_taken<T>(before: Seq<T>, r: Option<T>, after: Seq<T>) -> bool {
    match r {
        Some(item) => before.len() > 0 && item == before[0] && after == before.drop_first(),
        None => before.len() == 0 && after == before,
    }
}

/// What waits is taken in the order in which it came, every one once, before there is nothing to
/// take. `states` are the queue before each and after the last.
pub proof fn what_waits_is_taken_in_order<T>(states: Seq<Seq<T>>, taken: Seq<T>)
    requires
        states.len() == taken.len() + 1,
        forall|k: int|
            0 <= k < taken.len() ==> oldest_taken(#[trigger] states[k], Some(taken[k]), states[k + 1]),
        oldest_taken(states.last(), None, states.last()),
    ensures
        taken == states[0],
    decreases taken.len(),
{
    if taken.len() == 0 {
        assert(taken =~= states[0]);
    } else {
        let later = states.drop_first();
        let rest = taken.drop_first();
        assert forall|k: int| 0 <= k < rest.len() implies oldest_taken(
            #[trigger] later[k],
            Some(rest[k]),
            later[k + 1],
        ) by {
            assert(later[k] == states[k + 1]);
        }
        assert(later.last() == states.last());
        what_waits_is_taken_in_order(later, rest);
        assert(oldest_taken(states[0], Some(taken[0]), states[1]));
        assert(taken =~= states[0]) by {
            assert(rest == states[0].drop_first());
            assert forall|i: int| 0 < i < taken.len() implies taken[i] == states[0][i] by {
                assert(taken[i] == rest[i - 1]);
            }
        }
    }
}

/// Queues a consent request for the window.
pub fn push_consent_request_to_ui<R>(queue: &mut Vec<ConsentRequest<R>>, req: ConsentRequest<R>)
    ensures
        final(queue)@ == old(queue)@.push(req),
{
    queue.push(req);
}

/// Takes the oldest consent request.
pub fn try_take_consent_request<R>(queue: &mut Vec<ConsentRequest<R>>) -> (r: Option<
    ConsentRequest<R>,
>)
    ensures
        oldest_taken(old(queue)@, r, final(queue)@),
{
    if queue.len() == 0 {
        None
    } else {
        let req = queue.remove(0);
        assert(queue@ =~= old(queue)@.drop_first());
        Some(req)
    }
}

/// Queues a save offer for the window.
pub fn push_save_offer_to_ui<R>(queue: &mut Vec<SaveOfferRequest<R>>, req: SaveOfferRequest<R>)
    ensures
        final(queue)@ == old(queue)@.push(req),
{
    queue.push(req);
}

/// Takes the oldest save offer.
pub fn try_take_save_offer_request<R>(queue: &mut Vec<SaveOfferRequest<R>>) -> (r: Option<
    SaveOfferRequest<R>,
>)
    ensures
        oldest_taken(old(queue)@, r, final(queue)@),
{
    if queue.len() == 0 {
        None
    } else {
        let req = queue.remove(0);
        assert(queue@ =~= old(queue)@.drop_first());
        Some(req)
    }
}

/// The record space that was asked for last and that the window has not picked up. One slot,
/// not a queue: of several regions in a row the last one is meant. Inside a pending change,
/// `None` stands for the full screen.
#[derive(Debug, Clone, Copy, PartialEq, Eq, Structural)]
pub struct RecordSpaceSlot {
    pub pending: Option<Option<CaptureRegion>>,
}

impl Default for RecordSpaceSlot {
    fn default() -> (r: Self)
        ensures
            r.pending is None,
    {
        RecordSpaceSlot { pending: None }
    }
}

/// Asks for a record space. A change that is still pending is replaced.
pub fn push_record_space_to_ui(slot: &mut RecordSpaceSlot, region: Option<CaptureRegion>)
    ensures
        final(slot).pending == Some(region),
{
    slot.pending = Some(region);
}

/// Takes the pending change, which is then pending no more.
pub fn try_take_record_space(slot: &mut RecordSpaceSlot) -> (r: Option<Option<CaptureRegion>>)
    ensures
        r == old(slot).pending,
        final(slot).pending is None,
{
    slot.pending.take()
}

/// What the server knows.
#[derive(Debug, Clone)]
pub struct IpcServerState {
    pub muxer_config: Option<MuxerConfig>,
    /// Whether a recording is running.
    pub recording: bool,
    /// When the server started, in nanoseconds on the monotonic clock.
    pub started_at: u64,
}

impl IpcServerState {
    /// The state of a server that starts at `now`.
    pub fn new(now: u64) -> (r: Self)
        ensures
            r.muxer_config is None,
            !r.recording,
            r.started_at == now,
    {
        IpcServerState { muxer_config: None, recording: false, started_at: now }
    }

    /// Nanoseconds since the server started.
    pub open spec fn uptime(self, now: u64) -> u64 {
        if now >= self.started_at {
            (now - self.started_at) as u64
        } else {
            0
        }
    }
}

/// The server: its state, and whether there is a window that can be asked for consent.
#[derive(Debug, Clone)]
pub struct IpcServer {
    pub state: IpcServerState,
    pub asks_consent: bool,
}

/// What the server does with a command.
#[derive(Debug, Clone)]
pub enum IpcStep {
    /// Broadcast the event, if there is one, and answer.
    Reply { event: Option<TelemetryEvent>, response: IpcResponse },
    /// Ask the user for consent, within five seconds.
    AskConsent { requester: Option<String> },
    /// Offer the copy to the window, within thirty seconds.
    OfferSave { path: String },
    /// Stop without an answer.
    Stop,
}

/// How long the user has to consent, in seconds.
pub const CONSENT_TIMEOUT_SECS: u64 = 5;

/// How long the window has to take an offered copy, in seconds.
pub const SAVE_OFFER_TIMEOUT_SECS: u64 = 30;

/// How asking for consent ended.
#[derive(Debug, Clone, Copy, PartialEq, Eq, Structural)]
pub enum ConsentOutcome {
    /// The window no longer takes requests.
    ChannelClosed,
    Answered(bool),
    /// No answer in time, or none any more.
    NoAnswer,
}

/// How offering a copy ended.
#[derive(Debug, Clone)]
pub enum SaveOfferOutcome {
    /// `None`: declined.
    Answered(Option<String>),
    /// No answer in time, or none any more.
    NoAnswer,
}

/// The response is an error with this text.
pub open spec fn is_error(r: IpcResponse, text: Seq<char>) -> bool {
    r matches IpcResponse::Error(e) && e@ == text
}

fn error(text: &str) -> (r: IpcResponse)
    ensures
        is_error(r, text@),
{
    IpcResponse::Error(String::from_str(text))
}

/// `r` answers a request for consent that ended like this.
pub open spec fn answers_consent(outcome: ConsentOutcome, r: IpcResponse) -> bool {
    match outcome {
        ConsentOutcome::ChannelClosed => is_error(r, "consent_channel_closed"@),
        ConsentOutcome::Answered(true) => r is Done,
        ConsentOutcome::Answered(false) => is_error(r, "declined"@),
        ConsentOutcome::NoAnswer => is_error(r, "consent_timeout"@),
    }
}

/// The answer to a request for consent.
pub fn consent_response(outcome: ConsentOutcome) -> (r: IpcResponse)
    ensures
        answers_consent(outcome, r),
{
    match outcome {
        ConsentOutcome::ChannelClosed => error("consent_channel_closed"),
        ConsentOutcome::Answered(accepted) => {
            if accepted {
                IpcResponse::Done
            } else {
                error("declined")
            }
        },
        ConsentOutcome::NoAnswer => error("consent_timeout"),
    }
}

/// `r` answers an offered copy that ended like this.
pub open spec fn answers_offer(outcome: SaveOfferOutcome, r: IpcResponse) -> bool {
    match outcome {
        SaveOfferOutcome::Answered(Some(_)) => r is Done,
        SaveOfferOutcome::Answered(None) => is_error(r, "declined"@),
        SaveOfferOutcome::NoAnswer => is_error(r, "save_offer_timeout"@),
    }
}

/// The answer to an offered copy.
pub fn save_offer_response(outcome: &SaveOfferOutcome) -> (r: IpcResponse)
    ensures
        answers_offer(*outcome, r),
{
    match outcome {
        SaveOfferOutcome::Answered(chosen) => {
            if chosen.is_some() {
                IpcResponse::Done
            } else {
                error("declined")
            }
        },
        SaveOfferOutcome::NoAnswer => error("save_offer_timeout"),
    }
}

impl IpcServer {
    /// A server that starts at `now`. With `asks_consent` a window answers requests to
    /// record; without, they are granted.
    pub fn new(now: u64, asks_consent: bool) -> (r: Self)
        ensures
            r.state.muxer_config is None,
            !r.state.recording,
            r.state.started_at == now,
            r.asks_consent == asks_consent,
    {
        IpcServer { state: IpcServerState::new(now), asks_consent }
    }

    /// The state after a command.
    pub open spec fn state_after(self, cmd: IpcCommand) -> IpcServerState {
        match cmd {
            IpcCommand::StartRecording => IpcServerState { recording: true, ..self.state },
            IpcCommand::StopRecording => IpcServerState { recording: false, ..self.state },
            IpcCommand::ConfigureMuxer(cfg) => IpcServerState {
                muxer_config: Some(cfg),
                ..self.state
            },
            _ => self.state,
        }
    }

    /// The pending record space after a command.
    pub open spec fn slot_after(slot: RecordSpaceSlot, cmd: IpcCommand) -> RecordSpaceSlot {
        match cmd {
            IpcCommand::SetRecordSpace { region } => RecordSpaceSlot { pending: Some(region) },
            _ => slot,
        }
    }

    /// What the server does with a command at `now`.
    pub open spec fn step_is(self, cmd: IpcCommand, now: u64, step: IpcStep) -> bool {
        match cmd {
            IpcCommand::StartRecording => step matches IpcStep::Reply { event, response } && event
                == Some(TelemetryEvent::RecordingStarted) && response is Done,
            IpcCommand::StopRecording => step matches IpcStep::Reply { event, response } && event
                == Some(TelemetryEvent::RecordingStopped) && response is Done,
            IpcCommand::RequestStartRecording { requester } => if self.asks_consent {
                step == (IpcStep::AskConsent { requester })
            } else {
                step matches IpcStep::Reply { event, response } && event is None && response is Done
            },
            IpcCommand::OfferSaveCopy { path, requester } => step == (IpcStep::OfferSave { path }),
            IpcCommand::GetStatus => step matches IpcStep::Reply { event, response } && event
                is None && response == (IpcResponse::Status {
                recording: self.state.recording,
                uptime_ms: self.state.uptime(now) / 1_000_000,
            }),
            IpcCommand::ConfigureMuxer(_) => step matches IpcStep::Reply { event, response }
                && event is None && response is Done,
            IpcCommand::SetRecordSpace { .. } => step matches IpcStep::Reply { event, response }
                && event is None && response is Done,
            IpcCommand::GetHealthStatus => step matches IpcStep::Reply { event, response } && event
                is None && (response matches IpcResponse::HealthStatus {
                status,
                uptime_nanos,
                encoding_available,
                recording_active,
                frames_captured,
                frames_dropped,
            } && status@ == "ok"@ && uptime_nanos == self.state.uptime(now) && encoding_available
                && recording_active == self.state.recording && frames_captured is None
                && frames_dropped is None),
            IpcCommand::Shutdown => step is Stop,
        }
    }

    /// Takes one command.
    pub fn handle_command(&mut self, cmd: IpcCommand, now: u64, slot: &mut RecordSpaceSlot) -> (step:
        IpcStep)
        ensures
            old(self).step_is(cmd, now, step),
            final(self).state == old(self).state_after(cmd),
            final(self).asks_consent == old(self).asks_consent,
            *final(slot) == Self::slot_after(*old(slot), cmd),
    {
        let uptime: u64 = if now >= self.state.started_at {
            now - self.state.started_at
        } else {
            0
        };
        match cmd {
            IpcCommand::StartRecording => {
                self.state.recording = true;
                IpcStep::Reply {
                    event: Some(TelemetryEvent::RecordingStarted),
                    response: IpcResponse::Done,
                }
            },
            IpcCommand::RequestStartRecording { requester } => {
                if self.asks_consent {
                    IpcStep::AskConsent { requester }
                } else {
                    IpcStep::Reply { event: None, response: IpcResponse::Done }
                }
            },
            IpcCommand::OfferSaveCopy { path, requester } => IpcStep::OfferSave { path },
            IpcCommand::StopRecording => {
                self.state.recording = false;
                IpcStep::Reply {
                    event: Some(TelemetryEvent::RecordingStopped),
                    response: IpcResponse::Done,
                }
            },
            IpcCommand::GetStatus => IpcStep::Reply {
                event: None,
                response: IpcResponse::Status {
                    recording: self.state.recording,
                    uptime_ms: uptime / 1_000_000,
                },
            },
            IpcCommand::ConfigureMuxer(cfg) => {
                self.state.muxer_config = Some(cfg);
                IpcStep::Reply { event: None, response: IpcResponse::Done }
            },
            IpcCommand::SetRecordSpace { region } => {
                push_record_space_to_ui(slot, region);
                IpcStep::Reply { event: None, response: IpcResponse::Done }
            },
            IpcCommand::GetHealthStatus => IpcStep::Reply {
                event: None,
                response: IpcResponse::HealthStatus {
                    status: String::from_str("ok"),
                    uptime_nanos: uptime,
                    encoding_available: true,
                    recording_active: self.state.recording,
                    frames_captured: None,
                    frames_dropped: None,
                },
            },
            IpcCommand::Shutdown => IpcStep::Stop,
        }
    }
}

/// The state after a series of commands.
pub open spec fn state_after_all(server: IpcServer, cmds: Seq<IpcCommand>) -> IpcServerState
    decreases cmds.len(),
{
    if cmds.len() == 0 {
        server.state
    } else {
        (IpcServer {
            state: state_after_all(server, cmds.drop_last()),
            ..server
        }).state_after(cmds.last())
    }
}

/// Is a recording running after these commands? The last start or stop decides.
pub open spec fn last_start_or_stop(before: bool, cmds: Seq<IpcCommand>) -> bool
    decreases cmds.len(),
{
    if cmds.len() == 0 {
        before
    } else if cmds.last() is StartRecording {
        true
    } else if cmds.last() is StopRecording {
        false
    } else {
        last_start_or_stop(before, cmds.drop_last())
    }
}

/// The status that the server reports follows the last start or stop that it was sent,
/// whatever else came in between.
pub proof fn status_reflects_the_last_start_or_stop(server: IpcServer, cmds: Seq<IpcCommand>)
    ensures
        state_after_all(server, cmds).recording == last_start_or_stop(
            server.state.recording,
            cmds,
        ),
        state_after_all(server, cmds).started_at == server.state.started_at,
    decreases cmds.len(),
{
    if cmds.len() > 0 {
        status_reflects_the_last_start_or_stop(server, cmds.drop_last());
    }
}

/// Where a window can be asked, a request to record is granted exactly when the user consents;
/// it is an error when the user declines, does not answer in time, or cannot be asked. The
/// request alone starts nothing.
pub proof fn a_request_to_record_needs_consent(
    server: IpcServer,
    requester: Option<String>,
    now: u64,
    step: IpcStep,
    outcome: ConsentOutcome,
    response: IpcResponse,
)
    requires
        server.asks_consent,
        server.step_is(IpcCommand::RequestStartRecording { requester }, now, step),
        answers_consent(outcome, response),
    ensures
        step == (IpcStep::AskConsent { requester }),
        response is Done <==> outcome == ConsentOutcome::Answered(true),
        outcome == ConsentOutcome::Answered(false) ==> is_error(response, "declined"@),
        server.state_after(IpcCommand::RequestStartRecording { requester }) == server.state,
{
}

/// An offered copy is acknowledged exactly when the user chooses a place for it.
pub proof fn an_offer_is_acknowledged_only_when_taken(
    server: IpcServer,
    path: String,
    requester: Option<String>,
    now: u64,
    step: IpcStep,
    outcome: SaveOfferOutcome,
    response: IpcResponse,
)
    requires
        server.step_is(IpcCommand::OfferSaveCopy { path, requester }, now, step),
        answers_offer(outcome, response),
    ensures
        step == (IpcStep::OfferSave { path }),
        response is Done <==> (outcome matches SaveOfferOutcome::Answered(chosen) && chosen is Some),
        server.state_after(IpcCommand::OfferSaveCopy { path, requester }) == server.state,
{
}

/// The pending record space after a series of commands that nobody picked up in between.
pub open spec fn slot_after_all(slot: RecordSpaceSlot, cmds: Seq<IpcCommand>) -> RecordSpaceSlot
    decreases cmds.len(),
{
    if cmds.len() == 0 {
        slot
    } else {
        IpcServer::slot_after(slot_after_all(slot, cmds.drop_last()), cmds.last())
    }
}

/// Of several record spaces in a row the window sees the last one.
pub proof fn the_last_record_space_wins(
    slot: RecordSpaceSlot,
    before: Seq<IpcCommand>,
    region: Option<CaptureRegion>,
    after: Seq<IpcCommand>,
)
    requires
        forall|i: int| 0 <= i < after.len() ==> !(#[trigger] after[i] is SetRecordSpace),
    ensures
        slot_after_all(slot, before.push(IpcCommand::SetRecordSpace { region }) + after).pending
            == Some(region),
    decreases after.len(),
{
    let all = before.push(IpcCommand::SetRecordSpace { region }) + after;
    if after.len() == 0 {
        assert(all =~= before.push(IpcCommand::SetRecordSpace { region }));
        assert(all.drop_last() =~= before);
    } else {
        the_last_record_space_wins(slot, before, region, after.drop_last());
        assert(all.drop_last() =~= before.push(IpcCommand::SetRecordSpace { region })
            + after.drop_last());
        assert(all.last() == after[after.len() - 1]);
    }
}

/// What a client makes of a command: an error if the command could not be sent or no
/// response came, else the response.
pub fn send_outcome(sent: bool, response: Option<IpcResponse>) -> (r: Result<IpcResponse, IpcError>)
    ensures
        match r {
            Ok(resp) => sent && response == Some(resp),
            Err(e) => if sent {
                response is None && e.message@ == "Failed to receive response"@
            } else {
                e.message@ == "Failed to send command"@
            },
        },
{
    if !sent {
        return Err(IpcError { message: String::from_str("Failed to send command") });
    }
    match response {
        Some(resp) => Ok(resp),
        None => Err(IpcError { message: String::from_str("Failed to receive response") }),
    }
}

/// The server says whether it records and for how long it has been up: the last start or stop
/// decides, and whole milliseconds count. Asking changes nothing.
pub proof fn the_status_is_told_as_it_is(
    server: IpcServer,
    cmds: Seq<IpcCommand>,
    now: u64,
    step: IpcStep,
)
    requires
        (IpcServer { state: state_after_all(server, cmds), ..server }).step_is(
            IpcCommand::GetStatus,
            now,
            step,
        ),
    ensures
        step matches IpcStep::Reply { event, response } && event is None && (
        response matches IpcResponse::Status { recording, uptime_ms } && {
            &&& recording == last_start_or_stop(server.state.recording, cmds)
            &&& now >= server.state.started_at ==> uptime_ms * 1_000_000 <= now
                - server.state.started_at < (uptime_ms + 1) * 1_000_000
            &&& now < server.state.started_at ==> uptime_ms == 0
        }),
        state_after_all(server, cmds.push(IpcCommand::GetStatus)) == state_after_all(server, cmds),
{
    status_reflects_the_last_start_or_stop(server, cmds);
    assert(cmds.push(IpcCommand::GetStatus).drop_last() =~= cmds);
}

/// The health of the server tells the same, in nanoseconds, and claims nothing about frames, which
/// the server does not see.
pub proof fn the_health_is_told_as_it_is(
    server: IpcServer,
    cmds: Seq<IpcCommand>,
    now: u64,
    step: IpcStep,
)
    requires
        (IpcServer { state: state_after_all(server, cmds), ..server }).step_is(
            IpcCommand::GetHealthStatus,
            now,
            step,
        ),
    ensures
        step matches IpcStep::Reply { event, response } && event is None && (
        response matches IpcResponse::HealthStatus {
            status,
            uptime_nanos,
            encoding_available,
            recording_active,
            frames_captured,
            frames_dropped,
        } && {
            &&& recording_active == last_start_or_stop(server.state.recording, cmds)
            &&& now >= server.state.started_at ==> server.state.started_at + uptime_nanos == now
            &&& now < server.state.started_at ==> uptime_nanos == 0
            &&& encoding_available && frames_captured is None && frames_dropped is None
            &&& status@ == "ok"@
        }),
        state_after_all(server, cmds.push(IpcCommand::GetHealthStatus)) == state_after_all(
            server,
            cmds,
        ),
{
    status_reflects_the_last_start_or_stop(server, cmds);
    assert(cmds.push(IpcCommand::GetHealthStatus).drop_last() =~= cmds);
}

/// Every command is acknowledged at once, but for those that ask for something: a start and a stop
/// are broadcast, a request to record is put to the user where one can be asked, an offer is
/// handed on with its path, and a shutdown is not answered.
pub proof fn every_command_is_answered(server: IpcServer, cmd: IpcCommand, now: u64, step: IpcStep)
    requires
        server.step_is(cmd, now, step),
    ensures
        cmd is Shutdown <==> step is Stop,
        step is AskConsent <==> cmd is RequestStartRecording && server.asks_consent,
        step is OfferSave <==> cmd is OfferSaveCopy,
        cmd matches IpcCommand::OfferSaveCopy { path, requester } ==> step == (IpcStep::OfferSave {
            path,
        }),
        cmd matches IpcCommand::RequestStartRecording { requester } ==> (step is AskConsent ==> step
            == (IpcStep::AskConsent { requester })),
        step matches IpcStep::Reply { event, response } ==> {
            &&& cmd is StartRecording ==> event == Some(TelemetryEvent::RecordingStarted)
            &&& cmd is StopRecording ==> event == Some(TelemetryEvent::RecordingStopped)
            &&& !(cmd is StartRecording || cmd is StopRecording) ==> event is None
            &&& !(cmd is GetStatus || cmd is GetHealthStatus) ==> response is Done
        },
{
}

/// A command changes what it is about and nothing else: a start and a stop whether a recording is
/// running, a configuration the one that is remembered, a record space the one that waits for the
/// window.
pub proof fn a_command_changes_what_it_is_about(
    server: IpcServer,
    slot: RecordSpaceSlot,
    cmd: IpcCommand,
)
    ensures
        ({
            let after = server.state_after(cmd);
            &&& after.started_at == server.state.started_at
            &&& after.recording == (cmd is StartRecording || (server.state.recording && !(cmd
                is StopRecording)))
            &&& cmd matches IpcCommand::ConfigureMuxer(config) ==> after.muxer_config == Some(config)
            &&& !(cmd is ConfigureMuxer) ==> after.muxer_config == server.state.muxer_config
            &&& cmd matches IpcCommand::SetRecordSpace { region } ==> IpcServer::slot_after(
                slot,
                cmd,
            ).pending == Some(region)
            &&& !(cmd is SetRecordSpace) ==> IpcServer::slot_after(slot, cmd) == slot
        }),
{
}

/// Each way in which asking for consent or offering a copy can end has an answer of its own.
pub proof fn outcomes_have_answers_of_their_own(
    consent: ConsentOutcome,
    offer: SaveOfferOutcome,
    to_consent: IpcResponse,
    to_offer: IpcResponse,
)
    requires
        answers_consent(consent, to_consent),
        answers_offer(offer, to_offer),
    ensures
        to_consent is Done <==> consent == ConsentOutcome::Answered(true),
        consent == ConsentOutcome::Answered(false) ==> (to_consent matches IpcResponse::Error(e)
            && e@ == "declined"@),
        consent is NoAnswer ==> (to_consent matches IpcResponse::Error(e) && e@
            == "consent_timeout"@),
        consent is ChannelClosed ==> (to_consent matches IpcResponse::Error(e) && e@
            == "consent_channel_closed"@),
        to_offer is Done <==> (offer matches SaveOfferOutcome::Answered(place) && place is Some),
        offer is NoAnswer ==> (to_offer matches IpcResponse::Error(e) && e@ == "save_offer_timeout"@),
        offer matches SaveOfferOutcome::Answered(None) ==> (to_offer matches IpcResponse::Error(e)
            && e@ == "declined"@),
{
}

/// A recording lies in its output folder: under its own name, under date and time, or under the
/// time in a folder of the date.
pub proof fn a_recording_is_named_by_its_strategy(
    config: MuxerConfig,
    date: Seq<char>,
    time: Seq<char>,
)
    requires
        is_date(date),
        is_time(time, '-'),
        config.base_output_path@.len() > 0,
        config.base_output_path@.last() != '/',
    ensures
        ({
            let base = config.base_output_path@.push('/');
            match config.file_naming_strategy {
                FileNamingStrategy::Simple(name) => name@.len() > 0 && name@[0] != '/'
                    ==> config.path_at(date, time) == base + name@,
                FileNamingStrategy::TimestampedFile => config.path_at(date, time) == base + date
                    + seq!['_'] + time + seq!['.', 'm', 'p', '4'],
                FileNamingStrategy::TimestampedFolder => config.path_at(date, time) == base + date
                    + seq!['/'] + time + seq!['.', 'm', 'p', '4'],
            }
        }),
{
    reveal_strlit("_");
    reveal_strlit(".mp4");
    let base = config.base_output_path@;
    assert(".mp4"@ =~= seq!['.', 'm', 'p', '4']);
    assert(!absolute(date)) by {
        assert(date.take(date.len() - 6)[0] == date[0]);
    }
    assert(!absolute(time + ".mp4"@)) by {
        assert((time + ".mp4"@)[0] == time[0]);
    }
    assert(!absolute(date + "_"@ + time + ".mp4"@)) by {
        assert((date + "_"@ + time + ".mp4"@)[0] == date[0]);
    }
    match config.file_naming_strategy {
        FileNamingStrategy::Simple(name) => {},
        FileNamingStrategy::TimestampedFile => {
            assert(config.path_at(date, time) =~= base.push('/') + date + seq!['_'] + time + seq![
                '.',
                'm',
                'p',
                '4',
            ]);
        },
        FileNamingStrategy::TimestampedFolder => {
            let folder = joined(base, date);
            assert(folder =~= base.push('/') + date);
            assert(folder.last() == date[date.len() - 1]);
            assert(config.path_at(date, time) =~= base.push('/') + date + seq!['/'] + time + seq![
                '.',
                'm',
                'p',
                '4',
            ]);
        },
    }
}

} // verus!
