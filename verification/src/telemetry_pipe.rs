//! The telemetry stream: one JSON line per frame, and the farewell at its end.
use vstd::prelude::*;
use vstd::string::*;

use crate::app_state::next_count;
use crate::clock::{is_utc_instant, utc_now_rfc3339};
use crate::json::{
    empty_object, grafted, json_object, json_parse, json_read, json_render, json_text, json_text_at,
    number_is_at, object_nodes, one_line, plain_key, pointer_to, put_number, put_object, put_text, reads_back,
    lemma_graft_within, lemma_number_within, lemma_text_within, text_at, within, JsonNode, JsonNodes,
};
use crate::path::{absolute, is_absolute, join, joined};
use crate::text::{begins, dec, is_blank, opt_text, same, trim, trimmed};

verus! {

/// The pipe that telemetry goes to: what the environment names, or the listener's default.
pub fn telemetry_pipe_path(named: &Option<String>) -> (r: String)
    ensures
        r@ == match *named {
            Some(path) => path@,
            None => "\\\\.\\pipe\\bsr-telemetry"@,
        },
{
    match named {
        Some(path) => path.clone(),
        None => String::from_str("\\\\.\\pipe\\bsr-telemetry"),
    }
}

/// One frame as telemetry reports it.
#[derive(Debug, Clone, PartialEq, Eq)]
pub struct FrameInfo {
    pub sequence: u64,
    pub width: u32,
    pub height: u32,
    pub size_bytes: usize,
    pub timestamp: u64,
}

/// Where the telemetry log goes: where `BSR_TELEMETRY_LOG` says, unless that is blank; else
/// below an absolute `XDG_STATE_HOME`, else below the state directory of the home directory,
/// else below the directory for temporary files.
pub open spec fn log_path(
    explicit: Option<Seq<char>>,
    state_home: Option<Seq<char>>,
    home: Option<Seq<char>>,
    temp_dir: Seq<char>,
) -> Seq<char> {
    match explicit {
        Some(e) if trimmed(e).len() > 0 => e,
        _ => {
            let base = match (state_home, home) {
                (Some(s), _) if absolute(s) => s,
                (_, Some(h)) => joined(joined(h, ".local"@), "state"@),
                (_, None) => temp_dir,
            };
            joined(joined(base, "bsr"@), "telemetry.log"@)
        },
    }
}

/// Where the telemetry log goes.
///
/// A relative default would be a different file depending on who started the process.
pub fn default_telemetry_log_path(
    explicit: &Option<String>,
    state_home: &Option<String>,
    home: &Option<String>,
    temp_dir: &str,
) -> (r: String)
    ensures
        r@ == log_path(opt_text(*explicit), opt_text(*state_home), opt_text(*home), temp_dir@),
{
    if let Some(e) = explicit {
        if !is_blank(e.as_str()) {
            return e.clone();
        }
    }
    let mut base: Option<String> = None;
    if let Some(s) = state_home {
        if is_absolute(s.as_str()) {
            base = Some(s.clone());
        }
    }
    let base = match base {
        Some(b) => b,
        None => match home {
            Some(h) => {
                let local = join(h.as_str(), ".local");
                join(local.as_str(), "state")
            },
            None => String::from_str(temp_dir),
        },
    };
    let dir = join(base.as_str(), "bsr");
    join(dir.as_str(), "telemetry.log")
}

/// Without an explicit path the log path is absolute, if the home directory and the
/// directory for temporary files are.
pub proof fn default_log_path_is_absolute(
    explicit: Option<Seq<char>>,
    state_home: Option<Seq<char>>,
    home: Option<Seq<char>>,
    temp_dir: Seq<char>,
)
    requires
        explicit matches Some(e) ==> trimmed(e).len() == 0,
        home matches Some(h) ==> absolute(h),
        absolute(temp_dir),
    ensures
        absolute(log_path(explicit, state_home, home, temp_dir)),
{
    reveal_strlit(".local");
    reveal_strlit("state");
    reveal_strlit("bsr");
    reveal_strlit("telemetry.log");
    let base = match (state_home, home) {
        (Some(s), _) if absolute(s) => s,
        (_, Some(h)) => joined(joined(h, ".local"@), "state"@),
        (_, None) => temp_dir,
    };
    assert(absolute(base));
    assert(absolute(joined(base, "bsr"@)));
}

/// The document that reports a frame, written at `timestamp`.
pub open spec fn frame_document(info: FrameInfo, timestamp: Seq<char>) -> JsonNodes {
    let data = empty_object().insert(
        pointer_to("sequence"@),
        JsonNode::Number(dec(info.sequence as nat)),
    ).insert(pointer_to("width"@), JsonNode::Number(dec(info.width as nat))).insert(
        pointer_to("height"@),
        JsonNode::Number(dec(info.height as nat)),
    ).insert(pointer_to("size_bytes"@), JsonNode::Number(dec(info.size_bytes as nat)));
    let event = grafted(
        empty_object().insert(pointer_to("event"@), JsonNode::Text("FrameCaptured"@)),
        "data"@,
        data,
    );
    grafted(
        empty_object().insert(pointer_to("timestamp"@), JsonNode::Text(timestamp)).insert(
            pointer_to("sequence"@),
            JsonNode::Number(dec(info.sequence as nat)),
        ),
        "event"@,
        event,
    )
}

/// The document that ends the stream after `frames` frames, written at `timestamp`.
pub open spec fn done_document(frames: u64, timestamp: Seq<char>) -> JsonNodes {
    let data = empty_object().insert(
        pointer_to("frames_sent"@),
        JsonNode::Number(dec(frames as nat)),
    );
    let event = grafted(
        empty_object().insert(pointer_to("event"@), JsonNode::Text("TelemetryDone"@)),
        "data"@,
        data,
    );
    grafted(
        empty_object().insert(pointer_to("timestamp"@), JsonNode::Text(timestamp)),
        "event"@,
        event,
    )
}

/// The document with which the listener confirms the end of the stream.
pub open spec fn ack_document() -> JsonNodes {
    empty_object().insert(pointer_to("ack"@), JsonNode::Text("drain_complete"@))
}

/// The names of all members, and what sets them apart.
proof fn lemma_keys()
    ensures
        plain_key("timestamp"@),
        plain_key("sequence"@),
        plain_key("event"@),
        plain_key("data"@),
        plain_key("width"@),
        plain_key("height"@),
        plain_key("size_bytes"@),
        plain_key("frames_sent"@),
        plain_key("ack"@),
        pointer_to("timestamp"@) == "/timestamp"@,
        pointer_to("sequence"@) == "/sequence"@,
        pointer_to("event"@) == "/event"@,
        pointer_to("data"@) == "/data"@,
        pointer_to("width"@) == "/width"@,
        pointer_to("height"@) == "/height"@,
        pointer_to("size_bytes"@) == "/size_bytes"@,
        pointer_to("frames_sent"@) == "/frames_sent"@,
        pointer_to("ack"@) == "/ack"@,
        "/timestamp"@.len() == 10 && "/timestamp"@[1] == 't',
        "/sequence"@.len() == 9 && "/sequence"@[1] == 's' && "/sequence"@[2] == 'e',
        "/event"@.len() == 6 && "/event"@[1] == 'e',
        "/data"@.len() == 5 && "/data"@[1] == 'd',
        "/width"@.len() == 6 && "/width"@[1] == 'w',
        "/height"@.len() == 7 && "/height"@[1] == 'h',
        "/size_bytes"@.len() == 11 && "/size_bytes"@[1] == 's' && "/size_bytes"@[2] == 'i',
        "/frames_sent"@.len() == 12 && "/frames_sent"@[1] == 'f',
        "/ack"@.len() == 4 && "/ack"@[1] == 'a',
{
    reveal_strlit("/");
    reveal_strlit("timestamp");
    reveal_strlit("sequence");
    reveal_strlit("event");
    reveal_strlit("data");
    reveal_strlit("width");
    reveal_strlit("height");
    reveal_strlit("size_bytes");
    reveal_strlit("frames_sent");
    reveal_strlit("ack");
    reveal_strlit("/timestamp");
    reveal_strlit("/sequence");
    reveal_strlit("/event");
    reveal_strlit("/data");
    reveal_strlit("/width");
    reveal_strlit("/height");
    reveal_strlit("/size_bytes");
    reveal_strlit("/frames_sent");
    reveal_strlit("/ack");
    assert(pointer_to("timestamp"@) =~= "/timestamp"@);
    assert(pointer_to("sequence"@) =~= "/sequence"@);
    assert(pointer_to("event"@) =~= "/event"@);
    assert(pointer_to("data"@) =~= "/data"@);
    assert(pointer_to("width"@) =~= "/width"@);
    assert(pointer_to("height"@) =~= "/height"@);
    assert(pointer_to("size_bytes"@) =~= "/size_bytes"@);
    assert(pointer_to("frames_sent"@) =~= "/frames_sent"@);
    assert(pointer_to("ack"@) =~= "/ack"@);
}

proof fn lemma_frame_reads_back(info: FrameInfo, timestamp: Seq<char>)
    ensures
        reads_back(frame_document(info, timestamp)),
{
    lemma_keys();
    let e = empty_object();
    assert(within(e, 20));
    assert(within(e, 40));
    assert(within(e, 100));
    lemma_number_within(e, "/sequence"@, info.sequence, 20);
    let d1 = e.insert("/sequence"@, JsonNode::Number(dec(info.sequence as nat)));
    lemma_number_within(d1, "/width"@, info.width as u64, 20);
    let d2 = d1.insert("/width"@, JsonNode::Number(dec(info.width as nat)));
    lemma_number_within(d2, "/height"@, info.height as u64, 20);
    let d3 = d2.insert("/height"@, JsonNode::Number(dec(info.height as nat)));
    lemma_number_within(d3, "/size_bytes"@, info.size_bytes as u64, 20);
    let data = d3.insert("/size_bytes"@, JsonNode::Number(dec(info.size_bytes as nat)));
    lemma_text_within(e, "/event"@, "FrameCaptured"@, 40);
    let kind = e.insert("/event"@, JsonNode::Text("FrameCaptured"@));
    assert(within(data, 20));
    lemma_graft_within(kind, "data"@, data, 40);
    lemma_text_within(e, "/timestamp"@, timestamp, 100);
    let head = e.insert("/timestamp"@, JsonNode::Text(timestamp));
    lemma_number_within(head, "/sequence"@, info.sequence, 100);
    let event = grafted(kind, "data"@, data);
    assert(within(event, 40));
    lemma_graft_within(
        head.insert("/sequence"@, JsonNode::Number(dec(info.sequence as nat))),
        "event"@,
        event,
        100,
    );
}

proof fn lemma_done_reads_back(frames: u64, timestamp: Seq<char>)
    ensures
        reads_back(done_document(frames, timestamp)),
{
    lemma_keys();
    let e = empty_object();
    assert(within(e, 20));
    assert(within(e, 40));
    assert(within(e, 100));
    lemma_number_within(e, "/frames_sent"@, frames, 20);
    let data = e.insert("/frames_sent"@, JsonNode::Number(dec(frames as nat)));
    lemma_text_within(e, "/event"@, "TelemetryDone"@, 40);
    let kind = e.insert("/event"@, JsonNode::Text("TelemetryDone"@));
    assert(within(data, 20));
    lemma_graft_within(kind, "data"@, data, 40);
    let event = grafted(kind, "data"@, data);
    lemma_text_within(e, "/timestamp"@, timestamp, 100);
    assert(within(event, 40));
    lemma_graft_within(e.insert("/timestamp"@, JsonNode::Text(timestamp)), "event"@, event, 100);
}

/// The line that reports a frame at `timestamp`.
pub fn frame_envelope_at(info: &FrameInfo, timestamp: &str) -> (r: Option<String>)
    ensures
        r matches Some(s) && s@ == json_text(frame_document(*info, timestamp@)) && one_line(s@)
            && json_read(s@) == Some(frame_document(*info, timestamp@)),
{
    proof {
        lemma_keys();
    }
    let mut data = json_object();
    put_number(&mut data, "sequence", info.sequence);
    put_number(&mut data, "width", info.width as u64);
    put_number(&mut data, "height", info.height as u64);
    put_number(&mut data, "size_bytes", info.size_bytes as u64);
    let mut event = json_object();
    put_text(&mut event, "event", "FrameCaptured");
    put_object(&mut event, "data", data);
    let mut envelope = json_object();
    put_text(&mut envelope, "timestamp", timestamp);
    put_number(&mut envelope, "sequence", info.sequence);
    put_object(&mut envelope, "event", event);
    assert(object_nodes(envelope) == frame_document(*info, timestamp@));
    match json_render(envelope) {
        Ok(s) => {
            proof {
                lemma_frame_reads_back(*info, timestamp@);
            }
            Some(s)
        },
        Err(_) => None,
    }
}

/// The line that reports a frame now.
pub fn frame_envelope(info: &FrameInfo) -> (r: Option<String>)
    ensures
        r matches Some(s) && is_frame_line(s@, *info),
{
    let timestamp = utc_now_rfc3339();
    frame_envelope_at(info, timestamp.as_str())
}

/// The line reports this frame, at some time.
pub open spec fn is_frame_line(line: Seq<char>, info: FrameInfo) -> bool {
    &&& one_line(line)
    &&& exists|timestamp: Seq<char>|
        is_utc_instant(timestamp) && line == json_text(#[trigger] frame_document(info, timestamp))
            && json_read(line) == Some(frame_document(info, timestamp))
}

/// The line ends the stream after this many frames, at some time.
pub open spec fn is_done_line(line: Seq<char>, frames: u64) -> bool {
    &&& one_line(line)
    &&& exists|timestamp: Seq<char>|
        is_utc_instant(timestamp) && line == json_text(#[trigger] done_document(frames, timestamp))
            && json_read(line) == Some(done_document(frames, timestamp))
}

/// The line that ends the stream at `timestamp`.
pub fn done_envelope_at(frames: u64, timestamp: &str) -> (r: Option<String>)
    ensures
        r matches Some(s) && s@ == json_text(done_document(frames, timestamp@)) && one_line(s@)
            && json_read(s@) == Some(done_document(frames, timestamp@)),
{
    proof {
        lemma_keys();
    }
    let mut data = json_object();
    put_number(&mut data, "frames_sent", frames);
    let mut event = json_object();
    put_text(&mut event, "event", "TelemetryDone");
    put_object(&mut event, "data", data);
    let mut envelope = json_object();
    put_text(&mut envelope, "timestamp", timestamp);
    put_object(&mut envelope, "event", event);
    assert(object_nodes(envelope) == done_document(frames, timestamp@));
    match json_render(envelope) {
        Ok(s) => {
            proof {
                lemma_done_reads_back(frames, timestamp@);
            }
            Some(s)
        },
        Err(_) => None,
    }
}

/// The line that ends the stream now.
pub fn done_envelope(frames: u64) -> (r: Option<String>)
    ensures
        r matches Some(s) && is_done_line(s@, frames),
{
    let timestamp = utc_now_rfc3339();
    done_envelope_at(frames, timestamp.as_str())
}

/// The line with which the listener confirms the end of the stream.
pub fn ack_envelope() -> (r: String)
    ensures
        r@ == json_text(ack_document()),
        one_line(r@),
        json_read(r@) == Some(ack_document()),
{
    proof {
        lemma_keys();
    }
    let mut ack = json_object();
    put_text(&mut ack, "ack", "drain_complete");
    assert(object_nodes(ack) == ack_document());
    match json_render(ack) {
        Ok(s) => {
            proof {
                assert(within(empty_object(), 100));
                lemma_text_within(empty_object(), "/ack"@, "drain_complete"@, 100);
            }
            s
        },
        Err(_) => String::from_str("{\"ack\":\"drain_complete\"}"),
    }
}

/// How waiting for the confirmation ended.
#[derive(Debug, Clone)]
pub enum AckRead {
    /// A line arrived.
    Line(String),
    /// The listener closed the connection.
    Closed,
    /// Reading failed.
    Failed,
    /// Nothing came in time.
    TimedOut,
}

/// What the client makes of it.
#[derive(Debug, Clone, Copy, PartialEq, Eq, Structural)]
pub enum AckVerdict {
    DrainComplete,
    /// A document, but not the confirmation.
    Unexpected,
    /// Not a document at all.
    Unparsable,
    Closed,
    Failed,
    TimedOut,
}

/// What the client makes of a document whose member `ack` is this text, if it is one.
pub open spec fn document_verdict(ack: Option<Seq<char>>) -> AckVerdict {
    if ack == Some("drain_complete"@) {
        AckVerdict::DrainComplete
    } else {
        AckVerdict::Unexpected
    }
}

/// What the client makes of the line that came back.
pub open spec fn line_verdict(line: Seq<char>) -> AckVerdict {
    match json_read(trimmed(line)) {
        Some(nodes) => document_verdict(text_at(nodes, "/ack"@)),
        None => AckVerdict::Unparsable,
    }
}

/// Judges a document by its member `ack`.
pub fn judge_ack(ack: &Option<String>) -> (r: AckVerdict)
    ensures
        r == document_verdict(opt_text(*ack)),
{
    match ack {
        Some(a) => {
            if same(a.as_str(), "drain_complete") {
                AckVerdict::DrainComplete
            } else {
                AckVerdict::Unexpected
            }
        },
        None => AckVerdict::Unexpected,
    }
}

/// Judges what came back after the end of the stream.
pub fn ack_verdict(read: &AckRead) -> (r: AckVerdict)
    ensures
        r == match *read {
            AckRead::Line(line) => line_verdict(line@),
            AckRead::Closed => AckVerdict::Closed,
            AckRead::Failed => AckVerdict::Failed,
            AckRead::TimedOut => AckVerdict::TimedOut,
        },
{
    match read {
        AckRead::Line(line) => {
            let t = trim(line.as_str());
            match json_parse(t.as_str()) {
                Ok(v) => judge_ack(&json_text_at(&v, "/ack")),
                Err(_) => AckVerdict::Unparsable,
            }
        },
        AckRead::Closed => AckVerdict::Closed,
        AckRead::Failed => AckVerdict::Failed,
        AckRead::TimedOut => AckVerdict::TimedOut,
    }
}

/// Where the client is.
#[derive(Debug, Clone, Copy, PartialEq, Eq, Structural)]
pub enum ClientPhase {
    /// Not connected.
    Connecting,
    /// Connected, and passing frames on.
    Streaming,
    /// The farewell is on its way.
    Closing,
    /// Waiting for the confirmation.
    AwaitingAck,
    /// Done.
    Finished,
}

/// The client beside its connection.
#[derive(Debug, Clone, Copy, PartialEq, Eq, Structural)]
pub struct TelemetryClient {
    pub phase: ClientPhase,
    /// Frames written on this connection.
    pub frames_written: u64,
}

/// What the client waits for.
#[derive(Debug, Clone)]
pub enum ClientEvent {
    OpenFailed,
    Opened,
    Frame(FrameInfo),
    /// No more frames will come.
    FramesEnded,
    /// The line was written and flushed.
    Written,
    /// The line was not written; are frames still to come?
    WriteFailed { frames_ended: bool },
    Ack(AckRead),
}

/// What the client does next.
#[derive(Debug, Clone)]
pub enum ClientAction {
    /// Open the connection.
    Open,
    /// Wait a second, then open the connection.
    RetryOpen,
    /// Wait for a frame.
    ReceiveFrame,
    /// Write the line, a line break, and flush.
    WriteLine(String),
    /// Wait for the confirmation, within five seconds.
    AwaitAck,
    /// Close the connection; the confirmation ended like this.
    Close(AckVerdict),
    /// Leave.
    Exit,
}

/// How long to wait before the connection is tried again, in seconds.
pub const RETRY_OPEN_SECS: u64 = 1;

/// How long to wait for the confirmation, in seconds.
pub const ACK_TIMEOUT_SECS: u64 = 5;

impl TelemetryClient {
    pub fn new() -> (r: Self)
        ensures
            r == (TelemetryClient { phase: ClientPhase::Connecting, frames_written: 0 }),
    {
        TelemetryClient { phase: ClientPhase::Connecting, frames_written: 0 }
    }

    /// The events that can come in each phase.
    pub open spec fn accepts(self, event: ClientEvent) -> bool {
        match self.phase {
            ClientPhase::Connecting => event is OpenFailed || event is Opened,
            ClientPhase::Streaming => event is Frame || event is FramesEnded || event is Written
                || event is WriteFailed,
            ClientPhase::Closing => event is Written || event is WriteFailed,
            ClientPhase::AwaitingAck => event is Ack,
            ClientPhase::Finished => false,
        }
    }

    /// The client says farewell: it writes the line that ends the stream.
    pub open spec fn says_farewell(self, after: TelemetryClient, action: ClientAction) -> bool {
        &&& after.frames_written == self.frames_written
        &&& match action {
            ClientAction::WriteLine(line) => after.phase == ClientPhase::Closing && is_done_line(
                line@,
                self.frames_written,
            ),
            _ => false,
        }
    }

    /// What the client does with an event, and what becomes of it.
    pub open spec fn steps(self, event: ClientEvent, after: TelemetryClient, action: ClientAction) -> bool {
        match (self.phase, event) {
            (ClientPhase::Connecting, ClientEvent::OpenFailed) => after == self && action
                is RetryOpen,
            (ClientPhase::Connecting, _) => after == (TelemetryClient {
                phase: ClientPhase::Streaming,
                frames_written: 0,
            }) && action is ReceiveFrame,
            (ClientPhase::Streaming, ClientEvent::Frame(info)) => after == self && (action matches
                ClientAction::WriteLine(line) && is_frame_line(line@, info)),
            (ClientPhase::Streaming, ClientEvent::Written) => after == (TelemetryClient {
                frames_written: next_count(self.frames_written),
                ..self
            }) && action is ReceiveFrame,
            (ClientPhase::Streaming, ClientEvent::WriteFailed { frames_ended }) => if frames_ended {
                self.says_farewell(after, action)
            } else {
                after == (TelemetryClient { phase: ClientPhase::Connecting, ..self }) && action
                    is Open
            },
            (ClientPhase::Streaming, _) => self.says_farewell(after, action),
            (ClientPhase::Closing, ClientEvent::Written) => after == (TelemetryClient {
                phase: ClientPhase::AwaitingAck,
                ..self
            }) && action is AwaitAck,
            (ClientPhase::Closing, _) => after == (TelemetryClient {
                phase: ClientPhase::Finished,
                ..self
            }) && action is Exit,
            (_, ClientEvent::Ack(AckRead::Line(line))) => after == (TelemetryClient {
                phase: ClientPhase::Finished,
                ..self
            }) && action == ClientAction::Close(line_verdict(line@)),
            (_, ClientEvent::Ack(read)) => after == (TelemetryClient {
                phase: ClientPhase::Finished,
                ..self
            }) && (action matches ClientAction::Close(v) && (v is Closed <==> read is Closed) && (
            v is Failed <==> read is Failed) && (v is TimedOut <==> read is TimedOut)),
            _ => false,
        }
    }

    fn farewell(&mut self) -> (action: ClientAction)
        ensures
            old(self).says_farewell(*final(self), action),
    {
        match done_envelope(self.frames_written) {
            Some(line) => {
                self.phase = ClientPhase::Closing;
                ClientAction::WriteLine(line)
            },
            None => {
                self.phase = ClientPhase::Finished;
                ClientAction::Exit
            },
        }
    }

    /// Takes one event.
    pub fn on_event(&mut self, event: ClientEvent) -> (action: ClientAction)
        requires
            old(self).accepts(event),
        ensures
            old(self).steps(event, *final(self), action),
    {
        match event {
            ClientEvent::OpenFailed => ClientAction::RetryOpen,
            ClientEvent::Opened => {
                self.phase = ClientPhase::Streaming;
                self.frames_written = 0;
                ClientAction::ReceiveFrame
            },
            ClientEvent::Frame(info) => match frame_envelope(&info) {
                Some(line) => ClientAction::WriteLine(line),
                None => ClientAction::ReceiveFrame,
            },
            ClientEvent::FramesEnded => self.farewell(),
            ClientEvent::Written => {
                if self.phase == ClientPhase::Streaming {
                    self.frames_written = self.frames_written.wrapping_add(1);
                    ClientAction::ReceiveFrame
                } else {
                    self.phase = ClientPhase::AwaitingAck;
                    ClientAction::AwaitAck
                }
            },
            ClientEvent::WriteFailed { frames_ended } => {
                if self.phase == ClientPhase::Closing {
                    self.phase = ClientPhase::Finished;
                    ClientAction::Exit
                } else if frames_ended {
                    self.farewell()
                } else {
                    self.phase = ClientPhase::Connecting;
                    ClientAction::Open
                }
            },
            ClientEvent::Ack(read) => {
                self.phase = ClientPhase::Finished;
                ClientAction::Close(ack_verdict(&read))
            },
        }
    }
}

/// The confirmation that the listener sends is the one that the client waits for.
pub proof fn the_listeners_confirmation_is_recognised(line: Seq<char>)
    requires
        json_read(trimmed(line)) == Some(ack_document()),
    ensures
        line_verdict(line) == AckVerdict::DrainComplete,
{
    lemma_keys();
}

/// The sequence number that a document carries: its own, else that of its event, else zero.
pub open spec fn document_sequence(nodes: JsonNodes, seq: u64) -> bool {
    if exists|n: u64| number_is_at(nodes, "/sequence"@, n) {
        number_is_at(nodes, "/sequence"@, seq)
    } else if exists|n: u64| number_is_at(nodes, "/event/data/sequence"@, n) {
        number_is_at(nodes, "/event/data/sequence"@, seq)
    } else {
        seq == 0
    }
}

/// The document of a frame carries its sequence number.
pub proof fn lemma_frame_sequence(info: FrameInfo, timestamp: Seq<char>)
    ensures
        document_sequence(frame_document(info, timestamp), info.sequence),
{
    lemma_keys();
    reveal_strlit("/event");
    reveal_strlit("/sequence");
    assert(!begins("/sequence"@, "/event"@)) by {
        if begins("/sequence"@, "/event"@) {
            assert("/sequence"@.subrange(0, 6)[1] == "/event"@[1]);
        }
    }
    assert(number_is_at(frame_document(info, timestamp), "/sequence"@, info.sequence));
}

/// What is read from the line of a frame carries the sequence number of that frame and no
/// other, and names the kind of its event.
pub proof fn a_frame_line_carries_its_sequence(info: FrameInfo, timestamp: Seq<char>, seq: u64)
    requires
        document_sequence(frame_document(info, timestamp), seq),
    ensures
        seq == info.sequence,
        text_at(frame_document(info, timestamp), "/event/event"@) == Some("FrameCaptured"@),
        !frame_document(info, timestamp).dom().contains("/payload"@),
{
    let doc = frame_document(info, timestamp);
    lemma_keys();
    reveal_strlit("/event/event");
    reveal_strlit("/payload");
    reveal_strlit("/event");
    reveal_strlit("/timestamp");
    reveal_strlit("/sequence");
    let at = "/event"@;
    assert(!begins("/sequence"@, at)) by {
        if begins("/sequence"@, at) {
            assert("/sequence"@.subrange(0, 6)[1] == at[1]);
        }
    }
    assert(!begins("/payload"@, at)) by {
        if begins("/payload"@, at) {
            assert("/payload"@.subrange(0, 6)[1] == at[1]);
        }
    }
    assert("/payload"@[1] == 'p');
    assert("/payload"@ != "/timestamp"@ && "/payload"@ != "/sequence"@);
    assert("/payload"@ != Seq::<char>::empty());
    assert(number_is_at(doc, "/sequence"@, info.sequence));
    crate::json::decimal_is_unique(seq as nat, info.sequence as nat);
    let p = "/event/event"@;
    assert(p.subrange(0, 6) =~= at);
    assert(p.skip(6) =~= "/event"@);
    assert(!begins("/event"@, "/data"@)) by {
        if begins("/event"@, "/data"@) {
            assert("/event"@.subrange(0, 5)[1] == "/data"@[1]);
        }
    }
}

/// What is read from the farewell line says how many frames were sent.
pub proof fn the_farewell_reports_the_frames(frames: u64, timestamp: Seq<char>)
    ensures
        text_at(done_document(frames, timestamp), "/event/event"@) == Some("TelemetryDone"@),
        number_is_at(done_document(frames, timestamp), "/event/data/frames_sent"@, frames),
        !done_document(frames, timestamp).dom().contains("/payload"@),
{
    lemma_keys();
    reveal_strlit("/event/event");
    reveal_strlit("/event/data/frames_sent");
    reveal_strlit("/data/frames_sent");
    reveal_strlit("/payload");
    reveal_strlit("/event");
    reveal_strlit("/data");
    reveal_strlit("/timestamp");
    reveal_strlit("/frames_sent");
    let at = "/event"@;
    assert(!begins("/payload"@, at)) by {
        if begins("/payload"@, at) {
            assert("/payload"@.subrange(0, 6)[1] == at[1]);
        }
    }
    assert("/payload"@[1] == 'p');
    assert("/payload"@ != "/timestamp"@ && "/payload"@ != "/sequence"@);
    assert("/payload"@ != Seq::<char>::empty());
    let p = "/event/event"@;
    assert(p.subrange(0, 6) =~= at);
    assert(p.skip(6) =~= "/event"@);
    assert(!begins("/event"@, "/data"@)) by {
        if begins("/event"@, "/data"@) {
            assert("/event"@.subrange(0, 5)[1] == "/data"@[1]);
        }
    }
    let q = "/event/data/frames_sent"@;
    assert(q.subrange(0, 6) =~= at);
    assert(q.skip(6) =~= "/data/frames_sent"@);
    let d = "/data/frames_sent"@;
    assert(d.subrange(0, 5) =~= "/data"@);
    assert(d.skip(5) =~= "/frames_sent"@);
}

/// The log goes where it is told to, unless that is blank; else into `bsr/telemetry.log` in the
/// directory for state, where that is absolute, else in that of the home directory, else in the
/// directory for temporary files.
pub proof fn the_log_goes_where_it_is_told_to(
    explicit: Option<Seq<char>>,
    state_home: Option<Seq<char>>,
    home: Option<Seq<char>>,
    temp_dir: Seq<char>,
)
    ensures
        ({
            let path = log_path(explicit, state_home, home, temp_dir);
            let told = explicit matches Some(e) && trimmed(e).len() > 0;
            let stated = state_home matches Some(s) && s.len() > 0 && s[0] == '/';
            &&& told ==> path == explicit->0
            &&& !told && stated && state_home->0.last() != '/' ==> path == state_home->0
                + "/bsr/telemetry.log"@
            &&& !told && !stated ==> {
                &&& home matches Some(h) ==> (h.len() > 0 && h.last() != '/' ==> path == h
                    + "/.local/state/bsr/telemetry.log"@)
                &&& home is None ==> (temp_dir.len() > 0 && temp_dir.last() != '/' ==> path
                    == temp_dir + "/bsr/telemetry.log"@)
            }
        }),
{
    reveal_strlit(".local");
    reveal_strlit("state");
    reveal_strlit("bsr");
    reveal_strlit("telemetry.log");
    reveal_strlit("/bsr/telemetry.log");
    reveal_strlit("/.local/state/bsr/telemetry.log");
    let base = match (state_home, home) {
        (Some(s), _) if absolute(s) => s,
        (_, Some(h)) => joined(joined(h, ".local"@), "state"@),
        (_, None) => temp_dir,
    };
    if base.len() > 0 && base.last() != '/' {
        assert(joined(base, "bsr"@).last() == 'r');
        assert(joined(joined(base, "bsr"@), "telemetry.log"@) =~= base + "/bsr/telemetry.log"@);
    }
    if let Some(h) = home {
        if h.len() > 0 && h.last() != '/' {
            let local = joined(h, ".local"@);
            let state = joined(local, "state"@);
            assert(local.last() == 'l');
            assert(state.last() == 'e');
            assert(joined(joined(state, "bsr"@), "telemetry.log"@) =~= h
                + "/.local/state/bsr/telemetry.log"@);
        }
    }
}

/// The line of a frame tells all of it: when it was written, its number twice, its size, and how
/// many bytes it has.
pub proof fn a_frame_line_tells_all_of_the_frame(info: FrameInfo, timestamp: Seq<char>)
    ensures
        ({
            let doc = frame_document(info, timestamp);
            &&& text_at(doc, "/timestamp"@) == Some(timestamp)
            &&& number_is_at(doc, "/sequence"@, info.sequence)
            &&& number_is_at(doc, "/event/data/sequence"@, info.sequence)
            &&& number_is_at(doc, "/event/data/width"@, info.width as u64)
            &&& number_is_at(doc, "/event/data/height"@, info.height as u64)
            &&& number_is_at(doc, "/event/data/size_bytes"@, info.size_bytes as u64)
            &&& text_at(doc, "/event/event"@) == Some("FrameCaptured"@)
        }),
{
    lemma_keys();
    lemma_frame_sequence(info, timestamp);
    a_frame_line_carries_its_sequence(info, timestamp, info.sequence);
    reveal_strlit("/event");
    reveal_strlit("/data");
    reveal_strlit("/timestamp");
    reveal_strlit("/sequence");
    reveal_strlit("/event/data/sequence");
    reveal_strlit("/event/data/width");
    reveal_strlit("/event/data/height");
    reveal_strlit("/event/data/size_bytes");
    reveal_strlit("/width");
    reveal_strlit("/height");
    reveal_strlit("/size_bytes");
    assert("/event/data/sequence"@ =~= "/event"@ + "/data"@ + "/sequence"@);
    assert("/event/data/width"@ =~= "/event"@ + "/data"@ + "/width"@);
    assert("/event/data/height"@ =~= "/event"@ + "/data"@ + "/height"@);
    assert("/event/data/size_bytes"@ =~= "/event"@ + "/data"@ + "/size_bytes"@);
    lemma_in_data("/event/data/sequence"@, "/sequence"@);
    lemma_in_data("/event/data/width"@, "/width"@);
    lemma_in_data("/event/data/height"@, "/height"@);
    lemma_in_data("/event/data/size_bytes"@, "/size_bytes"@);
    assert(!begins("/timestamp"@, "/event"@)) by {
        if begins("/timestamp"@, "/event"@) {
            assert("/timestamp"@.subrange(0, 6)[1] == "/event"@[1]);
        }
    }
    assert(!begins("/sequence"@, "/event"@)) by {
        if begins("/sequence"@, "/event"@) {
            assert("/sequence"@.subrange(0, 6)[1] == "/event"@[1]);
        }
    }
}

/// A pointer into the data of an event.
proof fn lemma_in_data(p: Seq<char>, key: Seq<char>)
    requires
        p == "/event"@ + "/data"@ + key,
    ensures
        begins(p, "/event"@),
        begins(p.skip(6), "/data"@),
        p.skip(6).skip(5) == key,
{
    reveal_strlit("/event");
    reveal_strlit("/data");
    assert(p.subrange(0, 6) =~= "/event"@);
    assert(p.skip(6).subrange(0, 5) =~= "/data"@);
    assert(p.skip(6).skip(5) =~= key);
}

/// How many of these events say that a line was written.
pub open spec fn written_count(events: Seq<ClientEvent>) -> int
    decreases events.len(),
{
    if events.len() == 0 {
        0
    } else {
        written_count(events.drop_last()) + (if events.last() is Written {
            1int
        } else {
            0
        })
    }
}

/// The farewell tells how many frames were written since the connection was opened: each line that
/// was written counts. `states` are the client from then on.
pub proof fn the_farewell_counts_the_frames_of_the_connection(
    states: Seq<TelemetryClient>,
    events: Seq<ClientEvent>,
    actions: Seq<ClientAction>,
    last: TelemetryClient,
    farewell: ClientAction,
)
    requires
        states.len() == events.len() + 1,
        actions.len() == events.len(),
        events.len() <= u64::MAX,
        states[0].phase == ClientPhase::Streaming,
        states[0].frames_written == 0,
        forall|k: int|
            0 <= k < events.len() ==> (#[trigger] states[k]).steps(
                events[k],
                states[k + 1],
                actions[k],
            ) && (events[k] is Frame || events[k] is Written),
        states.last().steps(ClientEvent::FramesEnded, last, farewell),
    ensures
        states.last().phase == ClientPhase::Streaming,
        states.last().frames_written == written_count(events),
        0 <= written_count(events) <= events.len(),
        last.phase == ClientPhase::Closing,
        farewell matches ClientAction::WriteLine(line) && is_done_line(
            line@,
            written_count(events) as u64,
        ),
{
    lemma_written(states, events, actions);
}

proof fn lemma_written(
    states: Seq<TelemetryClient>,
    events: Seq<ClientEvent>,
    actions: Seq<ClientAction>,
)
    requires
        states.len() == events.len() + 1,
        actions.len() == events.len(),
        events.len() <= u64::MAX,
        states[0].phase == ClientPhase::Streaming,
        states[0].frames_written == 0,
        forall|k: int|
            0 <= k < events.len() ==> (#[trigger] states[k]).steps(
                events[k],
                states[k + 1],
                actions[k],
            ) && (events[k] is Frame || events[k] is Written),
    ensures
        states.last().phase == ClientPhase::Streaming,
        states.last().frames_written == written_count(events),
        0 <= written_count(events) <= events.len(),
    decreases events.len(),
{
    if events.len() > 0 {
        let n = events.len() - 1;
        let earlier = states.drop_last();
        assert forall|k: int| 0 <= k < n implies (#[trigger] earlier[k]).steps(
            events.drop_last()[k],
            earlier[k + 1],
            actions.drop_last()[k],
        ) && (events.drop_last()[k] is Frame || events.drop_last()[k] is Written) by {
            assert(states[k].steps(events[k], states[k + 1], actions[k]));
        }
        lemma_written(earlier, events.drop_last(), actions.drop_last());
        assert(states[n].steps(events[n], states[n + 1], actions[n]));
        assert(earlier.last() == states[n]);
    }
}

/// Each frame is written as a line of its own. A connection that cannot be opened is tried again; one that is opened starts counting anew; one
/// that breaks is opened again while frames are still to come. The client leaves when its farewell
/// cannot be written, and closes the connection once the farewell is answered or is not.
pub proof fn a_client_goes_on_until_its_farewell(
    c: TelemetryClient,
    event: ClientEvent,
    after: TelemetryClient,
    action: ClientAction,
)
    requires
        c.accepts(event),
        c.steps(event, after, action),
    ensures
        event is OpenFailed ==> action is RetryOpen && after == c,
        event matches ClientEvent::Frame(info) ==> (action matches ClientAction::WriteLine(line)
            && is_frame_line(line@, info)) && after == c,
        event is Opened ==> action is ReceiveFrame && after.phase == ClientPhase::Streaming
            && after.frames_written == 0,
        event matches ClientEvent::WriteFailed { frames_ended } ==> {
            &&& c.phase == ClientPhase::Streaming && !frames_ended ==> action is Open && after.phase
                == ClientPhase::Connecting
            &&& c.phase == ClientPhase::Streaming && frames_ended ==> (action matches
                ClientAction::WriteLine(line) && is_done_line(line@, c.frames_written))
                && after.phase == ClientPhase::Closing
            &&& c.phase == ClientPhase::Closing ==> action is Exit
        },
        c.phase == ClientPhase::Closing && event is Written ==> action is AwaitAck && after.phase
            == ClientPhase::AwaitingAck,
        action is Exit <==> c.phase == ClientPhase::Closing && event is WriteFailed,
        action is Close <==> c.phase == ClientPhase::AwaitingAck,
        after.phase == ClientPhase::Finished <==> action is Exit || action is Close,
        event matches ClientEvent::Ack(AckRead::Line(line)) ==> (action
            == ClientAction::Close(AckVerdict::DrainComplete) <==> (json_read(trimmed(line@)) matches
            Some(nodes) && text_at(nodes, "/ack"@) == Some("drain_complete"@))),
        event == ClientEvent::Ack(AckRead::TimedOut) ==> action
            == ClientAction::Close(AckVerdict::TimedOut),
        event == ClientEvent::Ack(AckRead::Closed) ==> action
            == ClientAction::Close(AckVerdict::Closed),
        event == ClientEvent::Ack(AckRead::Failed) ==> action
            == ClientAction::Close(AckVerdict::Failed),
{
}

} // verus!
