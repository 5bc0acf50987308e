//! Muxing: the packets that go into the file, what is reported on the way, and when the file
//! is finalized.
use vstd::prelude::*;
use vstd::string::*;

use crate::clock::{is_date, is_time, utc_date_and_time};
use crate::ipc::MuxerConfig;
use crate::path::{parent, parent_path};
use crate::text::opt_text;

verus! {

/// A packet as the muxer takes it.
#[derive(Debug, Clone, PartialEq, Eq)]
pub struct EncodedPacket {
    pub data: Vec<u8>,
    pub pts: i64,
    pub dts: i64,
    pub keyframe: bool,
}

impl EncodedPacket {
    /// The part of an encoder's packet that goes into the file.
    pub open spec fn part_of(p: crate::encode::EncodedPacket) -> EncodedPacket {
        EncodedPacket { data: p.data, pts: p.pts, dts: p.dts, keyframe: p.keyframe }
    }

    /// The part of an encoder's packet that goes into the file.
    pub fn from_encoder(p: crate::encode::EncodedPacket) -> (r: Self)
        ensures
            r == Self::part_of(p),
    {
        EncodedPacket { data: p.data, pts: p.pts, dts: p.dts, keyframe: p.keyframe }
    }
}

/// What went wrong while muxing.
#[derive(Debug, Clone, PartialEq, Eq)]
pub enum MuxerError {
    Io(String),
    FFmpeg(String),
    Config(String),
}

pub type MuxerResult<T> = Result<T, MuxerError>;

impl MuxerError {
    /// The text that is shown for the error.
    pub open spec fn shown(self) -> Seq<char> {
        match self {
            MuxerError::Io(m) => "IO error: "@ + m@,
            MuxerError::FFmpeg(m) => "FFmpeg error: "@ + m@,
            MuxerError::Config(m) => "Invalid config: "@ + m@,
        }
    }

    /// The text that is shown for the error.
    pub fn message(&self) -> (r: String)
        ensures
            r@ == self.shown(),
    {
        match self {
            MuxerError::Io(m) => String::from_str("IO error: ").concat(m.as_str()),
            MuxerError::FFmpeg(m) => String::from_str("FFmpeg error: ").concat(m.as_str()),
            MuxerError::Config(m) => String::from_str("Invalid config: ").concat(m.as_str()),
        }
    }
}

/// Something that writes packets into a file.
pub trait MuxerBackend {
    fn initialize(&mut self, config: &MuxerConfig) -> MuxerResult<()>;

    fn write_packet(&mut self, packet: EncodedPacket) -> MuxerResult<()>;

    fn finalize(&mut self) -> MuxerResult<()>;

    fn shutdown(&mut self) -> MuxerResult<()>;
}

/// A backend that counts packets and writes none.
#[derive(Debug, Clone, Copy, PartialEq, Eq, Structural)]
pub struct MockMuxer {
    pub initialized: bool,
    /// Wraps around behind the largest number.
    pub packets_written: usize,
    pub finalized: bool,
}

/// The error of a backend that was not initialized.
pub open spec fn not_initialized(r: MuxerResult<()>) -> bool {
    r matches Err(MuxerError::Config(m)) && m@ == "Not initialized"@
}

impl MockMuxer {
    pub fn new() -> (r: Self)
        ensures
            r == (MockMuxer { initialized: false, packets_written: 0, finalized: false }),
    {
        MockMuxer { initialized: false, packets_written: 0, finalized: false }
    }
}

impl MuxerBackend for MockMuxer {
    fn initialize(&mut self, config: &MuxerConfig) -> (r: MuxerResult<()>)
        ensures
            r is Ok,
            *final(self) == (MockMuxer { initialized: true, ..*old(self) }),
    {
        self.initialized = true;
        Ok(())
    }

    fn write_packet(&mut self, packet: EncodedPacket) -> (r: MuxerResult<()>)
        ensures
            if old(self).initialized {
                r is Ok && *final(self) == (MockMuxer {
                    packets_written: if old(self).packets_written == usize::MAX {
                        0
                    } else {
                        (old(self).packets_written + 1) as usize
                    },
                    ..*old(self)
                })
            } else {
                not_initialized(r) && *final(self) == *old(self)
            },
    {
        if !self.initialized {
            return Err(MuxerError::Config(String::from_str("Not initialized")));
        }
        self.packets_written = self.packets_written.wrapping_add(1);
        Ok(())
    }

    fn finalize(&mut self) -> (r: MuxerResult<()>)
        ensures
            if old(self).initialized {
                r is Ok && *final(self) == (MockMuxer { finalized: true, ..*old(self) })
            } else {
                not_initialized(r) && *final(self) == *old(self)
            },
    {
        if !self.initialized {
            return Err(MuxerError::Config(String::from_str("Not initialized")));
        }
        self.finalized = true;
        Ok(())
    }

    fn shutdown(&mut self) -> (r: MuxerResult<()>)
        ensures
            r is Ok,
            *final(self) == (MockMuxer { finalized: true, ..*old(self) }),
    {
        self.finalized = true;
        Ok(())
    }
}

/// What the muxer reports. The write latency is in whole milliseconds.
#[derive(Debug, Clone, Copy, PartialEq, Eq, Structural)]
pub struct MuxerTelemetry {
    pub file_size_bytes: u64,
    pub duration_secs: u64,
    pub last_write_latency_ms: u64,
    pub max_duration_reached: bool,
}

impl Default for MuxerTelemetry {
    fn default() -> (r: Self)
        ensures
            r == (MuxerTelemetry {
                file_size_bytes: 0,
                duration_secs: 0,
                last_write_latency_ms: 0,
                max_duration_reached: false,
            }),
    {
        MuxerTelemetry {
            file_size_bytes: 0,
            duration_secs: 0,
            last_write_latency_ms: 0,
            max_duration_reached: false,
        }
    }
}

#[derive(Debug, Clone, Copy, PartialEq, Eq, Structural)]
pub enum MuxerCommand {
    StopRecording,
    Shutdown,
}

/// What the muxer waits for.
#[derive(Debug, Clone, PartialEq, Eq)]
pub enum MuxerEvent {
    /// The file could not be opened.
    InitializeFailed(MuxerError),
    /// A packet could not be written.
    WriteFailed(MuxerError),
    /// The trailer could not be written.
    FinalizeFailed(MuxerError),
    /// A packet of `bytes` bytes was written in `latency_ms` whole milliseconds, and the
    /// recording has been running for `elapsed_ns` nanoseconds.
    Written { bytes: u64, latency_ms: u64, elapsed_ns: u64 },
    /// The encoder went away: that is how a recording ends.
    PacketsEnded,
    Command(MuxerCommand),
    /// Nobody can send commands any more.
    CommandsClosed,
}

impl MuxerEvent {
    /// What went wrong, where something did.
    pub open spec fn failure(self) -> Option<MuxerError> {
        match self {
            MuxerEvent::InitializeFailed(e) => Some(e),
            MuxerEvent::WriteFailed(e) => Some(e),
            MuxerEvent::FinalizeFailed(e) => Some(e),
            _ => None,
        }
    }
}

/// What the muxer does next. The parts are done in this order. A part that fails is an event of
/// its own, and the parts behind it are not done.
#[derive(Debug, Clone, PartialEq, Eq)]
pub struct MuxerStep {
    /// Report this, without waiting for anyone to take it.
    pub telemetry: Option<MuxerTelemetry>,
    /// Report this last word of a recording that reached its longest duration.
    pub last_telemetry: Option<MuxerTelemetry>,
    /// Write the trailer of the file.
    pub finalize: bool,
    /// Tell the server that the recording has stopped.
    pub stop_over_ipc: bool,
    /// Leave the loop.
    pub exit: bool,
    /// The run ends with this error.
    pub error: Option<MuxerError>,
}

/// The muxer beside its backend.
#[derive(Debug, Clone)]
pub struct MuxerService {
    pub config: MuxerConfig,
    /// Encoded bytes written, which approximates the size of the file.
    pub bytes_written: u64,
    /// The trailer has been asked for.
    pub finalized: bool,
}

impl MuxerService {
    pub fn new(config: MuxerConfig) -> (r: Self)
        ensures
            r.config == config,
            r.bytes_written == 0,
            !r.finalized,
    {
        MuxerService { config, bytes_written: 0, finalized: false }
    }

    /// The encoded bytes written after an event.
    pub open spec fn bytes_after(self, event: MuxerEvent) -> int {
        match event {
            MuxerEvent::Written { bytes, .. } => self.bytes_written + bytes,
            _ => self.bytes_written as int,
        }
    }

    /// Does the recording reach its longest duration with this event?
    pub open spec fn capped(self, event: MuxerEvent) -> bool {
        event matches MuxerEvent::Written { elapsed_ns, .. } && elapsed_ns
            >= self.config.max_duration.total()
    }

    /// Does the recording end with this event?
    pub open spec fn ends(self, event: MuxerEvent) -> bool {
        event !is Written || self.capped(event)
    }

    /// What the muxer does after an event.
    pub open spec fn step(self, event: MuxerEvent) -> MuxerStep {
        match event {
            MuxerEvent::Written { bytes, latency_ms, elapsed_ns } => {
                let size = self.bytes_after(event) as u64;
                MuxerStep {
                    telemetry: Some(
                        MuxerTelemetry {
                            file_size_bytes: size,
                            duration_secs: elapsed_ns / 1_000_000_000,
                            last_write_latency_ms: latency_ms,
                            max_duration_reached: false,
                        },
                    ),
                    last_telemetry: if self.capped(event) {
                        Some(
                            MuxerTelemetry {
                                file_size_bytes: size,
                                duration_secs: elapsed_ns / 1_000_000_000,
                                last_write_latency_ms: 0,
                                max_duration_reached: true,
                            },
                        )
                    } else {
                        None
                    },
                    finalize: self.capped(event) && !self.finalized,
                    stop_over_ipc: self.capped(event),
                    exit: self.capped(event),
                    error: None,
                }
            },
            MuxerEvent::PacketsEnded | MuxerEvent::Command(_) => MuxerStep {
                telemetry: None,
                last_telemetry: None,
                finalize: !self.finalized,
                stop_over_ipc: false,
                exit: true,
                error: None,
            },
            MuxerEvent::CommandsClosed | MuxerEvent::InitializeFailed(_) | MuxerEvent::WriteFailed(
                _,
            ) | MuxerEvent::FinalizeFailed(_) => MuxerStep {
                telemetry: None,
                last_telemetry: None,
                finalize: false,
                stop_over_ipc: false,
                exit: true,
                error: event.failure(),
            },
        }
    }

    /// The muxer after an event.
    pub open spec fn after(self, event: MuxerEvent) -> MuxerService {
        MuxerService {
            bytes_written: self.bytes_after(event) as u64,
            finalized: self.finalized || self.step(event).finalize,
            ..self
        }
    }

    /// Takes one event.
    pub fn on_event(&mut self, event: MuxerEvent) -> (step: MuxerStep)
        requires
            old(self).bytes_after(event) <= u64::MAX,
        ensures
            step == old(self).step(event),
            *final(self) == old(self).after(event),
    {
        match event {
            MuxerEvent::Written { bytes, latency_ms, elapsed_ns } => {
                self.bytes_written = self.bytes_written + bytes;
                let telemetry = MuxerTelemetry {
                    file_size_bytes: self.bytes_written,
                    duration_secs: elapsed_ns / 1_000_000_000,
                    last_write_latency_ms: latency_ms,
                    max_duration_reached: false,
                };
                if elapsed_ns as u128 >= self.config.max_duration.as_nanos() {
                    let finalize = !self.finalized;
                    self.finalized = true;
                    MuxerStep {
                        telemetry: Some(telemetry),
                        last_telemetry: Some(
                            MuxerTelemetry {
                                file_size_bytes: self.bytes_written,
                                duration_secs: elapsed_ns / 1_000_000_000,
                                last_write_latency_ms: 0,
                                max_duration_reached: true,
                            },
                        ),
                        finalize,
                        stop_over_ipc: true,
                        exit: true,
                        error: None,
                    }
                } else {
                    MuxerStep {
                        telemetry: Some(telemetry),
                        last_telemetry: None,
                        finalize: false,
                        stop_over_ipc: false,
                        exit: false,
                        error: None,
                    }
                }
            },
            MuxerEvent::PacketsEnded | MuxerEvent::Command(_) => {
                let finalize = !self.finalized;
                self.finalized = true;
                MuxerStep {
                    telemetry: None,
                    last_telemetry: None,
                    finalize,
                    stop_over_ipc: false,
                    exit: true,
                    error: None,
                }
            },
            MuxerEvent::CommandsClosed => MuxerStep {
                telemetry: None,
                last_telemetry: None,
                finalize: false,
                stop_over_ipc: false,
                exit: true,
                error: None,
            },
            MuxerEvent::InitializeFailed(e) | MuxerEvent::WriteFailed(e)
            | MuxerEvent::FinalizeFailed(e) => MuxerStep {
                telemetry: None,
                last_telemetry: None,
                finalize: false,
                stop_over_ipc: false,
                exit: true,
                error: Some(e),
            },
        }
    }
}

/// The muxer after a series of events.
pub open spec fn after_events(m: MuxerService, events: Seq<MuxerEvent>) -> MuxerService
    decreases events.len(),
{
    if events.len() == 0 {
        m
    } else {
        after_events(m, events.drop_last()).after(events.last())
    }
}

/// How many times the trailer is asked for during a series of events.
pub open spec fn trailers(m: MuxerService, events: Seq<MuxerEvent>) -> nat
    decreases events.len(),
{
    if events.len() == 0 {
        0
    } else {
        trailers(m, events.drop_last()) + (if after_events(m, events.drop_last()).step(
            events.last(),
        ).finalize {
            1nat
        } else {
            0
        })
    }
}

/// The sum of the sizes of the packets written.
pub open spec fn written_bytes(events: Seq<MuxerEvent>) -> int
    decreases events.len(),
{
    if events.len() == 0 {
        0
    } else {
        written_bytes(events.drop_last()) + match events.last() {
            MuxerEvent::Written { bytes, .. } => bytes as int,
            _ => 0,
        }
    }
}

/// Whatever happens, the trailer of the file is asked for at most once, and it has been asked
/// for exactly when the muxer says that the file is finalized.
pub proof fn the_trailer_is_written_at_most_once(m: MuxerService, events: Seq<MuxerEvent>)
    requires
        !m.finalized,
    ensures
        trailers(m, events) <= 1,
        after_events(m, events).finalized == (trailers(m, events) == 1),
    decreases events.len(),
{
    if events.len() > 0 {
        the_trailer_is_written_at_most_once(m, events.drop_last());
    }
}

/// A recording that ends because its packets end, because it is told to, or because it
/// reaches its longest duration leaves a finalized file behind.
pub proof fn every_ended_recording_is_finalized(
    m: MuxerService,
    events: Seq<MuxerEvent>,
    end: MuxerEvent,
)
    requires
        !m.finalized,
        after_events(m, events).ends(end),
        end !is CommandsClosed,
        end.failure() is None,
    ensures
        trailers(m, events.push(end)) == 1,
        after_events(m, events.push(end)).finalized,
        after_events(m, events).step(end).exit,
        after_events(m, events).step(end).error is None,
{
    the_trailer_is_written_at_most_once(m, events);
    assert(events.push(end).drop_last() =~= events);
}

/// A failure ends the run with that very error: nothing is written behind it, no trailer either,
/// and nothing else is reported.
pub proof fn a_failure_ends_the_run_with_its_error(
    m: MuxerService,
    events: Seq<MuxerEvent>,
    end: MuxerEvent,
)
    requires
        end.failure() is Some,
    ensures
        after_events(m, events).step(end) == (MuxerStep {
            telemetry: None,
            last_telemetry: None,
            finalize: false,
            stop_over_ipc: false,
            exit: true,
            error: end.failure(),
        }),
        trailers(m, events.push(end)) == trailers(m, events),
        after_events(m, events.push(end)) == after_events(m, events),
{
    assert(events.push(end).drop_last() =~= events);
}

/// The reported size is the sum of the sizes of the packets written.
pub proof fn reported_size_is_the_sum_of_the_packets(m: MuxerService, events: Seq<MuxerEvent>)
    requires
        m.bytes_written == 0,
        forall|n: int|
            0 <= n <= events.len() ==> written_bytes(#[trigger] events.take(n)) <= u64::MAX,
    ensures
        after_events(m, events).bytes_written == written_bytes(events),
    decreases events.len(),
{
    if events.len() > 0 {
        let before = events.drop_last();
        assert forall|n: int| 0 <= n <= before.len() implies written_bytes(
            #[trigger] before.take(n),
        ) <= u64::MAX by {
            assert(before.take(n) =~= events.take(n));
        }
        reported_size_is_the_sum_of_the_packets(m, before);
        assert(events.take(events.len() as int) =~= events);
    }
}

/// What the muxer reports after a packet holds for the whole recording so far: the size is that of
/// all packets written, this one included, and the duration is the whole seconds since the start.
pub proof fn a_report_covers_the_whole_recording(
    m: MuxerService,
    events: Seq<MuxerEvent>,
    bytes: u64,
    latency_ms: u64,
    elapsed_ns: u64,
)
    requires
        m.bytes_written == 0,
        forall|n: int|
            0 <= n <= events.len() ==> written_bytes(#[trigger] events.take(n)) <= u64::MAX,
        written_bytes(events) + bytes <= u64::MAX,
    ensures
        ({
            let step = after_events(m, events).step(
                MuxerEvent::Written { bytes, latency_ms, elapsed_ns },
            );
            &&& step.telemetry matches Some(t) && {
                &&& t.file_size_bytes == written_bytes(events) + bytes
                &&& t.duration_secs * 1_000_000_000 <= elapsed_ns < (t.duration_secs + 1)
                    * 1_000_000_000
                &&& t.last_write_latency_ms == latency_ms
                &&& !t.max_duration_reached
            }
            &&& step.last_telemetry matches Some(t) ==> {
                &&& t.file_size_bytes == written_bytes(events) + bytes
                &&& t.duration_secs * 1_000_000_000 <= elapsed_ns < (t.duration_secs + 1)
                    * 1_000_000_000
                &&& t.last_write_latency_ms == 0
                &&& t.max_duration_reached
            }
            &&& step.error is None
        }),
{
    reported_size_is_the_sum_of_the_packets(m, events);
}

/// A recording goes on, packet after packet, until it has run for its longest duration. With the
/// first packet from then on it ends: that is reported, the server is told, and the file gets its
/// trailer unless it has one.
pub proof fn a_recording_ends_at_its_longest_duration(
    m: MuxerService,
    bytes: u64,
    latency_ms: u64,
    elapsed_ns: u64,
)
    ensures
        ({
            let step = m.step(MuxerEvent::Written { bytes, latency_ms, elapsed_ns });
            let after = m.after(MuxerEvent::Written { bytes, latency_ms, elapsed_ns });
            let over = elapsed_ns >= m.config.max_duration.secs * 1_000_000_000
                + m.config.max_duration.nanos;
            &&& step.exit == over
            &&& step.stop_over_ipc == over
            &&& (step.last_telemetry is Some) == over
            &&& step.finalize == (over && !m.finalized)
            &&& after.finalized == (over || m.finalized)
            &&& after.config == m.config
        }),
{
}

/// The end of the packets and either command end the recording with a trailer, once; losing the
/// commands ends it without one, and so does a failure, whose error is handed on.
pub proof fn every_other_event_ends_the_recording(m: MuxerService, event: MuxerEvent)
    requires
        event !is Written,
    ensures
        m.step(event).exit,
        !m.step(event).stop_over_ipc,
        m.step(event).telemetry is None,
        m.step(event).last_telemetry is None,
        event is PacketsEnded || event is Command ==> {
            &&& m.step(event).finalize == !m.finalized
            &&& m.step(event).error is None
            &&& m.after(event).finalized
        },
        event is CommandsClosed ==> !m.step(event).finalize && m.step(event).error is None,
        event matches MuxerEvent::InitializeFailed(e) ==> !m.step(event).finalize && m.step(
            event,
        ).error == Some(e),
        event matches MuxerEvent::WriteFailed(e) ==> !m.step(event).finalize && m.step(event).error
            == Some(e),
        event matches MuxerEvent::FinalizeFailed(e) ==> !m.step(event).finalize && m.step(
            event,
        ).error == Some(e),
        m.after(event).bytes_written == m.bytes_written,
        m.after(event).config == m.config,
        !(event is PacketsEnded || event is Command) ==> m.after(event).finalized == m.finalized,
{
}

/// What the container is told about the stream, and where the file goes.
#[derive(Debug, Clone)]
pub struct Mp4Layout {
    pub output_path: String,
    /// The directory to create first, where the path has one.
    pub directory: Option<String>,
    /// Ticks per second of the encoder's timestamps.
    pub fps: u32,
    pub width: u32,
    pub height: u32,
}

impl Mp4Layout {
    /// This is the layout of a file at `output_path`.
    pub open spec fn lays_out(self, config: MuxerConfig, output_path: String) -> bool {
        &&& self.output_path == output_path
        &&& opt_text(self.directory) == parent_path(output_path@)
        &&& self.fps == (if config.fps == 0 {
            1
        } else {
            config.fps
        })
        &&& self.width == config.width
        &&& self.height == config.height
    }
}

/// What the codec returned for a frame goes into the file as it is: its bytes, its timestamps in
/// ticks, and whether it is a key frame.
pub proof fn a_packet_goes_into_the_file_as_it_is(
    data: Vec<u8>,
    timestamp: u64,
    pts: i64,
    dts: i64,
    keyframe: bool,
    packet: crate::encode::EncodedPacket,
)
    requires
        packet.made_of(data, timestamp, Some(pts), Some(dts), keyframe),
    ensures
        packet.data == data && packet.timestamp == timestamp,
        packet.pts == pts && packet.dts == dts && packet.keyframe == keyframe,
        EncodedPacket::part_of(packet).data == data,
        EncodedPacket::part_of(packet).pts == pts && EncodedPacket::part_of(packet).dts == dts,
        EncodedPacket::part_of(packet).keyframe == keyframe,
{
}

/// The container is told the size of the stream and the ticks that its timestamps count, which are
/// those of the encoder of the same configuration.
pub proof fn the_container_counts_as_the_encoder_does(
    config: MuxerConfig,
    output_path: String,
    layout: Mp4Layout,
    encoder: crate::encode::EncoderConfig,
)
    requires
        layout.lays_out(config, output_path),
        encoder.fps == config.fps,
        encoder.width == config.width,
        encoder.height == config.height,
    ensures
        layout.output_path == output_path,
        config.fps > 0 ==> layout.fps == config.fps,
        layout.fps == crate::encode::H264EncoderBackend::opened(encoder).fps,
        layout.width == config.width && layout.height == config.height,
        layout.width == crate::encode::H264EncoderBackend::opened(encoder).width,
        layout.height == crate::encode::H264EncoderBackend::opened(encoder).height,
{
}

/// The layout of a file at `output_path`. A frame rate of zero counts as one.
pub fn mp4_layout(config: &MuxerConfig, output_path: String) -> (r: Mp4Layout)
    ensures
        r.lays_out(*config, output_path),
{
    let directory = parent(output_path.as_str());
    Mp4Layout {
        output_path,
        directory,
        fps: if config.fps == 0 {
            1
        } else {
            config.fps
        },
        width: config.width,
        height: config.height,
    }
}

/// The file that a recording started now goes to. The timestamps are in UTC.
pub fn generate_output_path(config: &MuxerConfig) -> (r: String)
    ensures
        exists|date: Seq<char>, time: Seq<char>|
            is_date(date) && is_time(time, '-') && r@ == #[trigger] config.path_at(date, time),
{
    let (date, time) = utc_date_and_time();
    config.output_path_at(date.as_str(), time.as_str())
}

} // verus!
