//! Screen capture through the desktop portal: when a session may start, what is made of the
//! samples of its stream, and what is served while the desktop does not repaint.
use vstd::prelude::*;
use vstd::string::*;

use crate::capture::{CaptureError, CaptureFrame};
use crate::path::{join, joined};
use crate::text::{dec, decimal, opt_text, same, trim, trimmed};

verus! {

/// How long the stream has to deliver its first frame, in seconds.
pub const FIRST_FRAME_TIMEOUT_SECS: u64 = 8;

/// How many queued samples one capture drains at most to reach the newest.
pub const MAX_DRAIN: usize = 30;

/// How long the portal has to answer the handshake, in seconds. It may show a dialog.
pub const HANDSHAKE_TIMEOUT_SECS: u64 = 120;

/// How long to wait for a session to confirm that it is closed, in seconds.
pub const CLOSE_TIMEOUT_SECS: u64 = 3;

/// A stream that has proved itself with a first frame.
#[derive(Debug)]
pub struct LiveStream {
    pub node_id: u32,
    pub width: u32,
    pub height: u32,
    /// The most recent real frame. The stream is driven by damage: a desktop that does not
    /// repaint delivers nothing while it still looks like its last frame.
    pub last: Option<CaptureFrame>,
}

/// The capturer of one monitor.
#[derive(Debug)]
pub struct PortalCaptureBackend {
    live: Option<LiveStream>,
    node_id: Option<u32>,
    repeated_frames: u64,
}

/// The capture backend of this platform.
pub type PlatformCaptureBackend = PortalCaptureBackend;

/// Constructs the capture backend of this platform. It never yields a synthetic source:
/// without a portal, starting it fails.
pub fn platform_backend() -> (r: PlatformCaptureBackend)
    ensures
        r.stream() is None,
        r.node() is None,
        r.repeats() == 0,
{
    PortalCaptureBackend::new()
}

impl Default for PortalCaptureBackend {
    fn default() -> (r: Self)
        ensures
            r.stream() is None,
            r.node() is None,
            r.repeats() == 0,
    {
        PortalCaptureBackend::new()
    }
}

/// The error of a request for a frame, with its text.
pub open spec fn no_frame(e: CaptureError, text: Seq<char>) -> bool {
    e matches CaptureError::FrameAcquisitionFailed(m) && m@ == text
}

impl PortalCaptureBackend {
    /// The stream that is running.
    pub closed spec fn stream(&self) -> Option<LiveStream> {
        self.live
    }

    /// The PipeWire node of the stream.
    pub closed spec fn node(&self) -> Option<u32> {
        self.node_id
    }

    /// How many frames were repeats.
    pub closed spec fn repeats(&self) -> nat {
        self.repeated_frames as nat
    }

    pub fn new() -> (r: Self)
        ensures
            r.stream() is None,
            r.node() is None,
            r.repeats() == 0,
    {
        PortalCaptureBackend { live: None, node_id: None, repeated_frames: 0 }
    }

    /// The frame size negotiated with the stream, while one is running.
    pub fn dimensions(&self) -> (r: Option<(u32, u32)>)
        ensures
            r == match self.stream() {
                Some(l) => Some((l.width, l.height)),
                None => None,
            },
    {
        match &self.live {
            Some(l) => Some((l.width, l.height)),
            None => None,
        }
    }

    /// The PipeWire node of the stream, while one is running.
    pub fn node_id(&self) -> (r: Option<u32>)
        ensures
            r == self.node(),
    {
        self.node_id
    }

    /// How many frames have been served by repeating the last real frame because the desktop
    /// did not repaint.
    pub fn repeated_frames(&self) -> (r: u64)
        ensures
            r == self.repeats(),
    {
        self.repeated_frames
    }

    /// Is a stream running?
    pub fn is_live(&self) -> (r: bool)
        ensures
            r == (self.stream() is Some),
    {
        self.live.is_some()
    }

    /// How the outcome of starting a stream leaves the backend: one that is running already
    /// keeps its stream, and a failed start changes nothing.
    pub open spec fn initialized(
        self,
        started: Result<LiveStream, CaptureError>,
        after: Self,
        r: Result<(), CaptureError>,
    ) -> bool {
        &&& after.repeats() == self.repeats()
        &&& if self.stream() is Some {
            r is Ok && after.stream() == self.stream() && after.node() == self.node()
        } else {
            match started {
                Ok(live) => r is Ok && after.stream() == Some(live) && after.node() == Some(
                    live.node_id,
                ),
                Err(e) => r == Err::<(), CaptureError>(e) && after.stream() is None
                    && after.node() == self.node(),
            }
        }
    }

    /// Takes the outcome of starting a stream. A backend that is running already keeps its
    /// stream; a failed start changes nothing.
    pub fn initialize(&mut self, started: Result<LiveStream, CaptureError>) -> (r: Result<
        (),
        CaptureError,
    >)
        ensures
            old(self).initialized(started, *final(self), r),
    {
        if self.live.is_some() {
            return Ok(());
        }
        match started {
            Ok(live) => {
                self.node_id = Some(live.node_id);
                self.live = Some(live);
                Ok(())
            },
            Err(e) => Err(e),
        }
    }

    /// How a request for a frame leaves the backend, and what is served.
    pub open spec fn served(
        self,
        newest: Option<CaptureFrame>,
        now: u64,
        after: Self,
        r: Result<CaptureFrame, CaptureError>,
    ) -> bool {
        &&& after.node() == self.node()
        &&& match (self.stream(), newest) {
            (None, _) => {
                &&& r matches Err(e) && no_frame(
                    e,
                    "capture_frame called before initialize — no portal session"@,
                )
                &&& after.stream() is None
                &&& after.repeats() == self.repeats()
            },
            (Some(live), Some(frame)) => {
                &&& r == Ok::<CaptureFrame, CaptureError>(frame)
                &&& after.stream() matches Some(l) && l.node_id == live.node_id && l.width
                    == frame.width && l.height == frame.height && (l.last matches Some(p)
                    && p.same(frame))
                &&& after.repeats() == self.repeats()
            },
            (Some(live), None) => {
                &&& after.stream() == Some(live)
                &&& match live.last {
                    Some(prev) => {
                        &&& r matches Ok(frame) && frame.data@ == prev.data@ && frame.timestamp
                            == now && frame.width == prev.width && frame.height == prev.height
                            && frame.format == prev.format
                        &&& after.repeats() == self.repeats() + 1
                    },
                    None => {
                        &&& r matches Err(e) && no_frame(
                            e,
                            "no frame available and no previous frame to repeat"@,
                        )
                        &&& after.repeats() == self.repeats()
                    },
                }
            },
        }
    }

    /// Serves one frame. `newest` is the newest sample that was waiting; without one, the
    /// last real frame is served again with the time `now`.
    pub fn capture_frame(&mut self, newest: Option<CaptureFrame>, now: u64) -> (r: Result<
        CaptureFrame,
        CaptureError,
    >)
        requires
            old(self).repeats() < u64::MAX,
        ensures
            old(self).served(newest, now, *final(self), r),
    {
        match self.live.take() {
            None => Err(
                CaptureError::FrameAcquisitionFailed(
                    String::from_str("capture_frame called before initialize — no portal session"),
                ),
            ),
            Some(live) => match newest {
                Some(frame) => {
                    self.live = Some(
                        LiveStream {
                            node_id: live.node_id,
                            width: frame.width,
                            height: frame.height,
                            last: Some(frame.clone()),
                        },
                    );
                    Ok(frame)
                },
                None => {
                    let repeat = match &live.last {
                        Some(prev) => {
                            let mut frame = prev.clone();
                            frame.timestamp = now;
                            Some(frame)
                        },
                        None => None,
                    };
                    self.live = Some(live);
                    match repeat {
                        Some(frame) => {
                            self.repeated_frames = self.repeated_frames + 1;
                            Ok(frame)
                        },
                        None => Err(
                            CaptureError::FrameAcquisitionFailed(
                                String::from_str(
                                    "no frame available and no previous frame to repeat",
                                ),
                            ),
                        ),
                    }
                },
            },
        }
    }

    /// Forgets the stream. Returns whether there was one to stop.
    pub fn shutdown(&mut self) -> (was_live: bool)
        ensures
            was_live == (old(self).stream() is Some),
            final(self).stream() is None,
            final(self).node() is None,
            final(self).repeats() == old(self).repeats(),
    {
        let was_live = self.live.is_some();
        self.live = None;
        self.node_id = None;
        was_live
    }
}

/// Drains the samples that are waiting and keeps the newest.
#[derive(Debug)]
pub struct Drain {
    pub pulled: usize,
    pub newest: Option<CaptureFrame>,
}

impl Drain {
    pub fn new() -> (r: Self)
        ensures
            r.pulled == 0,
            r.newest is None,
    {
        Drain { pulled: 0, newest: None }
    }

    /// May another sample be pulled?
    pub fn wants_more(&self) -> (r: bool)
        ensures
            r == (self.pulled < MAX_DRAIN),
    {
        self.pulled < MAX_DRAIN
    }

    /// What a pull leaves of the drain.
    pub open spec fn took(self, pull: Result<Option<CaptureFrame>, String>, after: Drain) -> bool {
        match pull {
            Ok(Some(frame)) => after.newest == Some(frame) && after.pulled == self.pulled + 1,
            _ => after.newest == self.newest && after.pulled == MAX_DRAIN,
        }
    }

    /// Takes one pull: a frame replaces the one kept so far; an empty queue or an unusable
    /// sample ends the drain.
    pub fn take(&mut self, pull: Result<Option<CaptureFrame>, String>)
        requires
            old(self).pulled < MAX_DRAIN,
        ensures
            old(self).took(pull, *final(self)),
    {
        match pull {
            Ok(Some(frame)) => {
                self.newest = Some(frame);
                self.pulled = self.pulled + 1;
            },
            _ => {
                self.pulled = MAX_DRAIN;
            },
        }
    }
}

/// What the start of a session takes from the environment.
#[derive(Debug, Clone)]
pub struct SessionEnv {
    /// The variable `BSR_NO_PORTAL`.
    pub no_portal: Option<String>,
    /// Is `WAYLAND_DISPLAY` set?
    pub wayland_display: bool,
    /// Is `DISPLAY` set?
    pub display: bool,
    /// The variable `XDG_SESSION_TYPE`.
    pub session_type: Option<String>,
}

/// Why no session may start here; `None` where one may.
pub open spec fn refusal(env: SessionEnv) -> Option<Seq<char>> {
    if opt_text(env.no_portal) == Some("1"@) {
        Some("BSR_NO_PORTAL=1 set — refusing to capture"@)
    } else if !env.wayland_display && !env.display {
        Some("no graphical session (WAYLAND_DISPLAY and DISPLAY are both unset)"@)
    } else if opt_text(env.session_type) == Some("x11"@) {
        Some(
            "this is an Xorg (X11) session — BSR needs Wayland. Under X11 the desktop cannot be captured through the portal and a root-window grab returns solid black, so recording is refused rather than producing an empty file. Log in with a Wayland session (Ubuntu 26.04 and later default to it)."@,
        )
    } else {
        None
    }
}

fn is_text(o: &Option<String>, t: &str) -> (r: bool)
    ensures
        r == (opt_text(*o) == Some(t@)),
{
    match o {
        Some(s) => same(s.as_str(), t),
        None => false,
    }
}

/// The error of a start that failed, with its text.
pub open spec fn start_failed(e: CaptureError, text: Seq<char>) -> bool {
    e matches CaptureError::InitializationFailed(m) && m@ == text
}

/// May a capture session start in this environment? An Xorg session is refused: its root
/// window comes back black, with no error.
pub fn check_session(env: &SessionEnv) -> (r: Result<(), CaptureError>)
    ensures
        match r {
            Ok(()) => refusal(*env) is None,
            Err(e) => refusal(*env) matches Some(text) && start_failed(e, text),
        },
{
    if is_text(&env.no_portal, "1") {
        return Err(
            CaptureError::InitializationFailed(
                String::from_str("BSR_NO_PORTAL=1 set — refusing to capture"),
            ),
        );
    }
    if !env.wayland_display && !env.display {
        return Err(
            CaptureError::InitializationFailed(
                String::from_str(
                    "no graphical session (WAYLAND_DISPLAY and DISPLAY are both unset)",
                ),
            ),
        );
    }
    if is_text(&env.session_type, "x11") {
        return Err(
            CaptureError::InitializationFailed(
                String::from_str(
                    "this is an Xorg (X11) session — BSR needs Wayland. Under X11 the desktop cannot be captured through the portal and a root-window grab returns solid black, so recording is refused rather than producing an empty file. Log in with a Wayland session (Ubuntu 26.04 and later default to it).",
                ),
            ),
        );
    }
    Ok(())
}

/// An Xorg session never records, whatever else is set.
pub proof fn an_xorg_session_is_refused(env: SessionEnv)
    requires
        opt_text(env.session_type) == Some("x11"@),
    ensures
        refusal(env) is Some,
{
}

/// A backend whose start failed serves no frame, whatever is waiting, and stays that way: it
/// never makes a picture up.
pub proof fn a_backend_that_did_not_start_serves_no_frame(
    b: PortalCaptureBackend,
    started: Result<LiveStream, CaptureError>,
    ready: PortalCaptureBackend,
    begun: Result<(), CaptureError>,
    newest: Option<CaptureFrame>,
    now: u64,
    after: PortalCaptureBackend,
    r: Result<CaptureFrame, CaptureError>,
)
    requires
        b.initialized(started, ready, begun),
        begun is Err,
        ready.served(newest, now, after, r),
    ensures
        r is Err,
        after.stream() is None,
{
}

/// What is served is a frame that came out of the stream: the newest one, or the last one once
/// more where the desktop did not repaint.
pub proof fn every_frame_comes_from_the_stream(
    b: PortalCaptureBackend,
    newest: Option<CaptureFrame>,
    now: u64,
    after: PortalCaptureBackend,
    r: Result<CaptureFrame, CaptureError>,
)
    requires
        b.served(newest, now, after, r),
        r is Ok,
    ensures
        b.stream() is Some,
        match newest {
            Some(frame) => r->Ok_0.data@ == frame.data@,
            None => b.stream()->0.last matches Some(prev) && r->Ok_0.data@ == prev.data@,
        },
        after.stream() matches Some(live) && (live.last matches Some(last) && last.data@
            == r->Ok_0.data@),
{
}

/// The pipeline that reads the stream `node` from the file descriptor `fd` as BGRA frames.
///
/// It drops what is not fetched: a full queue would stop the stream for good.
pub fn pipeline_description(fd: u32, node: u32) -> (r: String)
    ensures
        r@ == "pipewiresrc name=src fd="@ + dec(fd as nat) + " path="@ + dec(node as nat)
            + " ! videoconvert ! video/x-raw,format=BGRA ! appsink name=sink max-buffers=4 drop=true sync=false"@,
{
    let mut r = String::from_str("pipewiresrc name=src fd=");
    r.append(decimal(fd as u64).as_str());
    r.append(" path=");
    r.append(decimal(node as u64).as_str());
    r.append(
        " ! videoconvert ! video/x-raw,format=BGRA ! appsink name=sink max-buffers=4 drop=true sync=false",
    );
    r
}

/// The stream is live once it has delivered a first frame, which also gives its size.
pub fn first_frame(node_id: u32, pulled: Result<Option<CaptureFrame>, String>) -> (r: Result<
    LiveStream,
    CaptureError,
>)
    ensures
        match (pulled, r) {
            (Ok(Some(frame)), Ok(live)) => live == (LiveStream {
                node_id,
                width: frame.width,
                height: frame.height,
                last: Some(frame),
            }),
            (Ok(None), Err(e)) => start_failed(
                e,
                "portal session started (node "@ + dec(node_id as nat)
                    + ") but no frame arrived within 8s — the grant may have been cancelled or the stream revoked"@,
            ),
            (Err(cause), Err(e)) => start_failed(e, "first frame unusable: "@ + cause@),
            _ => false,
        },
{
    match pulled {
        Ok(Some(frame)) => Ok(
            LiveStream {
                node_id,
                width: frame.width,
                height: frame.height,
                last: Some(frame),
            },
        ),
        Ok(None) => {
            let mut m = String::from_str("portal session started (node ");
            m.append(decimal(node_id as u64).as_str());
            m.append(
                ") but no frame arrived within 8s — the grant may have been cancelled or the stream revoked",
            );
            Err(CaptureError::InitializationFailed(m))
        },
        Err(cause) => Err(
            CaptureError::InitializationFailed(
                String::from_str("first frame unusable: ").concat(cause.as_str()),
            ),
        ),
    }
}

/// How a stream starts, or why it does not.
pub open spec fn started(
    env: SessionEnv,
    setup: Result<u32, String>,
    pulled: Result<Option<CaptureFrame>, String>,
    r: Result<LiveStream, CaptureError>,
) -> bool {
    match refusal(env) {
        Some(text) => r matches Err(e) && start_failed(e, text),
        None => match (setup, pulled, r) {
            (Err(step), _, Err(e)) => start_failed(e, step@),
            (Ok(node_id), Ok(Some(frame)), Ok(live)) => live == (LiveStream {
                node_id,
                width: frame.width,
                height: frame.height,
                last: Some(frame),
            }),
            (Ok(node_id), Ok(None), Err(e)) => start_failed(
                e,
                "portal session started (node "@ + dec(node_id as nat)
                    + ") but no frame arrived within 8s — the grant may have been cancelled or the stream revoked"@,
            ),
            (Ok(_), Err(cause), Err(e)) => start_failed(e, "first frame unusable: "@ + cause@),
            _ => false,
        },
    }
}

/// Starts a stream from the environment and from what the portal and the pipeline delivered.
/// `setup` holds the text of the step that failed on the way to the first pull, if one did.
/// Nothing is taken from the portal where the environment refuses the session.
pub fn start_live(
    env: &SessionEnv,
    setup: Result<u32, String>,
    pulled: Result<Option<CaptureFrame>, String>,
) -> (r: Result<LiveStream, CaptureError>)
    ensures
        started(*env, setup, pulled, r),
{
    match check_session(env) {
        Err(e) => {
            return Err(e);
        },
        Ok(()) => {},
    }
    match setup {
        Err(step) => Err(CaptureError::InitializationFailed(step)),
        Ok(node_id) => first_frame(node_id, pulled),
    }
}

/// The steps on the way to a running pipeline that can fail.
#[derive(Debug, Clone, Copy, PartialEq, Eq, Structural)]
pub enum SetupStep {
    GstInit,
    NotAPipeline,
    NoSink,
    SinkIsNoAppSink,
    SetPlaying,
}

/// What is reported when a step of the setup fails.
pub open spec fn setup_text(step: SetupStep, cause: Seq<char>) -> Seq<char> {
    match step {
        SetupStep::GstInit => "gst::init: "@ + cause,
        SetupStep::NotAPipeline => "parsed element is not a pipeline"@,
        SetupStep::NoSink => "pipeline has no element named 'sink'"@,
        SetupStep::SinkIsNoAppSink => "'sink' is not an appsink"@,
        SetupStep::SetPlaying => "set pipeline PLAYING: "@ + cause,
    }
}

/// What is reported when a step of the setup fails.
pub fn setup_error(step: SetupStep, cause: &str) -> (r: String)
    ensures
        r@ == setup_text(step, cause@),
{
    match step {
        SetupStep::GstInit => String::from_str("gst::init: ").concat(cause),
        SetupStep::NotAPipeline => String::from_str("parsed element is not a pipeline"),
        SetupStep::NoSink => String::from_str("pipeline has no element named 'sink'"),
        SetupStep::SinkIsNoAppSink => String::from_str("'sink' is not an appsink"),
        SetupStep::SetPlaying => String::from_str("set pipeline PLAYING: ").concat(cause),
    }
}

/// What is reported when the pipeline description does not parse.
pub fn parse_error(description: &str, cause: &str) -> (r: String)
    ensures
        r@ == "gst parse ("@ + description@ + "): "@ + cause@,
{
    let mut r = String::from_str("gst parse (");
    r.append(description);
    r.append("): ");
    r.append(cause);
    r
}

/// What follows a pull from the stream.
#[derive(Debug)]
pub enum PullStep {
    /// The pull is over with this result.
    Done(Result<Option<CaptureFrame>, String>),
    /// The sample was unusable and there is time for another.
    Again,
}

impl PullStep {
    /// This follows a pull that came back at `now`.
    pub open spec fn follows(
        self,
        pull: Option<Result<CaptureFrame, String>>,
        now: u64,
        deadline: u64,
    ) -> bool {
        match pull {
            None => self == PullStep::Done(Ok(None)),
            Some(Ok(frame)) => self == PullStep::Done(Ok(Some(frame))),
            Some(Err(e)) => if now >= deadline {
                self == PullStep::Done(Err(e))
            } else {
                self is Again
            },
        }
    }
}

/// A frame is taken whenever it comes; only an unusable sample is worth another pull, and only
/// before the deadline.
pub proof fn a_pull_ends_with_a_frame_or_its_deadline(
    pull: Option<Result<CaptureFrame, String>>,
    now: u64,
    deadline: u64,
    step: PullStep,
)
    requires
        step.follows(pull, now, deadline),
    ensures
        step is Again <==> now < deadline && (pull matches Some(sample) && sample is Err),
        pull is None ==> (step matches PullStep::Done(Ok(None))),
        pull matches Some(Ok(frame)) ==> (step matches PullStep::Done(Ok(Some(f))) && f == frame),
        (deadline <= now && pull matches Some(Err(_))) ==> (step matches PullStep::Done(Err(e)) && e
            == pull->0->Err_0),
{
}

/// Decides what follows a pull that came back at `now`. `None` means that nothing was queued
/// in time. An unusable sample is skipped until the deadline.
pub fn pull_step(pull: Option<Result<CaptureFrame, String>>, now: u64, deadline: u64) -> (r:
    PullStep)
    ensures
        r.follows(pull, now, deadline),
{
    match pull {
        None => PullStep::Done(Ok(None)),
        Some(Ok(frame)) => PullStep::Done(Ok(Some(frame))),
        Some(Err(e)) => {
            if now >= deadline {
                PullStep::Done(Err(e))
            } else {
                PullStep::Again
            }
        },
    }
}

/// How long a pull that starts at `now` may wait.
pub fn pull_timeout(now: u64, deadline: u64) -> (r: u64)
    ensures
        r == if deadline >= now {
            deadline - now
        } else {
            0
        },
{
    deadline.saturating_sub(now)
}

/// Where the portal's restore token is kept: below `XDG_CACHE_HOME`, else below the cache of
/// the home directory, else below `/tmp`.
pub open spec fn token_path(cache_home: Option<Seq<char>>, home: Option<Seq<char>>) -> Seq<char> {
    let base = match (cache_home, home) {
        (Some(c), _) => c,
        (None, Some(h)) => joined(h, ".cache"@),
        (None, None) => "/tmp"@,
    };
    joined(joined(base, "bsr"@), "screencast_restore_token"@)
}

/// Where the portal's restore token is kept. Its presence makes later runs silent.
pub fn restore_token_path(cache_home: &Option<String>, home: &Option<String>) -> (r: String)
    ensures
        r@ == token_path(opt_text(*cache_home), opt_text(*home)),
{
    let base = match cache_home {
        Some(c) => c.clone(),
        None => match home {
            Some(h) => join(h.as_str(), ".cache"),
            None => String::from_str("/tmp"),
        },
    };
    let dir = join(base.as_str(), "bsr");
    join(dir.as_str(), "screencast_restore_token")
}

/// The restore token in the text of its file; `None` if the file is unreadable or blank.
pub fn read_restore_token(contents: &Option<String>) -> (r: Option<String>)
    ensures
        opt_text(r) == match *contents {
            Some(c) => if trimmed(c@).len() == 0 {
                None
            } else {
                Some(trimmed(c@))
            },
            None => None,
        },
{
    match contents {
        None => None,
        Some(c) => {
            let t = trim(c.as_str());
            if t.as_str().is_empty() {
                None
            } else {
                Some(t)
            }
        },
    }
}

/// How the pointer appears in the stream.
#[derive(Debug, Clone, Copy, PartialEq, Eq, Structural)]
pub enum CursorMode {
    Hidden,
    Metadata,
    Embedded,
}

/// The cursor mode that the variable `BSR_CAPTURE_CURSOR` asks for. The pointer is in the
/// picture unless it is asked not to be.
pub fn cursor_mode(setting: &Option<String>) -> (r: CursorMode)
    ensures
        r == if opt_text(*setting) == Some("hidden"@) {
            CursorMode::Hidden
        } else if opt_text(*setting) == Some("metadata"@) {
            CursorMode::Metadata
        } else {
            CursorMode::Embedded
        },
{
    if is_text(setting, "hidden") {
        CursorMode::Hidden
    } else if is_text(setting, "metadata") {
        CursorMode::Metadata
    } else {
        CursorMode::Embedded
    }
}

/// The steps of the portal handshake that can fail.
#[derive(Debug, Clone, Copy, PartialEq, Eq, Structural)]
pub enum HandshakeStep {
    Connect,
    CreateSession,
    SelectSources,
    SelectResponse,
    Start,
    StartResponse,
    NoStreams,
    OpenRemote,
    /// The portal gave no answer in time.
    TimedOut,
    /// The task that talks to the portal is gone.
    TaskExited,
}

/// What is reported when a step of the handshake fails.
pub open spec fn handshake_text(step: HandshakeStep, cause: Seq<char>) -> Seq<char> {
    match step {
        HandshakeStep::Connect => "connect to ScreenCast portal: "@ + cause,
        HandshakeStep::CreateSession => "ScreenCast.CreateSession: "@ + cause,
        HandshakeStep::SelectSources => "ScreenCast.SelectSources: "@ + cause,
        HandshakeStep::SelectResponse => "SelectSources refused: "@ + cause,
        HandshakeStep::Start => "ScreenCast.Start: "@ + cause,
        HandshakeStep::StartResponse => "screen share was not granted ("@ + cause
            + ") — the portal dialog may have been dismissed"@,
        HandshakeStep::NoStreams => "ScreenCast.Start returned no streams"@,
        HandshakeStep::OpenRemote => "ScreenCast.OpenPipeWireRemote: "@ + cause,
        HandshakeStep::TimedOut => "the desktop portal did not answer within 120s — the screen-share dialog may be waiting for a response, or the portal may not be running (check xdg-desktop-portal-gnome)"@,
        HandshakeStep::TaskExited => "portal handshake task exited without answering"@,
    }
}

/// What is reported when a step of the handshake fails.
pub fn handshake_error(step: HandshakeStep, cause: &str) -> (r: String)
    ensures
        r@ == handshake_text(step, cause@),
{
    match step {
        HandshakeStep::Connect => String::from_str("connect to ScreenCast portal: ").concat(cause),
        HandshakeStep::CreateSession => String::from_str("ScreenCast.CreateSession: ").concat(cause),
        HandshakeStep::SelectSources => String::from_str("ScreenCast.SelectSources: ").concat(cause),
        HandshakeStep::SelectResponse => String::from_str("SelectSources refused: ").concat(cause),
        HandshakeStep::Start => String::from_str("ScreenCast.Start: ").concat(cause),
        HandshakeStep::StartResponse => {
            let r = String::from_str("screen share was not granted (").concat(cause);
            r.concat(") — the portal dialog may have been dismissed")
        },
        HandshakeStep::NoStreams => String::from_str("ScreenCast.Start returned no streams"),
        HandshakeStep::OpenRemote => String::from_str("ScreenCast.OpenPipeWireRemote: ").concat(
            cause,
        ),
        HandshakeStep::TimedOut => String::from_str(
            "the desktop portal did not answer within 120s — the screen-share dialog may be waiting for a response, or the portal may not be running (check xdg-desktop-portal-gnome)",
        ),
        HandshakeStep::TaskExited => String::from_str(
            "portal handshake task exited without answering",
        ),
    }
}

/// A session is refused exactly where the portal is switched off, where there is no display at
/// all, and where the session is one of Xorg.
pub proof fn a_session_starts_on_wayland_alone(env: SessionEnv)
    ensures
        refusal(env) is None <==> opt_text(env.no_portal) != Some("1"@) && (env.wayland_display
            || env.display) && opt_text(env.session_type) != Some("x11"@),
{
}

/// A stream starts exactly where the session is not refused, every step on the way succeeds, and a
/// first frame comes; its size is that of this frame, which is kept. Else it is an error.
pub proof fn a_stream_starts_with_its_first_frame(
    env: SessionEnv,
    setup: Result<u32, String>,
    pulled: Result<Option<CaptureFrame>, String>,
    r: Result<LiveStream, CaptureError>,
)
    requires
        started(env, setup, pulled, r),
    ensures
        r is Ok <==> opt_text(env.no_portal) != Some("1"@) && (env.wayland_display || env.display)
            && opt_text(env.session_type) != Some("x11"@) && setup is Ok && (pulled matches Ok(f)
            && f is Some),
        r matches Ok(live) ==> {
            let frame = pulled->Ok_0->0;
            &&& live.node_id == setup->Ok_0
            &&& live.width == frame.width && live.height == frame.height
            &&& live.last == Some(frame)
        },
        r matches Err(e) ==> e is InitializationFailed,
{
}

/// A repeated frame is the last real one with a new time, and it is counted; a real frame takes
/// the place of the last one, and the size of the stream is its size.
pub proof fn a_still_desktop_is_served_its_last_frame(
    b: PortalCaptureBackend,
    newest: Option<CaptureFrame>,
    now: u64,
    after: PortalCaptureBackend,
    r: Result<CaptureFrame, CaptureError>,
)
    requires
        b.served(newest, now, after, r),
    ensures
        b.stream() is None ==> r is Err && after.stream() is None && after.repeats() == b.repeats(),
        (b.stream() is Some && newest is Some) ==> {
            &&& r matches Ok(f) && f == newest->0
            &&& after.stream() matches Some(l) && l.width == newest->0.width && l.height
                == newest->0.height && l.node_id == b.stream()->0.node_id && (l.last matches Some(p)
                && p.data@ == newest->0.data@ && p.timestamp == newest->0.timestamp && p.width
                == newest->0.width && p.height == newest->0.height)
            &&& after.repeats() == b.repeats()
        },
        (b.stream() matches Some(l) && l.last is Some && newest is None) ==> {
            let last = b.stream()->0.last->0;
            &&& r matches Ok(f) && f.data@ == last.data@ && f.timestamp == now && f.width
                == last.width && f.height == last.height && f.format == last.format
            &&& after.repeats() == b.repeats() + 1
            &&& after.stream() == b.stream()
        },
        (b.stream() matches Some(l) && l.last is None && newest is None) ==> r is Err
            && after.repeats() == b.repeats(),
        after.node() == b.node(),
{
}

/// Of the samples that are waiting the newest is kept, and no more than thirty are fetched: the
/// first pull that brings none ends it. `pulls` are what was pulled, in order; `states` the drain
/// before each and after the last.
pub proof fn a_drain_keeps_the_newest_sample(
    states: Seq<Drain>,
    pulls: Seq<Result<Option<CaptureFrame>, String>>,
)
    requires
        states.len() == pulls.len() + 1,
        states[0].pulled == 0,
        states[0].newest is None,
        forall|k: int|
            0 <= k < pulls.len() ==> (#[trigger] states[k]).pulled < 30 && states[k].took(
                pulls[k],
                states[k + 1],
            ),
    ensures
        pulls.len() <= 30,
        forall|k: int|
            0 <= k < pulls.len() - 1 ==> (#[trigger] pulls[k] matches Ok(f) && f is Some),
        pulls.len() > 0 && (pulls.last() matches Ok(f) && f is Some) ==> states.last().newest
            == pulls.last()->Ok_0 && states.last().pulled == pulls.len(),
        pulls.len() > 1 && !(pulls.last() matches Ok(f) && f is Some) ==> states.last().newest
            == pulls[pulls.len() - 2]->Ok_0,
        pulls.len() > 0 && !(pulls.last() matches Ok(f) && f is Some) ==> states.last().pulled
            == 30,
        pulls.len() == 1 && !(pulls.last() matches Ok(f) && f is Some) ==> states.last().newest
            is None,
    decreases pulls.len(),
{
    if pulls.len() > 0 {
        let n = pulls.len() - 1;
        let earlier = states.drop_last();
        let before = pulls.drop_last();
        assert forall|k: int| 0 <= k < before.len() implies (#[trigger] earlier[k]).pulled < 30
            && earlier[k].took(before[k], earlier[k + 1]) by {
            assert(states[k].took(pulls[k], states[k + 1]));
        }
        a_drain_keeps_the_newest_sample(earlier, before);
        assert(states[n].pulled < 30 && states[n].took(pulls[n], states[n + 1]));
        assert(earlier.last() == states[n]);
        assert forall|k: int| 0 <= k < n implies (#[trigger] pulls[k] matches Ok(f) && f is Some) by {
            if k < n - 1 {
                assert(before[k] == pulls[k]);
            } else {
                assert(before.last() == pulls[k]);
            }
        }
    }
}

/// The restore token lies in `bsr/screencast_restore_token` in the cache, which is the one that is
/// named, else that of the home directory, else `/tmp`.
pub proof fn the_restore_token_lies_in_the_cache(
    cache_home: Option<Seq<char>>,
    home: Option<Seq<char>>,
)
    ensures
        cache_home matches Some(c) ==> (c.len() > 0 && c.last() != '/' ==> token_path(
            cache_home,
            home,
        ) == c + "/bsr/screencast_restore_token"@),
        cache_home is None ==> {
            &&& home matches Some(h) ==> (h.len() > 0 && h.last() != '/' ==> token_path(
                cache_home,
                home,
            ) == h + "/.cache/bsr/screencast_restore_token"@)
            &&& home is None ==> token_path(cache_home, home)
                == "/tmp/bsr/screencast_restore_token"@
        },
{
    reveal_strlit(".cache");
    reveal_strlit("/tmp");
    reveal_strlit("bsr");
    reveal_strlit("screencast_restore_token");
    reveal_strlit("/bsr/screencast_restore_token");
    reveal_strlit("/.cache/bsr/screencast_restore_token");
    reveal_strlit("/tmp/bsr/screencast_restore_token");
    let base = match (cache_home, home) {
        (Some(c), _) => c,
        (None, Some(h)) => joined(h, ".cache"@),
        (None, None) => "/tmp"@,
    };
    if base.len() > 0 && base.last() != '/' {
        let dir = joined(base, "bsr"@);
        assert(dir.last() == 'r');
        assert(token_path(cache_home, home) =~= base + "/bsr/screencast_restore_token"@);
    }
    match (cache_home, home) {
        (None, Some(h)) => {
            if h.len() > 0 && h.last() != '/' {
                assert(base.last() == 'e');
                assert(token_path(cache_home, home) =~= h + "/.cache/bsr/screencast_restore_token"@);
            }
        },
        (None, None) => {
            assert(token_path(cache_home, home) =~= "/tmp/bsr/screencast_restore_token"@);
        },
        _ => {},
    }
}

} // verus!
