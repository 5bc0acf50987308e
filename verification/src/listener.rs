//! The listener at the other end of the telemetry stream: it counts frames, finds gaps in
//! their numbers, and confirms the end of the stream.
use vstd::prelude::*;
use vstd::string::*;

use crate::clock::is_utc_instant;
use crate::json::{
    decimal_is_unique, json_has, json_parse, json_read, json_text, json_text_at, json_u64_at,
    number_is_at, one_line, text_at, JsonNodes,
};
use crate::telemetry_pipe::{
    a_frame_line_carries_its_sequence, a_frame_line_tells_all_of_the_frame, ack_document, ack_envelope, document_sequence, done_document,
    frame_document, is_done_line, lemma_frame_sequence, line_verdict,
    the_farewell_reports_the_frames, the_listeners_confirmation_is_recognised, AckVerdict, FrameInfo,
};
use crate::text::{
    a_number_reads_back_as_it_was_written, chars_of, dec, decimal, decimal_wide, is_white, opt_text, parse_unsigned, same, string_between, trim,
    trimmed, unsigned_value,
};

verus! {

/// The instant that an RFC 3339 text names, as seconds since 1970 and nanoseconds beyond; none
/// where the text is not RFC 3339.
pub uninterp spec fn rfc3339_instant(text: Seq<char>) -> Option<(i64, u32)>;

/// `chrono::DateTime::parse_from_rfc3339`, as seconds and nanoseconds. The instant depends on
/// the text alone.
#[verifier::external_body]
pub(crate) fn parse_rfc3339(text: &str) -> (r: Option<(i64, u32)>)
    ensures
        r == rfc3339_instant(text@),
{
    let parsed = chrono::DateTime::parse_from_rfc3339(text).ok();
    parsed.map(|t| (t.timestamp(), t.timestamp_subsec_nanos()))
}

/// The number of frames that an argument asks for.
pub open spec fn frames_wanted(arg: Option<Seq<char>>) -> int {
    match arg {
        Some(s) => match unsigned_value(s, usize::MAX as nat) {
            Some(n) => n as int,
            None => 50,
        },
        None => 50,
    }
}

/// As many frames are waited for as are asked for, and fifty where no number is given.
pub proof fn as_many_frames_are_waited_for_as_are_asked_for(n: usize, arg: Seq<char>)
    ensures
        frames_wanted(Some(dec(n as nat))) == n,
        frames_wanted(None) == 50,
        unsigned_value(arg, usize::MAX as nat) is None ==> frames_wanted(Some(arg)) == 50,
{
    a_number_reads_back_as_it_was_written(n as nat, usize::MAX as nat);
}

/// The number of frames to wait for: the argument, or 50.
pub fn target_frames(arg: &Option<String>) -> (r: usize)
    ensures
        r == frames_wanted(opt_text(*arg)),
{
    match arg {
        Some(s) => match parse_unsigned(s.as_str(), usize::MAX as u64) {
            Some(n) => n as usize,
            None => 50,
        },
        None => 50,
    }
}

/// The name of the pipe: the argument, or `bsr-telemetry`.
pub fn pipe_name(arg: &Option<String>) -> (r: String)
    ensures
        r@ == "\\\\.\\\\pipe\\\\"@ + match *arg {
            Some(s) => s@,
            None => "bsr-telemetry"@,
        },
{
    let base = String::from_str("\\\\.\\\\pipe\\\\");
    match arg {
        Some(s) => base.concat(s.as_str()),
        None => base.concat("bsr-telemetry"),
    }
}

/// What the listener has seen.
#[derive(Debug, Clone)]
pub struct TelemetryListener {
    /// Text that has not been taken apart into lines yet.
    pub incoming: String,
    pub target_frames: usize,
    pub frames_received: usize,
    /// The number of the last frame that had one.
    pub last_seq: u64,
    /// When the last frame with a readable time was written.
    pub last_ts: Option<(i64, u32)>,
    /// Frames that are missing between the numbers seen.
    pub drops: u128,
    pub parse_errors: usize,
}

/// What the listener reads from a document.
#[derive(Debug)]
pub struct LineDocument {
    /// The document is a command or a response.
    pub has_payload: bool,
    /// The kind of its event.
    pub event: Option<String>,
    /// Its sequence number, or that of its event, or zero.
    pub sequence: u64,
    /// The instant that its timestamp names, if it names one.
    pub time: Option<(i64, u32)>,
}

impl LineDocument {
    /// This stands in the document.
    pub open spec fn holds(self, nodes: JsonNodes) -> bool {
        &&& self.has_payload == nodes.dom().contains("/payload"@)
        &&& opt_text(self.event) == text_at(nodes, "/event/event"@)
        &&& document_sequence(nodes, self.sequence)
        &&& self.time == match text_at(nodes, "/timestamp"@) {
            Some(t) => rfc3339_instant(t),
            None => rfc3339_instant(""@),
        }
    }
}

fn read_document(v: &serde_json::Value) -> (r: LineDocument)
    ensures
        r.holds(crate::json::value_nodes(*v)),
{
    let time = match json_text_at(v, "/timestamp") {
        Some(t) => parse_rfc3339(t.as_str()),
        None => parse_rfc3339(""),
    };
    LineDocument {
        has_payload: json_has(v, "/payload"),
        event: json_text_at(v, "/event/event"),
        sequence: sequence_of(v),
        time,
    }
}

/// What is left of the text when a connection ends.
#[derive(Debug, Clone, Copy, PartialEq, Eq, Structural)]
pub enum Leftover {
    Nothing,
    NotJson,
    /// A document with this sequence number, zero if it has none.
    Document { sequence: u64 },
}

/// What the listener does after a line.
#[derive(Debug, Clone)]
pub enum LineStep {
    /// The line is no document.
    NotJson,
    /// The line is a command or a response.
    Ignored,
    /// The stream is over: send this line, and leave the rest of this read alone.
    Acknowledge(String),
    /// A frame: its number, zero if it has none; how many frames are missing before it; and
    /// whether its time is not after that of the last one.
    Frame { seq: u64, dropped: u64, not_monotonic: bool },
}

/// How many frames are missing between number `last` and number `seq`; none where either is
/// unknown or the numbers do not jump.
pub open spec fn gap(last: u64, seq: u64) -> u64 {
    if last != 0 && seq > last + 1 {
        (seq - last - 1) as u64
    } else {
        0
    }
}

/// `a` is not after `b`.
pub open spec fn not_after(a: (i64, u32), b: (i64, u32)) -> bool {
    a.0 < b.0 || (a.0 == b.0 && a.1 <= b.1)
}

/// The place of the first line break of `s` at or behind `from`, or the length of `s`.
pub open spec fn line_end(s: Seq<char>, from: int) -> int
    decreases s.len() - from,
{
    if from >= s.len() || s[from] == '\n' {
        from
    } else {
        line_end(s, from + 1)
    }
}

fn missing(last: u64, seq: u64) -> (r: u64)
    ensures
        r == gap(last, seq),
{
    if last != 0 && seq > last && seq - last > 1 {
        seq - last - 1
    } else {
        0
    }
}

fn sequence_of(v: &serde_json::Value) -> (seq: u64)
    ensures
        document_sequence(crate::json::value_nodes(*v), seq),
{
    match json_u64_at(v, "/sequence") {
        Some(n) => n,
        None => match json_u64_at(v, "/event/data/sequence") {
            Some(n) => n,
            None => 0,
        },
    }
}

impl TelemetryListener {
    pub fn new(target_frames: usize) -> (r: Self)
        ensures
            r.wf(),
            r.incoming@ == Seq::<char>::empty(),
            r.target_frames == target_frames,
            r.frames_received == 0,
            r.last_seq == 0,
            r.last_ts is None,
            r.drops == 0,
            r.parse_errors == 0,
    {
        TelemetryListener {
            incoming: String::new(),
            target_frames,
            frames_received: 0,
            last_seq: 0,
            last_ts: None,
            drops: 0,
            parse_errors: 0,
        }
    }

    /// Each frame received can have revealed no more missing frames than there are numbers.
    pub open spec fn wf(self) -> bool {
        self.drops <= self.frames_received * u64::MAX
    }

    proof fn lemma_room(self)
        requires
            self.wf(),
            self.frames_received < usize::MAX,
        ensures
            self.drops + u64::MAX <= (self.frames_received + 1) * u64::MAX,
            (self.frames_received + 1) * u64::MAX <= u128::MAX,
    {
        assert(self.frames_received * u64::MAX + u64::MAX == (self.frames_received + 1) * u64::MAX)
            by (nonlinear_arith);
        assert((self.frames_received + 1) * u64::MAX <= 0x1_0000_0000_0000_0000 * u64::MAX)
            by (nonlinear_arith)
            requires
                0 <= self.frames_received + 1 <= 0x1_0000_0000_0000_0000,
        ;
    }

    /// The counters other than the text that waits.
    pub open spec fn same_counts(self, other: TelemetryListener) -> bool {
        &&& self.target_frames == other.target_frames
        &&& self.frames_received == other.frames_received
        &&& self.last_seq == other.last_seq
        &&& self.last_ts == other.last_ts
        &&& self.drops == other.drops
        &&& self.parse_errors == other.parse_errors
    }

    /// Takes text from the pipe.
    pub fn feed(&mut self, text: &str)
        ensures
            final(self).incoming@ == old(self).incoming@ + text@,
            final(self).same_counts(*old(self)),
    {
        self.incoming.append(text);
    }

    /// How taking a line leaves the listener: the text up to the first line break is taken and
    /// trimmed, the line break is gone, and the rest waits.
    pub open spec fn line_taken(self, after: TelemetryListener, r: Option<Seq<char>>) -> bool {
        let s = self.incoming@;
        let k = line_end(s, 0);
        &&& after.same_counts(self)
        &&& match r {
            Some(line) => k < s.len() && line == trimmed(s.subrange(0, k)) && after.incoming@
                == s.subrange(k + 1, s.len() as int),
            None => k >= s.len() && after.incoming@ == s,
        }
    }

    /// Takes the next whole line, trimmed; `None` if there is none yet.
    pub fn next_line(&mut self) -> (r: Option<String>)
        ensures
            old(self).line_taken(*final(self), opt_text(r)),
    {
        let v = chars_of(self.incoming.as_str());
        let mut k: usize = 0;
        while k < v.len() && v[k] != '\n'
            invariant
                k <= v@.len(),
                line_end(v@, k as int) == line_end(v@, 0),
            decreases v@.len() - k,
        {
            k = k + 1;
        }
        if k >= v.len() {
            return None;
        }
        let line = string_between(&v, 0, k);
        self.incoming = string_between(&v, k + 1, v.len());
        Some(trim(line.as_str()))
    }

    /// What a document does to the listener.
    pub open spec fn document_done(
        self,
        doc: LineDocument,
        after: TelemetryListener,
        step: LineStep,
    ) -> bool {
        &&& after.incoming == self.incoming
        &&& after.target_frames == self.target_frames
        &&& if doc.has_payload {
            step is Ignored && after == self
        } else if opt_text(doc.event) == Some("TelemetryDone"@) {
            &&& step matches LineStep::Acknowledge(ack) && ack@ == json_text(ack_document())
                && one_line(ack@) && json_read(ack@) == Some(ack_document())
            &&& after == self
        } else {
            let seq = doc.sequence;
            &&& step == (LineStep::Frame {
                seq,
                dropped: gap(self.last_seq, seq),
                not_monotonic: doc.time is Some && self.last_ts is Some && not_after(
                    doc.time->0,
                    self.last_ts->0,
                ),
            })
            &&& after == (TelemetryListener {
                frames_received: (self.frames_received + 1) as usize,
                last_seq: if seq == 0 {
                    self.last_seq
                } else {
                    seq
                },
                last_ts: if doc.time is Some {
                    doc.time
                } else {
                    self.last_ts
                },
                drops: (self.drops + gap(self.last_seq, seq)) as u128,
                ..self
            })
        }
    }

    /// Takes a document.
    pub fn on_document(&mut self, doc: &LineDocument) -> (step: LineStep)
        requires
            old(self).frames_received < usize::MAX,
            old(self).wf(),
        ensures
            final(self).wf(),
            old(self).document_done(*doc, *final(self), step),
    {
        if doc.has_payload {
            return LineStep::Ignored;
        }
        if let Some(kind) = &doc.event {
            if same(kind.as_str(), "TelemetryDone") {
                return LineStep::Acknowledge(ack_envelope());
            }
        }
        let seq: u64 = doc.sequence;
        let mut not_monotonic = false;
        if let Some(t) = doc.time {
            if let Some(prev) = self.last_ts {
                not_monotonic = t.0 < prev.0 || (t.0 == prev.0 && t.1 <= prev.1);
            }
            self.last_ts = Some(t);
        }
        let dropped: u64 = missing(self.last_seq, seq);
        if seq != 0 {
            proof {
                self.lemma_room();
            }
            self.drops = self.drops + dropped as u128;
            self.last_seq = seq;
        }
        proof {
            old(self).lemma_room();
        }
        self.frames_received = self.frames_received + 1;
        LineStep::Frame { seq, dropped, not_monotonic }
    }

    /// What a line does to the listener.
    pub open spec fn line_done(self, line: Seq<char>, after: TelemetryListener, step: LineStep) -> bool {
        match json_read(line) {
            None => {
                &&& step is NotJson
                &&& after == (TelemetryListener {
                    parse_errors: (self.parse_errors + 1) as usize,
                    ..self
                })
            },
            Some(nodes) => exists|doc: LineDocument|
                doc.holds(nodes) && #[trigger] self.document_done(doc, after, step),
        }
    }

    /// Takes one line, trimmed and not empty.
    pub fn on_line(&mut self, line: &str) -> (step: LineStep)
        requires
            old(self).frames_received < usize::MAX,
            old(self).parse_errors < usize::MAX,
            old(self).wf(),
        ensures
            final(self).wf(),
            old(self).line_done(line@, *final(self), step),
    {
        match json_parse(line) {
            Ok(v) => {
                let doc = read_document(&v);
                self.on_document(&doc)
            },
            Err(_) => {
                self.parse_errors = self.parse_errors + 1;
                LineStep::NotJson
            },
        }
    }

    /// What the end of a connection does to the listener, with this left over.
    pub open spec fn left_over(self, rest: Leftover, after: TelemetryListener) -> bool {
        &&& after.incoming@.len() == 0
        &&& after.target_frames == self.target_frames
        &&& after.last_ts == self.last_ts
        &&& match rest {
            Leftover::Nothing => after.same_counts(self),
            Leftover::NotJson => after.parse_errors == self.parse_errors + 1
                && after.frames_received == self.frames_received && after.last_seq == self.last_seq
                && after.drops == self.drops,
            Leftover::Document { sequence } => {
                &&& after.parse_errors == self.parse_errors
                &&& if sequence == 0 {
                    after.frames_received == self.frames_received && after.last_seq
                        == self.last_seq && after.drops == self.drops
                } else {
                    &&& after.last_seq == sequence
                    &&& after.frames_received == self.frames_received + 1
                    &&& after.drops == self.drops + gap(self.last_seq, sequence)
                }
            },
        }
    }

    /// Ends a connection with this left over: a document with a number is taken as a last frame.
    pub fn on_leftover(&mut self, rest: Leftover)
        requires
            old(self).frames_received < usize::MAX,
            old(self).parse_errors < usize::MAX,
            old(self).wf(),
        ensures
            final(self).wf(),
            old(self).left_over(rest, *final(self)),
    {
        match rest {
            Leftover::Nothing => {},
            Leftover::NotJson => {
                self.parse_errors = self.parse_errors + 1;
            },
            Leftover::Document { sequence } => {
                if sequence != 0 {
                    proof {
                        old(self).lemma_room();
                    }
                    self.drops = self.drops + missing(self.last_seq, sequence) as u128;
                    self.last_seq = sequence;
                    self.frames_received = self.frames_received + 1;
                }
            },
        }
        self.incoming = String::new();
    }

    /// What the end of a connection does to the listener: text without a line break at its end
    /// is left over.
    pub open spec fn closed(self, after: TelemetryListener) -> bool {
        if trimmed(self.incoming@).len() == 0 {
            self.left_over(Leftover::Nothing, after)
        } else {
            match json_read(trimmed(self.incoming@)) {
                None => self.left_over(Leftover::NotJson, after),
                Some(nodes) => exists|sequence: u64|
                    document_sequence(nodes, sequence) && #[trigger] self.left_over(
                        Leftover::Document { sequence },
                        after,
                    ),
            }
        }
    }

    /// The client has closed the connection.
    pub fn on_close(&mut self)
        requires
            old(self).frames_received < usize::MAX,
            old(self).parse_errors < usize::MAX,
            old(self).wf(),
        ensures
            final(self).wf(),
            old(self).closed(*final(self)),
    {
        let text = trim(self.incoming.as_str());
        let rest = if text.as_str().is_empty() {
            Leftover::Nothing
        } else {
            match json_parse(text.as_str()) {
                Ok(v) => Leftover::Document { sequence: sequence_of(&v) },
                Err(_) => Leftover::NotJson,
            }
        };
        self.on_leftover(rest);
    }

    /// A new client is connected: what the last one left behind is forgotten.
    pub fn on_reconnect(&mut self)
        ensures
            final(self).incoming@.len() == 0,
            final(self).same_counts(*old(self)),
    {
        self.incoming = String::new();
    }

    /// Have all frames been received?
    pub fn reached(&self) -> (r: bool)
        ensures
            r == (self.frames_received >= self.target_frames),
    {
        self.frames_received >= self.target_frames
    }

    /// What the listener says at the end.
    pub fn summary(&self) -> (r: String)
        ensures
            r@ == "summary: frames_received="@ + dec(self.frames_received as nat) + " drops="@ + dec(
                self.drops as nat,
            ) + " parse_errors="@ + dec(self.parse_errors as nat),
    {
        let mut r = String::from_str("summary: frames_received=");
        r.append(decimal(self.frames_received as u64).as_str());
        r.append(" drops=");
        r.append(decimal_wide(self.drops).as_str());
        r.append(" parse_errors=");
        r.append(decimal(self.parse_errors as u64).as_str());
        r
    }
}

/// A document carries one sequence number and no other.
pub proof fn a_document_carries_one_sequence_number(nodes: JsonNodes, a: u64, b: u64)
    requires
        document_sequence(nodes, a),
        document_sequence(nodes, b),
    ensures
        a == b,
{
    if exists|n: u64| number_is_at(nodes, "/sequence"@, n) {
        decimal_is_unique(a as nat, b as nat);
    } else if exists|n: u64| number_is_at(nodes, "/event/data/sequence"@, n) {
        decimal_is_unique(a as nat, b as nat);
    }
}

/// A listener that reads the lines of frames numbered one after the other counts every one of
/// them and finds nothing missing.
pub proof fn consecutive_frames_leave_no_gap(
    before: TelemetryListener,
    after: TelemetryListener,
    step: LineStep,
    line: Seq<char>,
    info: FrameInfo,
    timestamp: Seq<char>,
)
    requires
        json_read(line) == Some(frame_document(info, timestamp)),
        before.line_done(line, after, step),
        before.frames_received < usize::MAX,
        before.last_seq < u64::MAX,
        info.sequence == before.last_seq + 1,
    ensures
        step matches LineStep::Frame { seq, dropped, .. } && seq == info.sequence && dropped == 0,
        after.frames_received == before.frames_received + 1,
        after.last_seq == info.sequence,
        after.drops == before.drops,
        after.parse_errors == before.parse_errors,
{
    let doc = frame_document(info, timestamp);
    a_frame_line_is_no_farewell(info, timestamp);
    if let LineStep::Frame { seq, .. } = step {
        a_frame_line_carries_its_sequence(info, timestamp, seq);
    }
}

/// The line of a frame is neither a command nor the end of the stream.
pub proof fn a_frame_line_is_no_farewell(info: FrameInfo, timestamp: Seq<char>)
    ensures
        !frame_document(info, timestamp).dom().contains("/payload"@),
        text_at(frame_document(info, timestamp), "/event/event"@) != Some("TelemetryDone"@),
{
    lemma_frame_sequence(info, timestamp);
    a_frame_line_carries_its_sequence(info, timestamp, info.sequence);
    reveal_strlit("FrameCaptured");
    reveal_strlit("TelemetryDone");
    assert("FrameCaptured"@[0] == 'F' && "TelemetryDone"@[0] == 'T');
}

proof fn lemma_line_end(line: Seq<char>, rest: Seq<char>, from: int)
    requires
        one_line(line),
        0 <= from <= line.len(),
    ensures
        line_end(line.push('\n') + rest, from) == line.len(),
    decreases line.len() - from,
{
    let s = line.push('\n') + rest;
    if from < line.len() {
        assert(s[from] == line[from]);
        lemma_line_end(line, rest, from + 1);
    } else {
        assert(s[from] == '\n');
    }
}

proof fn lemma_line_trims(line: Seq<char>)
    requires
        one_line(line),
    ensures
        trimmed(line) == line,
        trimmed(line.push('\n')) == line,
{
    let s = line.push('\n');
    assert(s[0] == '{' && s.last() == '\n');
    assert(s.drop_last() =~= line);
    assert(!is_white('{') && !is_white('}') && is_white('\n'));
}

/// A line that was written comes out of the listener as it was, whatever was written behind it:
/// one line for each document.
pub proof fn a_written_line_is_read_back(
    before: TelemetryListener,
    after: TelemetryListener,
    r: Option<Seq<char>>,
    line: Seq<char>,
    rest: Seq<char>,
)
    requires
        one_line(line),
        before.incoming@ == line.push('\n') + rest,
        before.line_taken(after, r),
    ensures
        r == Some(line),
        after.incoming@ == rest,
        after.same_counts(before),
{
    let s = before.incoming@;
    lemma_line_end(line, rest, 0);
    lemma_line_trims(line);
    assert(s.subrange(0, line.len() as int) =~= line);
    assert(s.subrange((line.len() + 1) as int, s.len() as int) =~= rest);
}

/// A listener that reads the line that ends a stream answers with a line that the client takes
/// for the confirmation, and counts nothing.
pub proof fn the_farewell_is_confirmed(
    before: TelemetryListener,
    after: TelemetryListener,
    step: LineStep,
    line: Seq<char>,
    frames: u64,
)
    requires
        is_done_line(line, frames),
        before.line_done(line, after, step),
    ensures
        step matches LineStep::Acknowledge(ack) && line_verdict(ack@.push('\n'))
            == AckVerdict::DrainComplete,
        after == before,
{
    let timestamp = choose|timestamp: Seq<char>|
        is_utc_instant(timestamp) && line == json_text(#[trigger] done_document(frames, timestamp))
            && json_read(line) == Some(done_document(frames, timestamp));
    the_farewell_reports_the_frames(frames, timestamp);
    if let LineStep::Acknowledge(ack) = step {
        lemma_line_trims(ack@);
        the_listeners_confirmation_is_recognised(ack@.push('\n'));
    }
}

/// Frames whose numbers grow are all accounted for: those that came and those that were found
/// missing are as many as there are numbers from the first to the last. `states` are the listener
/// before each frame and after the last.
pub proof fn missing_frames_are_counted(
    states: Seq<TelemetryListener>,
    docs: Seq<LineDocument>,
    steps: Seq<LineStep>,
)
    requires
        docs.len() > 0,
        states.len() == docs.len() + 1,
        steps.len() == docs.len(),
        states[0].last_seq == 0,
        states[0].drops <= u64::MAX,
        states[0].frames_received + docs.len() <= usize::MAX,
        forall|k: int|
            0 <= k < docs.len() ==> (#[trigger] states[k]).document_done(
                docs[k],
                states[k + 1],
                steps[k],
            ),
        forall|k: int|
            0 <= k < docs.len() ==> !(#[trigger] docs[k]).has_payload && opt_text(docs[k].event)
                != Some("TelemetryDone"@) && docs[k].sequence > 0,
        forall|i: int, k: int|
            0 <= i < k < docs.len() ==> (#[trigger] docs[i]).sequence < (
            #[trigger] docs[k]).sequence,
    ensures
        states.last().frames_received == states[0].frames_received + docs.len(),
        states.last().drops - states[0].drops + docs.len() == docs.last().sequence
            - docs[0].sequence + 1,
        states.last().last_seq == docs.last().sequence,
        states.last().parse_errors == states[0].parse_errors,
    decreases docs.len(),
{
    let n = docs.len() - 1;
    assert(states[n].document_done(docs[n], states[n + 1], steps[n]));
    assert(!docs[n].has_payload);
    if n > 0 {
        let earlier = states.drop_last();
        let before = docs.drop_last();
        assert forall|k: int| 0 <= k < before.len() implies (#[trigger] earlier[k]).document_done(
            before[k],
            earlier[k + 1],
            steps.drop_last()[k],
        ) by {
            assert(states[k].document_done(docs[k], states[k + 1], steps[k]));
        }
        assert forall|k: int| 0 <= k < before.len() implies !(#[trigger] before[k]).has_payload
            && opt_text(before[k].event) != Some("TelemetryDone"@) && before[k].sequence > 0 by {
            assert(!docs[k].has_payload);
        }
        assert forall|i: int, k: int| 0 <= i < k < before.len() implies (
        #[trigger] before[i]).sequence < (#[trigger] before[k]).sequence by {
            assert(docs[i].sequence < docs[k].sequence);
        }
        missing_frames_are_counted(earlier, before, steps.drop_last());
        assert(docs[n - 1].sequence < docs[n].sequence);
        assert(before.last() == docs[n - 1]);
        assert(earlier.last() == states[n]);
        assert(docs[0].sequence <= docs[n - 1].sequence);
    }
}

/// One frame: it counts, the numbers between it and the last one are missing, and it is late where
/// its time is not after that of the last one. Commands, answers and farewells count nothing.
pub proof fn a_frame_is_counted_once(
    before: TelemetryListener,
    doc: LineDocument,
    after: TelemetryListener,
    step: LineStep,
)
    requires
        before.frames_received < usize::MAX,
        before.drops + u64::MAX <= u128::MAX,
        before.document_done(doc, after, step),
    ensures
        doc.has_payload <==> step is Ignored,
        step is Acknowledge <==> !doc.has_payload && opt_text(doc.event) == Some("TelemetryDone"@),
        !(step is Frame) ==> after == before,
        step matches LineStep::Frame { seq, dropped, not_monotonic } ==> {
            &&& seq == doc.sequence
            &&& after.frames_received == before.frames_received + 1
            &&& after.drops == before.drops + dropped
            &&& before.last_seq == 0 || seq <= before.last_seq ==> dropped == 0
            &&& 0 < before.last_seq < seq ==> before.last_seq + dropped + 1 == seq
            &&& seq > 0 ==> after.last_seq == seq
            &&& seq == 0 ==> after.last_seq == before.last_seq
            &&& doc.time is Some ==> after.last_ts == doc.time
            &&& doc.time is None ==> after.last_ts == before.last_ts && !not_monotonic
            &&& before.last_ts is None ==> !not_monotonic
            &&& (doc.time matches Some(t) && before.last_ts matches Some(l) && (t.0 > l.0 || (t.0
                == l.0 && t.1 > l.1))) ==> !not_monotonic
            &&& (doc.time matches Some(t) && before.last_ts matches Some(l) && (t.0 < l.0 || (t.0
                == l.0 && t.1 <= l.1))) ==> not_monotonic
            &&& after.parse_errors == before.parse_errors
        },
{
}

/// A line is taken as soon as its line break is there, and not before: it is what stands before
/// the first line break, trimmed, and what stands behind that waits.
pub proof fn a_line_is_taken_at_its_line_break(
    before: TelemetryListener,
    after: TelemetryListener,
    r: Option<Seq<char>>,
    k: int,
)
    requires
        before.line_taken(after, r),
    ensures
        (forall|i: int| 0 <= i < before.incoming@.len() ==> #[trigger] before.incoming@[i] != '\n')
            ==> r is None && after.incoming@ == before.incoming@,
        (0 <= k < before.incoming@.len() && before.incoming@[k] == '\n' && forall|i: int|
            0 <= i < k ==> #[trigger] before.incoming@[i] != '\n') ==> {
            &&& r == Some(trimmed(before.incoming@.take(k)))
            &&& after.incoming@ == before.incoming@.skip(k + 1)
        },
        after.same_counts(before),
{
    let s = before.incoming@;
    if forall|i: int| 0 <= i < s.len() ==> #[trigger] s[i] != '\n' {
        lemma_no_line_end(s, 0, s.len() as int);
    }
    if 0 <= k < s.len() && s[k] == '\n' && forall|i: int| 0 <= i < k ==> #[trigger] s[i] != '\n' {
        lemma_no_line_end(s, 0, k);
        assert(s.subrange(0, k) =~= s.take(k));
        assert(s.subrange(k + 1, s.len() as int) =~= s.skip(k + 1));
    }
}

proof fn lemma_no_line_end(s: Seq<char>, from: int, to: int)
    requires
        0 <= from <= to <= s.len(),
        forall|i: int| from <= i < to ==> #[trigger] s[i] != '\n',
        to < s.len() ==> s[to] == '\n',
    ensures
        line_end(s, from) == to,
    decreases to - from,
{
    if from < to {
        lemma_no_line_end(s, from + 1, to);
    }
}

/// What a client leaves behind when it closes the connection counts like a line of its own would:
/// a frame where it is one with a number, an error where it is no document.
pub proof fn a_leftover_counts_like_a_line(
    before: TelemetryListener,
    rest: Leftover,
    after: TelemetryListener,
)
    requires
        before.left_over(rest, after),
    ensures
        after.incoming@.len() == 0,
        after.target_frames == before.target_frames,
        rest is Nothing ==> after.frames_received == before.frames_received && after.drops
            == before.drops && after.parse_errors == before.parse_errors && after.last_seq
            == before.last_seq,
        rest is NotJson ==> after.parse_errors == before.parse_errors + 1 && after.frames_received
            == before.frames_received && after.drops == before.drops,
        rest matches Leftover::Document { sequence } ==> {
            &&& after.parse_errors == before.parse_errors
            &&& sequence > 0 ==> after.frames_received == before.frames_received + 1
                && after.last_seq == sequence
            &&& sequence == 0 ==> after.frames_received == before.frames_received && after.drops
                == before.drops && after.last_seq == before.last_seq
            &&& 0 < before.last_seq < sequence ==> after.drops - before.drops == sequence
                - before.last_seq - 1
            &&& before.last_seq == 0 || sequence <= before.last_seq ==> after.drops == before.drops
        },
{
}

/// What is read from the line of a frame is that frame: its number, its kind and its time.
pub proof fn a_frame_is_read_from_its_line(doc: LineDocument, info: FrameInfo, timestamp: Seq<char>)
    requires
        doc.holds(frame_document(info, timestamp)),
    ensures
        doc.sequence == info.sequence,
        !doc.has_payload,
        opt_text(doc.event) == Some("FrameCaptured"@),
        doc.time == rfc3339_instant(timestamp),
{
    a_frame_line_carries_its_sequence(info, timestamp, doc.sequence);
    a_frame_line_tells_all_of_the_frame(info, timestamp);
}

} // verus!
