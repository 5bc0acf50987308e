//! The smoke runs: recording without a window, for a number of frames.
use vstd::prelude::*;
use vstd::string::*;

use crate::app_state::next_count;
use crate::capture::{is_crop, CaptureConfig, CaptureFrame, DropPolicy};
use crate::config::CaptureRegion;
use crate::telemetry_pipe::FrameInfo;
use crate::text::{
    a_number_is_written_digit_by_digit, a_number_reads_back_as_it_was_written,
    a_signed_number_reads_back_as_it_was_written, chars_of, dec, decimal, is_white, parse_i32,
    signed_dec, signed_value, string_between, trim, trimmed,
};

verus! {

/// The place of the first comma of `s` at or behind `from`, or the length of `s`.
pub open spec fn comma_from(s: Seq<char>, from: int) -> int
    decreases s.len() - from,
{
    if from >= s.len() || s[from] == ',' {
        from
    } else {
        comma_from(s, from + 1)
    }
}

proof fn lemma_comma_from(s: Seq<char>, from: int)
    requires
        0 <= from <= s.len(),
    ensures
        from <= comma_from(s, from) <= s.len(),
    decreases s.len() - from,
{
    if from < s.len() && s[from] != ',' {
        lemma_comma_from(s, from + 1);
    }
}

/// The numbers among the pieces of `s` between commas, from `from` on.
pub open spec fn numbers_from(s: Seq<char>, from: int) -> Seq<i32>
    decreases s.len() - from + 1,
    when 0 <= from
    via numbers_from_ends
{
    if from > s.len() {
        Seq::empty()
    } else {
        let e = comma_from(s, from);
        let rest = numbers_from(s, e + 1);
        match signed_value(trimmed(s.subrange(from, e))) {
            Some(n) => seq![n] + rest,
            None => rest,
        }
    }
}

#[via_fn]
proof fn numbers_from_ends(s: Seq<char>, from: int) {
    if from <= s.len() {
        lemma_comma_from(s, from);
    }
}

fn numbers(s: &str) -> (r: Vec<i32>)
    ensures
        r@ == numbers_from(s@, 0),
{
    let v = chars_of(s);
    let mut r: Vec<i32> = Vec::new();
    let mut from: usize = 0;
    assert(r@ + numbers_from(s@, 0) =~= numbers_from(s@, 0));
    loop
        invariant_except_break
            r@ + numbers_from(s@, from as int) == numbers_from(s@, 0),
        invariant
            v@ == s@,
            from <= v@.len(),
        ensures
            r@ == numbers_from(s@, 0),
        decreases v@.len() - from,
    {
        let mut e: usize = from;
        while e < v.len() && v[e] != ','
            invariant
                from <= e <= v@.len(),
                comma_from(v@, from as int) == comma_from(v@, e as int),
            decreases v@.len() - e,
        {
            e = e + 1;
        }
        let piece = string_between(&v, from, e);
        let number = parse_i32(trim(piece.as_str()).as_str());
        let ghost before = r@;
        let ghost rest = numbers_from(s@, e + 1);
        if let Some(n) = number {
            r.push(n);
            assert(r@ + rest =~= before + (seq![n] + rest));
        }
        assert(r@ + rest == numbers_from(s@, 0));
        if e >= v.len() {
            assert(rest =~= Seq::<i32>::empty());
            assert(r@ + rest =~= r@);
            break;
        }
        from = e + 1;
    }
    r
}

/// The region that four numbers name.
pub open spec fn crop_of(s: Seq<char>) -> Option<CaptureRegion> {
    let n = numbers_from(s, 0);
    if n.len() == 4 {
        Some(CaptureRegion { x1: n[0], y1: n[1], x2: n[2], y2: n[3] })
    } else {
        None
    }
}

/// Reads a region from `x1,y1,x2,y2`. Pieces that are no number do not count.
pub fn parse_crop(s: &str) -> (r: Option<CaptureRegion>)
    ensures
        r == crop_of(s@),
{
    let n = numbers(s);
    if n.len() == 4 {
        Some(CaptureRegion { x1: n[0], y1: n[1], x2: n[2], y2: n[3] })
    } else {
        None
    }
}

/// The capture of a run, and the size for which encoder and muxer are opened.
#[derive(Debug, Clone)]
pub struct SmokePlan {
    pub capture: CaptureConfig,
    pub width: u32,
    pub height: u32,
}

impl SmokePlan {
    /// This is the plan of a run with this crop.
    pub open spec fn runs_with(self, crop: Option<CaptureRegion>) -> bool {
        &&& self.capture == (CaptureConfig {
            width: 1920,
            height: 1080,
            fps: 30,
            drop_policy: DropPolicy::DropNewest,
            buffer_capacity: 8,
            region: self.capture.region,
        })
        &&& match crop {
            Some(region) => match region.resolved(1920, 1080) {
                Some((x, y, w, h)) => self.capture.region == Some(region) && self.width == w
                    && self.height == h,
                None => self.capture.region is None && self.width == 1920 && self.height == 1080,
            },
            None => self.capture.region is None && self.width == 1920 && self.height == 1080,
        }
    }
}

/// Plans a run with a crop. The encoder and the muxer are opened for the cropped size; a crop
/// that leaves nothing is no crop.
pub fn plan_run(crop: Option<CaptureRegion>) -> (r: SmokePlan)
    ensures
        r.runs_with(crop),
{
    let mut capture = CaptureConfig::default();
    let mut width: u32 = capture.width;
    let mut height: u32 = capture.height;
    if let Some(region) = crop {
        if let Some((_, _, w, h)) = region.resolve(capture.width, capture.height) {
            capture.region = Some(region);
            width = w;
            height = h;
        }
    }
    SmokePlan { capture, width, height }
}

/// What a run has passed on.
#[derive(Debug, Clone, Copy, PartialEq, Eq, Structural)]
pub struct SmokeBridge {
    pub target_frames: usize,
    pub frames_sent: usize,
    pub sequence: u64,
}

impl SmokeBridge {
    pub fn new(target_frames: usize) -> (r: Self)
        ensures
            r == (SmokeBridge { target_frames, frames_sent: 0, sequence: 0 }),
    {
        SmokeBridge { target_frames, frames_sent: 0, sequence: 0 }
    }

    /// What is passed on for a packet, and what becomes of the bridge.
    pub open spec fn forwards(
        self,
        width: u32,
        height: u32,
        size_bytes: usize,
        timestamp: u64,
        after: SmokeBridge,
        r: FrameInfo,
    ) -> bool {
        &&& r == (FrameInfo {
            sequence: next_count(self.sequence),
            width,
            height,
            size_bytes,
            timestamp,
        })
        &&& after == (SmokeBridge {
            frames_sent: (self.frames_sent + 1) as usize,
            sequence: next_count(self.sequence),
            ..self
        })
    }

    /// Passes on a packet of `size_bytes` bytes: numbers it, one higher than the last, and
    /// counts it.
    pub fn forward(&mut self, width: u32, height: u32, size_bytes: usize, timestamp: u64) -> (r:
        FrameInfo)
        requires
            old(self).frames_sent < usize::MAX,
        ensures
            old(self).forwards(width, height, size_bytes, timestamp, *final(self), r),
    {
        self.sequence = self.sequence.wrapping_add(1);
        self.frames_sent = self.frames_sent + 1;
        FrameInfo { sequence: self.sequence, width, height, size_bytes, timestamp }
    }

    /// Have all frames been passed on?
    pub fn reached(&self) -> (r: bool)
        ensures
            r == (self.frames_sent >= self.target_frames),
    {
        self.frames_sent >= self.target_frames
    }

    /// What is reported when capture stops early.
    pub fn stopped_early(&self) -> (r: String)
        ensures
            r@ == "capture stopped after "@ + dec(self.frames_sent as nat) + " of "@ + dec(
                self.target_frames as nat,
            ) + " frames"@,
    {
        let mut r = String::from_str("capture stopped after ");
        r.append(decimal(self.frames_sent as u64).as_str());
        r.append(" of ");
        r.append(decimal(self.target_frames as u64).as_str());
        r.append(" frames");
        r
    }
}

/// How a run ended.
#[derive(Debug, Clone, Copy, PartialEq, Eq, Structural)]
pub enum RunEnd {
    Complete,
    /// Nobody was left to report the end.
    StoppedEarly,
    TimedOut,
}

/// The error that a run ends with, if it ends with one.
pub fn run_outcome(end: RunEnd, target_frames: usize) -> (r: Result<(), String>)
    ensures
        match (end, r) {
            (RunEnd::Complete, Ok(())) => true,
            (RunEnd::StoppedEarly, Err(e)) => e@
                == "completion sender dropped before signalling — the pipeline stopped early"@,
            (RunEnd::TimedOut, Err(e)) => e@ == "timeout waiting for "@ + dec(target_frames as nat)
                + " frames — capture or encode never delivered"@,
            _ => false,
        },
{
    match end {
        RunEnd::Complete => Ok(()),
        RunEnd::StoppedEarly => Err(
            String::from_str(
                "completion sender dropped before signalling — the pipeline stopped early",
            ),
        ),
        RunEnd::TimedOut => {
            let mut e = String::from_str("timeout waiting for ");
            e.append(decimal(target_frames as u64).as_str());
            e.append(" frames — capture or encode never delivered");
            Err(e)
        },
    }
}

/// Frames are passed on as they came, numbered one after the other, and each is counted.
pub proof fn frames_are_numbered_one_after_the_other(
    b: SmokeBridge,
    width: u32,
    height: u32,
    size_bytes: usize,
    timestamp: u64,
    after: SmokeBridge,
    r: FrameInfo,
)
    requires
        b.frames_sent < usize::MAX,
        b.sequence < u64::MAX,
        b.forwards(width, height, size_bytes, timestamp, after, r),
    ensures
        r.sequence == b.sequence + 1 && after.sequence == b.sequence + 1,
        after.frames_sent == b.frames_sent + 1,
        after.target_frames == b.target_frames,
        r.width == width && r.height == height,
        r.size_bytes == size_bytes && r.timestamp == timestamp,
{
}

proof fn lemma_comma_at(s: Seq<char>, from: int, to: int)
    requires
        0 <= from <= to <= s.len(),
        forall|i: int| from <= i < to ==> #[trigger] s[i] != ',',
        to < s.len() ==> s[to] == ',',
    ensures
        comma_from(s, from) == to,
    decreases to - from,
{
    if from < to {
        lemma_comma_at(s, from + 1, to);
    }
}

/// A number is made of digits and perhaps a sign: there is no comma in it, and nothing to trim.
proof fn lemma_plain_number(n: i32)
    ensures
        forall|i: int| 0 <= i < signed_dec(n as int).len() ==> #[trigger] signed_dec(n as int)[i] != ',',
        trimmed(signed_dec(n as int)) == signed_dec(n as int),
        signed_value(signed_dec(n as int)) == Some(n),
{
    a_signed_number_reads_back_as_it_was_written(n);
    let t = signed_dec(n as int);
    let m = if n < 0 { (0 - n) as nat } else { n as nat };
    a_number_reads_back_as_it_was_written(m, 0x8000_0000);
    assert forall|i: int| 0 <= i < t.len() implies #[trigger] t[i] != ',' && !is_white(t[i]) by {
        let k = if n < 0 { i - 1 } else { i };
        if k >= 0 {
            a_number_is_written_digit_by_digit(m, (dec(m).len() - 1 - k) as nat);
            assert(t[i] == dec(m)[k]);
        }
    }
    a_number_is_written_digit_by_digit(m, 0);
    assert(!is_white(t[0]) && !is_white(t[t.len() - 1]));
}

proof fn lemma_piece(s: Seq<char>, from: int, to: int, n: i32)
    requires
        0 <= from <= to <= s.len(),
        to < s.len() ==> s[to] == ',',
        s.subrange(from, to) == signed_dec(n as int),
    ensures
        numbers_from(s, from) == seq![n] + numbers_from(s, to + 1),
{
    lemma_plain_number(n);
    assert forall|i: int| from <= i < to implies #[trigger] s[i] != ',' by {
        assert(s.subrange(from, to)[i - from] == s[i]);
    }
    lemma_comma_at(s, from, to);
}

/// Four numbers with commas between them are read as the corners of a region, in their order.
pub proof fn a_crop_reads_back_as_it_was_written(r: CaptureRegion)
    ensures
        crop_of(
            signed_dec(r.x1 as int) + seq![','] + signed_dec(r.y1 as int) + seq![','] + signed_dec(
                r.x2 as int,
            ) + seq![','] + signed_dec(r.y2 as int),
        ) == Some(r),
{
    let (a, b) = (signed_dec(r.x1 as int), signed_dec(r.y1 as int));
    let (c, d) = (signed_dec(r.x2 as int), signed_dec(r.y2 as int));
    let s = a + seq![','] + b + seq![','] + c + seq![','] + d;
    let i = a.len() as int;
    let j = i + 1 + b.len();
    let k = j + 1 + c.len();
    let n = s.len() as int;
    assert(s.subrange(0, i) =~= a);
    assert(s.subrange(i + 1, j) =~= b);
    assert(s.subrange(j + 1, k) =~= c);
    assert(s.subrange(k + 1, n) =~= d);
    lemma_piece(s, 0, i, r.x1);
    lemma_piece(s, i + 1, j, r.y1);
    lemma_piece(s, j + 1, k, r.x2);
    lemma_piece(s, k + 1, n, r.y2);
    assert(numbers_from(s, n + 1) =~= Seq::<i32>::empty());
    assert(numbers_from(s, 0) =~= seq![r.x1, r.y1, r.x2, r.y2]);
}

/// A run records the crop that it is given: encoder and muxer are opened for the size that the
/// frames of the screen have once they are cropped. Without one, and with one that leaves nothing,
/// that is the full screen.
pub proof fn a_run_is_opened_for_the_cropped_size(
    plan: SmokePlan,
    crop: Option<CaptureRegion>,
    frame: CaptureFrame,
    out: CaptureFrame,
)
    requires
        plan.runs_with(crop),
        frame.width == 1920 && frame.height == 1080,
        frame.data@.len() >= frame.width * 4 * frame.height,
        plan.capture.region matches Some(region) ==> is_crop(out, frame, region),
        plan.capture.region is None ==> out == frame,
    ensures
        out.width == plan.width && out.height == plan.height,
        crop is None ==> plan.width == 1920 && plan.height == 1080,
        plan.capture.region is Some ==> plan.capture.region == crop,
        crop matches Some(r) ==> (0 <= r.x1 && r.x1 + 2 <= r.x2 <= 1920 && 0 <= r.y1 && r.y1 + 2
            <= r.y2 <= 1080 ==> plan.capture.region == crop && plan.width == r.x2 - r.x1 - (r.x2
            - r.x1) % 2 && plan.height == r.y2 - r.y1 - (r.y2 - r.y1) % 2),
{
    reveal(CaptureRegion::resolved);
}

} // verus!
