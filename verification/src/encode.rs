//! Encoding: what goes into the encoder, when each frame is shown, and what comes out.
use vstd::prelude::*;
use vstd::string::*;

use vstd::arithmetic::div_mod::{lemma_fundamental_div_mod, lemma_fundamental_div_mod_converse};

use crate::buffer::DropOldestBuffer;
use crate::capture::CaptureFrame;
use crate::ipc::TelemetryEvent;
use crate::path::texts;
use crate::text::{debug_string, debug_text, dec, decimal, decimal_wide};

verus! {

/// What went wrong while encoding.
#[derive(Debug, Clone, PartialEq, Eq)]
pub enum EncoderError {
    Initialization(String),
    Encoding(String),
    UnsupportedFormat(String),
    Shutdown(String),
    /// One or more FFmpeg libraries could not be loaded.
    FfmpegNotFound { missing: Vec<String> },
    /// The FFmpeg build does not have the codec.
    CodecNotFound,
    /// Codec context or frame could not be allocated.
    AllocFailed,
}

/// The texts with a comma and a space between them, in brackets.
pub open spec fn bracketed(items: Seq<Seq<char>>) -> Seq<char> {
    "["@ + listed(items) + "]"@
}

/// The texts with a comma and a space between them.
pub open spec fn listed(items: Seq<Seq<char>>) -> Seq<char>
    decreases items.len(),
{
    if items.len() == 0 {
        Seq::empty()
    } else if items.len() == 1 {
        items[0]
    } else {
        listed(items.drop_last()) + ", "@ + items.last()
    }
}

/// The texts, each as `{:?}` writes it.
pub open spec fn quoted(items: Seq<Seq<char>>) -> Seq<Seq<char>> {
    items.map_values(|t: Seq<char>| debug_text(t))
}

/// The texts with a comma and a space between them, in brackets.
pub fn bracketed_list(items: &Vec<String>) -> (r: String)
    ensures
        r@ == bracketed(texts(items@)),
{
    let mut inner = String::new();
    for i in 0..items.len()
        invariant
            inner@ == listed(texts(items@).take(i as int)),
    {
        assert(texts(items@).take(i + 1).drop_last() =~= texts(items@).take(i as int));
        assert(texts(items@).take(i + 1).last() == items@[i as int]@);
        if i > 0 {
            inner.append(", ");
        }
        inner.append(items[i].as_str());
        if i == 0 {
            assert(inner@ =~= items@[0]@);
        }
    }
    assert(texts(items@).take(items@.len() as int) =~= texts(items@));
    let mut r = String::from_str("[");
    r.append(inner.as_str());
    r.append("]");
    r
}

fn debug_strings(items: &Vec<String>) -> (r: Vec<String>)
    ensures
        texts(r@) == quoted(texts(items@)),
{
    let mut r: Vec<String> = Vec::new();
    for i in 0..items.len()
        invariant
            r@.len() == i,
            forall|k: int| 0 <= k < i ==> (#[trigger] r@[k])@ == debug_text(items@[k]@),
    {
        r.push(debug_string(items[i].as_str()));
    }
    assert(texts(r@) =~= quoted(texts(items@)));
    r
}

impl EncoderError {
    /// The text that is shown for the error.
    pub open spec fn shown(self) -> Seq<char> {
        match self {
            EncoderError::Initialization(m) => "Initialization failed: "@ + m@,
            EncoderError::Encoding(m) => "Encoding failed: "@ + m@,
            EncoderError::UnsupportedFormat(m) => "Unsupported format: "@ + m@,
            EncoderError::Shutdown(m) => "Shutdown failed: "@ + m@,
            EncoderError::FfmpegNotFound { missing } => "FFmpeg libraries not found: "@ + bracketed(
                quoted(texts(missing@)),
            ),
            EncoderError::CodecNotFound => "Codec not found in FFmpeg registry"@,
            EncoderError::AllocFailed => "Allocation failed in FFmpeg"@,
        }
    }

    /// The text that is shown for the error.
    pub fn message(&self) -> (r: String)
        ensures
            r@ == self.shown(),
    {
        match self {
            EncoderError::Initialization(m) => String::from_str("Initialization failed: ").concat(
                m.as_str(),
            ),
            EncoderError::Encoding(m) => String::from_str("Encoding failed: ").concat(m.as_str()),
            EncoderError::UnsupportedFormat(m) => String::from_str("Unsupported format: ").concat(
                m.as_str(),
            ),
            EncoderError::Shutdown(m) => String::from_str("Shutdown failed: ").concat(m.as_str()),
            EncoderError::FfmpegNotFound { missing } => {
                let list = bracketed_list(&debug_strings(missing));
                String::from_str("FFmpeg libraries not found: ").concat(list.as_str())
            },
            EncoderError::CodecNotFound => String::from_str("Codec not found in FFmpeg registry"),
            EncoderError::AllocFailed => String::from_str("Allocation failed in FFmpeg"),
        }
    }
}

/// One encoded packet.
#[derive(Debug, Clone, PartialEq, Eq)]
pub struct EncodedPacket {
    pub data: Vec<u8>,
    /// Nanoseconds since the epoch.
    pub timestamp: u64,
    /// When to show it, in ticks.
    pub pts: i64,
    /// When to decode it, in ticks.
    pub dts: i64,
    pub keyframe: bool,
    pub codec: String,
}

/// How to encode.
#[derive(Debug, Clone, PartialEq, Eq)]
pub struct EncoderConfig {
    pub codec: String,
    pub preset: String,
    pub bitrate_kbps: u32,
    pub width: u32,
    pub height: u32,
    pub fps: u32,
}

impl Default for EncoderConfig {
    fn default() -> (r: Self)
        ensures
            r.codec@ == "h264"@,
            r.preset@ == "fast"@,
            r.bitrate_kbps == 8000,
            r.width == 1920,
            r.height == 1080,
            r.fps == 30,
    {
        EncoderConfig {
            codec: String::from_str("h264"),
            preset: String::from_str("fast"),
            bitrate_kbps: 8000,
            width: 1920,
            height: 1080,
            fps: 30,
        }
    }
}

/// Counts of what was encoded, and how many whole milliseconds the last packet took.
#[derive(Debug, Clone, Copy, PartialEq, Eq, Structural)]
pub struct EncoderTelemetry {
    pub packets_encoded: u64,
    pub frames_encoded: u64,
    pub avg_encode_time_ms: u64,
}

impl Default for EncoderTelemetry {
    fn default() -> (r: Self)
        ensures
            r == (EncoderTelemetry {
                packets_encoded: 0,
                frames_encoded: 0,
                avg_encode_time_ms: 0,
            }),
    {
        EncoderTelemetry { packets_encoded: 0, frames_encoded: 0, avg_encode_time_ms: 0 }
    }
}

/// Something that turns frames into packets.
pub trait EncoderBackend {
    fn initialize(&mut self, config: &EncoderConfig) -> Result<(), EncoderError>;

    fn encode_frame(&mut self, frame: &CaptureFrame) -> Result<Option<EncodedPacket>, EncoderError>;

    fn shutdown(&mut self) -> Result<(), EncoderError>;
}

/// A backend that answers every frame with a small packet of zeros.
#[derive(Debug, Clone, Copy)]
pub struct MockEncoderBackend;

impl MockEncoderBackend {
    pub fn new() -> (r: Self)
        ensures
            r == MockEncoderBackend,
    {
        MockEncoderBackend
    }
}

impl EncoderBackend for MockEncoderBackend {
    fn initialize(&mut self, config: &EncoderConfig) -> (r: Result<(), EncoderError>)
        ensures
            r is Ok,
    {
        Ok(())
    }

    fn encode_frame(&mut self, frame: &CaptureFrame) -> (r: Result<
        Option<EncodedPacket>,
        EncoderError,
    >)
        ensures
            r matches Ok(Some(p)) && p.data@ == Seq::new(1024, |i: int| 0u8) && p.timestamp
                == frame.timestamp && p.pts == frame.timestamp as i64 && p.dts
                == frame.timestamp as i64 && p.keyframe && p.codec@ == "mock"@,
    {
        let data: Vec<u8> = vec![0u8; 1024];
        assert(data@ =~= Seq::new(1024, |i: int| 0u8));
        Ok(
            Some(
                EncodedPacket {
                    data,
                    timestamp: frame.timestamp,
                    pts: frame.timestamp as i64,
                    dts: frame.timestamp as i64,
                    keyframe: true,
                    codec: String::from_str("mock"),
                },
            ),
        )
    }

    fn shutdown(&mut self) -> (r: Result<(), EncoderError>)
        ensures
            r is Ok,
    {
        Ok(())
    }
}

/// Why packed rows cannot be copied into a plane.
pub open spec fn copy_fault(
    dst_len: nat,
    dst_stride: nat,
    src_len: nat,
    src_stride: nat,
    rows: nat,
) -> Option<Seq<char>> {
    if dst_stride < src_stride {
        Some(
            "destination linesize "@ + dec(dst_stride) + " is shorter than a "@ + dec(src_stride)
                + "-byte row"@,
        )
    } else if src_len < src_stride * rows {
        Some(
            "source is "@ + dec(src_len) + " bytes, need "@ + dec(src_stride * rows) + " for "@
                + dec(rows) + " rows of "@ + dec(src_stride),
        )
    } else if dst_len < dst_stride * (rows - 1) + src_stride {
        Some(
            "destination is "@ + dec(dst_len) + " bytes, too small for "@ + dec(rows)
                + " rows at stride "@ + dec(dst_stride),
        )
    } else {
        None
    }
}

/// The plane after the first `rows` packed rows have been copied into it: row `k` starts at
/// `k * dst_stride`, and the bytes between the rows are as they were.
pub open spec fn plane_with_rows(
    before: Seq<u8>,
    dst_stride: int,
    src: Seq<u8>,
    src_stride: int,
    rows: int,
) -> Seq<u8> {
    Seq::new(
        before.len(),
        |i: int|
            if dst_stride > 0 && i / dst_stride < rows && i % dst_stride < src_stride {
                src[(i / dst_stride) * src_stride + i % dst_stride]
            } else {
                before[i]
            },
    )
}

/// Byte `i` of the plane while row `k` is copied up to byte `b`.
spec fn plane_part(
    before: Seq<u8>,
    dst_stride: int,
    src: Seq<u8>,
    src_stride: int,
    k: int,
    b: int,
    i: int,
) -> u8 {
    let r = i / dst_stride;
    let c = i % dst_stride;
    if (r < k && c < src_stride) || (r == k && c < b) {
        src[r * src_stride + c]
    } else {
        before[i]
    }
}

/// What becomes of a plane when packed rows are copied into it.
pub open spec fn rows_copied(
    before: Seq<u8>,
    dst_stride: int,
    src: Seq<u8>,
    src_stride: int,
    rows: int,
    r: Result<(), String>,
    after: Seq<u8>,
) -> bool {
    let fault = copy_fault(
        before.len(),
        dst_stride as nat,
        src.len(),
        src_stride as nat,
        rows as nat,
    );
    match r {
        Ok(()) => fault is None && after == plane_with_rows(
            before,
            dst_stride,
            src,
            src_stride,
            rows,
        ),
        Err(e) => fault == Some(e@) && after == before,
    }
}

/// Rows are copied exactly where the plane takes a row at each stride and the source has them
/// all. Then byte `b` of row `k` lies at `k * dst_stride + b`, and every byte of the plane that
/// belongs to no row is as it was. Else nothing changes.
pub proof fn copied_rows_keep_their_places(
    before: Seq<u8>,
    dst_stride: int,
    src: Seq<u8>,
    src_stride: int,
    rows: int,
    r: Result<(), String>,
    after: Seq<u8>,
    k: int,
    b: int,
)
    requires
        0 <= dst_stride && 0 <= src_stride && 0 < rows,
        rows_copied(before, dst_stride, src, src_stride, rows, r, after),
    ensures
        r is Ok <==> src_stride <= dst_stride && src_stride * rows <= src.len() && dst_stride * (rows
            - 1) + src_stride <= before.len(),
        r is Err ==> after == before,
        after.len() == before.len(),
        r is Ok && 0 <= k < rows && 0 <= b < src_stride ==> after[k * dst_stride + b] == src[k
            * src_stride + b],
        r is Ok && 0 <= k && src_stride <= b < dst_stride && k * dst_stride + b < before.len()
            ==> after[k * dst_stride + b] == before[k * dst_stride + b],
        r is Ok && rows <= k && 0 <= b < dst_stride && k * dst_stride + b < before.len() ==> after[k
            * dst_stride + b] == before[k * dst_stride + b],
{
    if r is Ok && 0 <= k && 0 <= b < dst_stride {
        assert(0 <= k * dst_stride) by (nonlinear_arith)
            requires
                0 <= k,
                0 <= dst_stride,
        ;
        lemma_cell(dst_stride, k, b, k * dst_stride + b);
        if k < rows && b < src_stride {
            assert(k * dst_stride <= dst_stride * (rows - 1)) by (nonlinear_arith)
                requires
                    k <= rows - 1,
                    0 <= dst_stride,
            ;
        }
    }
}

/// Copies packed rows into a plane whose rows are `dst_stride` bytes apart.
///
/// The stride of the plane is aligned and may be larger than a packed row. Copying all rows
/// at once would shear the picture.
pub fn copy_packed_into_plane(
    dst: &mut [u8],
    dst_stride: usize,
    src: &[u8],
    src_stride: usize,
    rows: usize,
) -> (r: Result<(), String>)
    requires
        rows > 0,
    ensures
        rows_copied(
            old(dst)@,
            dst_stride as int,
            src@,
            src_stride as int,
            rows as int,
            r,
            final(dst)@,
        ),
{
    if dst_stride < src_stride {
        let mut e = String::from_str("destination linesize ");
        e.append(decimal(dst_stride as u64).as_str());
        e.append(" is shorter than a ");
        e.append(decimal(src_stride as u64).as_str());
        e.append("-byte row");
        return Err(e);
    }
    let need: u128 = mul_wide(src_stride, rows);
    if (src.len() as u128) < need {
        let mut e = String::from_str("source is ");
        e.append(decimal(src.len() as u64).as_str());
        e.append(" bytes, need ");
        e.append(decimal_wide(need).as_str());
        e.append(" for ");
        e.append(decimal(rows as u64).as_str());
        e.append(" rows of ");
        e.append(decimal(src_stride as u64).as_str());
        return Err(e);
    }
    let n: usize = dst.len();
    if (n as u128) < mul_wide(dst_stride, rows - 1) + src_stride as u128 {
        let mut e = String::from_str("destination is ");
        e.append(decimal(n as u64).as_str());
        e.append(" bytes, too small for ");
        e.append(decimal(rows as u64).as_str());
        e.append(" rows at stride ");
        e.append(decimal(dst_stride as u64).as_str());
        return Err(e);
    }
    let ghost before = dst@;
    if dst_stride == 0 {
        assert(dst@ =~= plane_with_rows(before, 0, src@, src_stride as int, rows as int));
        return Ok(());
    }
    let len: usize = src.len();
    let mut k: usize = 0;
    assert forall|i: int| 0 <= i < n implies #[trigger] dst@[i] == plane_part(
        before,
        dst_stride as int,
        src@,
        src_stride as int,
        0,
        0,
        i,
    ) by {
        lemma_parts_are_natural(i, dst_stride as int);
    }
    while k < rows
        invariant
            0 < dst_stride,
            src_stride <= dst_stride,
            k <= rows,
            len == src@.len(),
            n == dst@.len() == before.len(),
            src_stride * rows <= len,
            dst_stride * (rows - 1) + src_stride <= n,
            forall|i: int|
                0 <= i < n ==> #[trigger] dst@[i] == plane_part(
                    before,
                    dst_stride as int,
                    src@,
                    src_stride as int,
                    k as int,
                    0,
                    i,
                ),
        decreases rows - k,
    {
        assert(k * dst_stride <= dst_stride * (rows - 1) && (k + 1) * src_stride <= src_stride
            * rows && k * src_stride + src_stride == (k + 1) * src_stride) by (nonlinear_arith)
            requires
                0 <= k <= rows - 1,
        ;
        let d: usize = k * dst_stride;
        let s: usize = k * src_stride;
        let mut b: usize = 0;
        while b < src_stride
            invariant
                0 < dst_stride,
                b <= src_stride <= dst_stride,
                d == k * dst_stride,
                s == k * src_stride,
                d + src_stride <= n,
                s + src_stride <= len,
                len == src@.len(),
                n == dst@.len() == before.len(),
                forall|i: int|
                    0 <= i < n ==> #[trigger] dst@[i] == plane_part(
                        before,
                        dst_stride as int,
                        src@,
                        src_stride as int,
                        k as int,
                        b as int,
                        i,
                    ),
            decreases src_stride - b,
        {
            let ghost prev = dst@;
            dst[d + b] = src[s + b];
            assert forall|i: int| 0 <= i < n implies #[trigger] dst@[i] == plane_part(
                before,
                dst_stride as int,
                src@,
                src_stride as int,
                k as int,
                b + 1,
                i,
            ) by {
                assert(prev[i] == plane_part(
                    before,
                    dst_stride as int,
                    src@,
                    src_stride as int,
                    k as int,
                    b as int,
                    i,
                ));
                lemma_cell(dst_stride as int, k as int, b as int, i);
            }
            b = b + 1;
        }
        assert forall|i: int| 0 <= i < n implies #[trigger] dst@[i] == plane_part(
            before,
            dst_stride as int,
            src@,
            src_stride as int,
            k + 1,
            0,
            i,
        ) by {
            lemma_parts_are_natural(i, dst_stride as int);
        }
        k = k + 1;
    }
    assert forall|i: int| 0 <= i < n implies #[trigger] dst@[i] == plane_with_rows(
        before,
        dst_stride as int,
        src@,
        src_stride as int,
        rows as int,
    )[i] by {
        lemma_parts_are_natural(i, dst_stride as int);
    }
    assert(dst@ =~= plane_with_rows(
        before,
        dst_stride as int,
        src@,
        src_stride as int,
        rows as int,
    ));
    Ok(())
}

fn mul_wide(a: usize, b: usize) -> (r: u128)
    ensures
        r == a * b,
        r <= u64::MAX * u64::MAX,
{
    assert(0 <= a * b <= u64::MAX * u64::MAX) by (nonlinear_arith)
        requires
            0 <= a <= u64::MAX,
            0 <= b <= u64::MAX,
    ;
    a as u128 * b as u128
}

proof fn lemma_parts_are_natural(i: int, d: int)
    requires
        0 <= i,
        0 < d,
    ensures
        0 <= i / d,
        0 <= i % d < d,
{
    lemma_fundamental_div_mod(i, d);
    assert(0 <= i / d) by (nonlinear_arith)
        requires
            0 <= i,
            0 < d,
    ;
}

/// The cell in row `k` and column `b` is byte `k * d + b`, and no other.
proof fn lemma_cell(d: int, k: int, b: int, i: int)
    requires
        0 <= k,
        0 <= b < d,
        0 <= i,
    ensures
        i == k * d + b <==> (i / d == k && i % d == b),
{
    lemma_fundamental_div_mod(i, d);
    if i == k * d + b {
        lemma_fundamental_div_mod_converse(i, d, k, b);
    } else if i / d == k && i % d == b {
        assert(d * (i / d) == k * d) by (nonlinear_arith)
            requires
                i / d == k,
        ;
    }
}

/// Row `k` of the picture lies at `k * dst_stride`, and the padding behind it is as it was.
pub proof fn rows_land_on_stride_boundaries(
    before: Seq<u8>,
    dst_stride: int,
    src: Seq<u8>,
    src_stride: int,
    rows: int,
    k: int,
    b: int,
)
    requires
        0 < dst_stride,
        0 <= k < rows,
        0 <= b < dst_stride,
        src_stride <= dst_stride,
        k * dst_stride + b < before.len(),
    ensures
        plane_with_rows(before, dst_stride, src, src_stride, rows)[k * dst_stride + b] == (if b
            < src_stride {
            src[k * src_stride + b]
        } else {
            before[k * dst_stride + b]
        }),
{
    assert(0 <= k * dst_stride) by (nonlinear_arith)
        requires
            0 <= k,
            0 < dst_stride,
    ;
    lemma_cell(dst_stride, k, b, k * dst_stride + b);
}

/// Where both strides agree, the picture is copied as one piece.
pub proof fn equal_strides_copy_straight(before: Seq<u8>, stride: int, src: Seq<u8>, rows: int)
    requires
        0 < stride,
        0 <= rows,
        before.len() == stride * rows,
        src.len() == stride * rows,
    ensures
        plane_with_rows(before, stride, src, stride, rows) == src,
{
    assert forall|i: int| 0 <= i < before.len() implies plane_with_rows(
        before,
        stride,
        src,
        stride,
        rows,
    )[i] == src[i] by {
        lemma_parts_are_natural(i, stride);
        lemma_fundamental_div_mod(i, stride);
        assert((i / stride) * stride == stride * (i / stride)) by (nonlinear_arith);
        assert(i / stride < rows) by (nonlinear_arith)
            requires
                stride * (i / stride) <= i,
                i < stride * rows,
                0 < stride,
        ;
    }
    assert(plane_with_rows(before, stride, src, stride, rows) =~= src);
}

/// The state of the H.264 encoder beside the codec: the size it was opened for and the clock
/// of its timestamps.
#[derive(Debug, Clone, Copy, PartialEq, Eq, Structural)]
pub struct H264EncoderBackend {
    pub width: u32,
    pub height: u32,
    /// Ticks per second.
    pub fps: u32,
    /// Capture time of the first frame, from which timestamps are measured.
    pub first_ts: Option<u64>,
    /// The last timestamp given out.
    pub last_pts: Option<i64>,
}

/// The whole ticks in `elapsed` nanoseconds.
pub open spec fn ticks(elapsed: int, fps: u32) -> i64 {
    (elapsed * fps / 1_000_000_000) as i64
}

/// The nanoseconds from `base` to `timestamp`, zero if the clock went backwards.
pub open spec fn elapsed_ns(base: u64, timestamp: u64) -> int {
    if timestamp >= base {
        timestamp - base
    } else {
        0
    }
}

impl H264EncoderBackend {
    /// The timestamp of the next frame: its capture time in ticks since the first frame, or
    /// the tick after the last one, whichever is later.
    pub open spec fn pts_for(self, timestamp: u64) -> i64 {
        let base = match self.first_ts {
            Some(b) => b,
            None => timestamp,
        };
        let t = ticks(elapsed_ns(base, timestamp), self.fps);
        match self.last_pts {
            Some(last) => if t <= last {
                (last + 1) as i64
            } else {
                t
            },
            None => t,
        }
    }

    /// The encoder after a frame captured at `timestamp`.
    pub open spec fn after(self, timestamp: u64) -> H264EncoderBackend {
        H264EncoderBackend {
            first_ts: match self.first_ts {
                Some(b) => Some(b),
                None => Some(timestamp),
            },
            last_pts: Some(self.pts_for(timestamp)),
            ..self
        }
    }

    /// The state of an encoder opened for `config`.
    pub open spec fn opened(config: EncoderConfig) -> H264EncoderBackend {
        H264EncoderBackend {
            width: config.width,
            height: config.height,
            fps: if config.fps == 0 {
                1
            } else {
                config.fps
            },
            first_ts: None,
            last_pts: None,
        }
    }

    /// The state of an encoder opened for `config`. A frame rate of zero counts as one.
    pub fn new(config: &EncoderConfig) -> (r: Self)
        ensures
            r == Self::opened(*config),
    {
        H264EncoderBackend {
            width: config.width,
            height: config.height,
            fps: if config.fps == 0 {
                1
            } else {
                config.fps
            },
            first_ts: None,
            last_pts: None,
        }
    }

    /// Why a frame does not go into this encoder's plane.
    pub open spec fn frame_fault(
        self,
        frame: CaptureFrame,
        plane_len: nat,
        stride: nat,
    ) -> Option<Seq<char>> {
        if frame.width != self.width || frame.height != self.height {
            Some(
                "frame is "@ + dec(frame.width as nat) + "x"@ + dec(frame.height as nat)
                    + " but this encoder was opened for "@ + dec(self.width as nat) + "x"@ + dec(
                    self.height as nat,
                ) + "; the capture region and the encoder configuration disagree"@,
            )
        } else {
            copy_fault(
                plane_len,
                stride,
                frame.data@.len(),
                frame.width as nat * 4,
                frame.height as nat,
            )
        }
    }

    /// What becomes of the plane that the encoder reads when a frame is copied into it.
    pub open spec fn loaded(
        self,
        frame: CaptureFrame,
        before: Seq<u8>,
        stride: int,
        r: Result<(), EncoderError>,
        after: Seq<u8>,
    ) -> bool {
        let fault = self.frame_fault(frame, before.len(), stride as nat);
        match r {
            Ok(()) => {
                &&& fault is None
                &&& after == plane_with_rows(
                    before,
                    stride,
                    frame.data@,
                    frame.width * 4,
                    frame.height as int,
                )
            },
            Err(e) => e matches EncoderError::Encoding(m) && fault == Some(m@) && after == before,
        }
    }

    /// Copies a frame into the plane that the encoder reads. The encoder cannot change its
    /// size mid-stream, so a frame of any other size is refused.
    pub fn load_frame(&self, frame: &CaptureFrame, plane: &mut [u8], stride: usize) -> (r: Result<
        (),
        EncoderError,
    >)
        requires
            self.height > 0,
            self.width * 4 <= usize::MAX,
        ensures
            self.loaded(*frame, old(plane)@, stride as int, r, final(plane)@),
    {
        if frame.width != self.width || frame.height != self.height {
            let mut m = String::from_str("frame is ");
            m.append(decimal(frame.width as u64).as_str());
            m.append("x");
            m.append(decimal(frame.height as u64).as_str());
            m.append(" but this encoder was opened for ");
            m.append(decimal(self.width as u64).as_str());
            m.append("x");
            m.append(decimal(self.height as u64).as_str());
            m.append("; the capture region and the encoder configuration disagree");
            return Err(EncoderError::Encoding(m));
        }
        match copy_packed_into_plane(
            plane,
            stride,
            frame.data.as_slice(),
            frame.width as usize * 4,
            frame.height as usize,
        ) {
            Ok(()) => Ok(()),
            Err(m) => Err(EncoderError::Encoding(m)),
        }
    }

    /// Gives out the timestamp of a frame. Timestamps follow capture time, not the number of
    /// frames, and never stand still or go back.
    pub fn next_pts(&mut self, timestamp: u64) -> (pts: i64)
        requires
            old(self).last_pts matches Some(last) ==> last < i64::MAX,
        ensures
            pts == old(self).pts_for(timestamp),
            *final(self) == old(self).after(timestamp),
    {
        let base: u64 = match self.first_ts {
            Some(b) => b,
            None => timestamp,
        };
        self.first_ts = Some(base);
        let elapsed: u64 = timestamp.saturating_sub(base);
        assert(0 <= elapsed * self.fps <= u64::MAX * u32::MAX) by (nonlinear_arith)
            requires
                0 <= elapsed <= u64::MAX,
                0 <= self.fps <= u32::MAX,
        ;
        let mut pts: i64 = (elapsed as i128 * self.fps as i128 / 1_000_000_000) as i64;
        if let Some(last) = self.last_pts {
            if pts <= last {
                pts = last + 1;
            }
        }
        self.last_pts = Some(pts);
        pts
    }

    /// The packet made of what the codec returned for a frame captured at `timestamp`.
    pub fn packet(
        data: Vec<u8>,
        timestamp: u64,
        pts: Option<i64>,
        dts: Option<i64>,
        keyframe: bool,
    ) -> (r: EncodedPacket)
        ensures
            r.made_of(data, timestamp, pts, dts, keyframe),
    {
        EncodedPacket {
            data,
            timestamp,
            pts: pts.unwrap_or(0),
            dts: dts.unwrap_or(0),
            keyframe,
            codec: String::from_str("h264"),
        }
    }
}

impl EncodedPacket {
    /// This packet is made of what the codec returned.
    pub open spec fn made_of(
        self,
        data: Vec<u8>,
        timestamp: u64,
        pts: Option<i64>,
        dts: Option<i64>,
        keyframe: bool,
    ) -> bool {
        &&& self.data == data
        &&& self.timestamp == timestamp
        &&& self.pts == (if pts is Some {
            pts->0
        } else {
            0
        })
        &&& self.dts == (if dts is Some {
            dts->0
        } else {
            0
        })
        &&& self.keyframe == keyframe
        &&& self.codec@ == "h264"@
    }
}

/// An encoder takes frames of its own size only, where it has all their bytes and the plane has
/// room for all their rows. Then every byte of every pixel lies in its own row of the plane.
pub proof fn a_loaded_frame_keeps_every_pixel(
    e: H264EncoderBackend,
    frame: CaptureFrame,
    before: Seq<u8>,
    stride: int,
    r: Result<(), EncoderError>,
    after: Seq<u8>,
    px: int,
    py: int,
    channel: int,
)
    requires
        e.height > 0,
        0 <= stride,
        e.loaded(frame, before, stride, r, after),
    ensures
        r is Ok <==> frame.width == e.width && frame.height == e.height && frame.width * 4 <= stride
            && frame.width * 4 * frame.height <= frame.data@.len() && stride * (frame.height - 1)
            + frame.width * 4 <= before.len(),
        r is Err ==> after == before,
        after.len() == before.len(),
        r is Ok && 0 <= px < frame.width && 0 <= py < frame.height && 0 <= channel < 4 ==> after[py
            * stride + px * 4 + channel] == frame.data@[(py * frame.width + px) * 4 + channel],
{
    let outcome: Result<(), String> = match r {
        Ok(()) => Ok(()),
        Err(EncoderError::Encoding(m)) => Err(m),
        Err(_) => Ok(()),
    };
    if frame.width == e.width && frame.height == e.height {
        copied_rows_keep_their_places(
            before,
            stride,
            frame.data@,
            frame.width * 4,
            frame.height as int,
            outcome,
            after,
            py,
            px * 4 + channel,
        );
        assert((py * frame.width + px) * 4 + channel == py * (frame.width * 4) + (px * 4 + channel))
            by (nonlinear_arith);
    }
}

/// The encoder after frames captured at `stamps`.
pub open spec fn after_frames(e: H264EncoderBackend, stamps: Seq<u64>) -> H264EncoderBackend
    decreases stamps.len(),
{
    if stamps.len() == 0 {
        e
    } else {
        after_frames(e, stamps.drop_last()).after(stamps.last())
    }
}

/// The timestamps that frames captured at `stamps` get.
pub open spec fn pts_of(e: H264EncoderBackend, stamps: Seq<u64>) -> Seq<i64>
    decreases stamps.len(),
{
    if stamps.len() == 0 {
        Seq::empty()
    } else {
        pts_of(e, stamps.drop_last()).push(
            after_frames(e, stamps.drop_last()).pts_for(stamps.last()),
        )
    }
}

proof fn lemma_run(e: H264EncoderBackend, stamps: Seq<u64>)
    ensures
        pts_of(e, stamps).len() == stamps.len(),
        after_frames(e, stamps).fps == e.fps,
        stamps.len() == 0 ==> after_frames(e, stamps) == e,
        stamps.len() > 0 ==> after_frames(e, stamps).last_pts == Some(pts_of(e, stamps).last()),
        stamps.len() > 0 && e.first_ts is None ==> after_frames(e, stamps).first_ts == Some(
            stamps[0],
        ),
    decreases stamps.len(),
{
    if stamps.len() > 0 {
        lemma_run(e, stamps.drop_last());
        if stamps.len() > 1 {
            assert(stamps.drop_last()[0] == stamps[0]);
        }
    }
}

/// Timestamps strictly increase, whatever the capture clock does: two frames in one tick and
/// a clock that is set back included.
pub proof fn timestamps_strictly_increase(e: H264EncoderBackend, stamps: Seq<u64>)
    requires
        forall|k: int|
            0 <= k < stamps.len() ==> #[trigger] pts_of(e, stamps)[k] < i64::MAX,
    ensures
        forall|i: int, j: int|
            0 <= i < j < stamps.len() ==> #[trigger] pts_of(e, stamps)[i] < #[trigger] pts_of(
                e,
                stamps,
            )[j],
    decreases stamps.len(),
{
    lemma_run(e, stamps);
    if stamps.len() > 1 {
        let before = stamps.drop_last();
        lemma_run(e, before);
        assert forall|k: int| 0 <= k < before.len() implies #[trigger] pts_of(e, before)[k]
            < i64::MAX by {
            assert(pts_of(e, stamps)[k] == pts_of(e, before)[k]);
        }
        timestamps_strictly_increase(e, before);
        let p = pts_of(e, stamps);
        let q = pts_of(e, before);
        assert(q.last() == p[before.len() - 1]);
        assert(p.last() > q.last());
        assert forall|i: int, j: int| 0 <= i < j < stamps.len() implies #[trigger] p[i]
            < #[trigger] p[j] by {
            if j == stamps.len() - 1 {
                if i < before.len() - 1 {
                    assert(q[i] < q[before.len() - 1]);
                }
            } else {
                assert(q[i] < q[j]);
            }
        }
    }
}

/// A recording lasts as long as it was captured: no timestamp falls behind the time since the
/// first frame.
pub proof fn timestamps_keep_up_with_the_clock(e: H264EncoderBackend, stamps: Seq<u64>)
    requires
        e.first_ts is None,
        e.last_pts is None,
        stamps.len() > 0,
        after_frames(e, stamps.drop_last()).last_pts matches Some(last) ==> last < i64::MAX,
    ensures
        pts_of(e, stamps).last() >= ticks(elapsed_ns(stamps[0], stamps.last()), e.fps),
        stamps.len() == 1 ==> pts_of(e, stamps).last() == 0,
{
    lemma_run(e, stamps);
    lemma_run(e, stamps.drop_last());
    if stamps.len() > 1 {
        assert(stamps.drop_last()[0] == stamps[0]);
    } else {
        assert(0 * e.fps / 1_000_000_000 == 0) by (nonlinear_arith);
    }
}

/// Frames that lie at least one tick apart get exactly their capture time in ticks.
pub proof fn spaced_frames_get_their_capture_time(e: H264EncoderBackend, stamps: Seq<u64>)
    requires
        e.first_ts is None,
        e.last_pts is None,
        stamps.len() > 0,
        forall|k: int|
            0 < k < stamps.len() ==> ticks(elapsed_ns(stamps[0], #[trigger] stamps[k - 1]), e.fps)
                < ticks(elapsed_ns(stamps[0], stamps[k]), e.fps),
    ensures
        pts_of(e, stamps).last() == ticks(elapsed_ns(stamps[0], stamps.last()), e.fps),
    decreases stamps.len(),
{
    lemma_run(e, stamps);
    if stamps.len() > 1 {
        let before = stamps.drop_last();
        lemma_run(e, before);
        assert(before[0] == stamps[0]);
        assert forall|k: int| 0 < k < before.len() implies ticks(
            elapsed_ns(before[0], #[trigger] before[k - 1]),
            e.fps,
        ) < ticks(elapsed_ns(before[0], before[k]), e.fps) by {
            assert(stamps[k - 1] == before[k - 1]);
        }
        spaced_frames_get_their_capture_time(e, before);
        assert(stamps[stamps.len() - 1 - 1] == before.last());
    }
}

/// The whole ticks in a span of time, in the numbers themselves.
proof fn lemma_ticks(elapsed: int, fps: int)
    requires
        0 <= elapsed,
        0 <= fps,
    ensures
        0 <= elapsed * fps / 1_000_000_000,
        (elapsed * fps / 1_000_000_000) * 1_000_000_000 <= elapsed * fps,
        elapsed * fps < (elapsed * fps / 1_000_000_000 + 1) * 1_000_000_000,
{
    assert(0 <= elapsed * fps) by (nonlinear_arith)
        requires
            0 <= elapsed,
            0 <= fps,
    ;
}

/// A frame gets the tick in which it was captured, counted from the first frame on, or else the
/// one right behind the last timestamp, where that is later. A tick lasts one part in `fps` of a
/// second. The first frame gets zero.
pub proof fn a_timestamp_is_the_tick_of_capture_or_the_next_free_one(
    e: H264EncoderBackend,
    timestamp: u64,
)
    requires
        e.last_pts matches Some(last) ==> 0 <= last < i64::MAX,
        e.first_ts matches Some(first) ==> (timestamp - first) * e.fps < i64::MAX * 1_000_000_000,
    ensures
        ({
            let p = e.pts_for(timestamp);
            let first = match e.first_ts {
                Some(first) => first,
                None => timestamp,
            };
            &&& e.last_pts matches Some(last) ==> p > last
            &&& timestamp >= first ==> (timestamp - first) * e.fps < (p + 1) * 1_000_000_000
            &&& timestamp >= first && p * 1_000_000_000 > (timestamp - first) * e.fps ==> (
            e.last_pts matches Some(last) && p == last + 1)
            &&& timestamp <= first ==> p == (match e.last_pts {
                Some(last) => last + 1,
                None => 0,
            })
            &&& e.after(timestamp) == (H264EncoderBackend {
                first_ts: Some(first),
                last_pts: Some(p),
                ..e
            })
        }),
{
    let first = match e.first_ts {
        Some(first) => first,
        None => timestamp,
    };
    let elapsed = elapsed_ns(first, timestamp);
    lemma_ticks(elapsed, e.fps as int);
    if timestamp <= first {
        assert(0 * e.fps == 0);
    }
}

/// A recording plays as fast as it was captured. Frames that lie at least one tick apart get the
/// tick of their capture: the timestamp `p` of a frame that was captured `d` nanoseconds after the
/// first one is the one with `p` seconds in `fps` parts at most `d`, and the next more than `d`.
/// The frame rate is that of the configuration, where that is not zero.
pub proof fn spaced_frames_play_as_they_were_captured(config: EncoderConfig, stamps: Seq<u64>, k: int)
    requires
        config.fps > 0,
        forall|i: int|
            0 < i < stamps.len() ==> (#[trigger] stamps[i] - stamps[i - 1]) * config.fps
                >= 1_000_000_000,
        0 <= k < stamps.len(),
        (stamps.last() - stamps[0]) * config.fps < i64::MAX * 1_000_000_000,
    ensures
        ({
            let p = pts_of(H264EncoderBackend::opened(config), stamps)[k];
            let d = stamps[k] - stamps[0];
            p * 1_000_000_000 <= d * config.fps < (p + 1) * 1_000_000_000
        }),
    decreases stamps.len(),
{
    let e = H264EncoderBackend::opened(config);
    let before = stamps.drop_last();
    lemma_run(e, stamps);
    lemma_run(e, before);
    let fps = config.fps as int;
    if stamps.len() == 1 {
        lemma_ticks(0, fps);
        assert(0 * fps == 0);
    } else {
        let n = stamps.len() - 1;
        let gap = stamps[n] - stamps[n - 1];
        assert forall|i: int| 0 < i < before.len() implies (#[trigger] before[i] - before[i - 1])
            * config.fps >= 1_000_000_000 by {
            assert(before[i] == stamps[i] && before[i - 1] == stamps[i - 1]);
        }
        assert(gap * fps >= 1_000_000_000);
        assert(gap > 0) by (nonlinear_arith)
            requires
                gap * fps >= 1_000_000_000,
                fps > 0,
        ;
        lemma_spaced_stamps_increase(before, config.fps);
        let (d, earlier) = (stamps[n] - stamps[0], stamps[n - 1] - stamps[0]);
        assert(before.last() == stamps[n - 1] && before[0] == stamps[0]);
        assert(d * fps == earlier * fps + gap * fps) by (nonlinear_arith)
            requires
                d == earlier + gap,
        ;
        spaced_frames_play_as_they_were_captured(config, before, before.len() - 1);
        if k < n {
            spaced_frames_play_as_they_were_captured(config, before, k);
            assert(pts_of(e, stamps)[k] == pts_of(e, before)[k]);
        } else {
            lemma_ticks(d, fps);
            let last = pts_of(e, before).last();
            assert(pts_of(e, before)[before.len() - 1] == last);
            assert(after_frames(e, before).first_ts == Some(stamps[0]));
            assert(d * fps / 1_000_000_000 > last);
        }
    }
}

proof fn lemma_spaced_stamps_increase(stamps: Seq<u64>, fps: u32)
    requires
        fps > 0,
        stamps.len() > 0,
        forall|i: int|
            0 < i < stamps.len() ==> (#[trigger] stamps[i] - stamps[i - 1]) * fps >= 1_000_000_000,
    ensures
        stamps[0] <= stamps.last(),
    decreases stamps.len(),
{
    if stamps.len() > 1 {
        let before = stamps.drop_last();
        assert forall|i: int| 0 < i < before.len() implies (#[trigger] before[i] - before[i - 1])
            * fps >= 1_000_000_000 by {
            assert(before[i] == stamps[i] && before[i - 1] == stamps[i - 1]);
        }
        lemma_spaced_stamps_increase(before, fps);
        let gap = stamps[stamps.len() - 1] - stamps[stamps.len() - 2];
        assert(gap > 0) by (nonlinear_arith)
            requires
                gap * fps >= 1_000_000_000,
                fps > 0,
        ;
    }
}

/// An encoder is opened for the size and the frame rate of its configuration, with no frame yet.
pub proof fn an_encoder_is_opened_as_configured(config: EncoderConfig)
    ensures
        H264EncoderBackend::opened(config).width == config.width,
        H264EncoderBackend::opened(config).height == config.height,
        config.fps > 0 ==> H264EncoderBackend::opened(config).fps == config.fps,
        config.fps == 0 ==> H264EncoderBackend::opened(config).fps == 1,
        H264EncoderBackend::opened(config).first_ts is None,
        H264EncoderBackend::opened(config).last_pts is None,
{
}

/// The encoder service beside the codec: its configuration and its counters.
#[derive(Debug, Clone)]
pub struct EncoderService {
    pub config: EncoderConfig,
    pub telemetry: EncoderTelemetry,
}

/// What the encoder service does after a frame.
#[derive(Debug, Clone)]
pub struct EncodeOutcome {
    /// A packet for the muxer.
    pub packet: Option<EncodedPacket>,
    /// An event to broadcast.
    pub event: Option<TelemetryEvent>,
}

/// What the encoder does next once it has been woken.
#[derive(Debug)]
pub enum EncoderStep {
    /// Encode this frame, and ask again.
    Encode(CaptureFrame),
    /// Wait to be woken.
    Wait,
}

/// What a step leaves of the frames in the buffer: it takes the oldest, and waits only where
/// there is none.
pub open spec fn takes(items: Seq<CaptureFrame>, step: EncoderStep, after: Seq<CaptureFrame>) -> bool {
    match step {
        EncoderStep::Encode(frame) => items.len() > 0 && frame == items[0] && after
            == items.drop_first(),
        EncoderStep::Wait => items.len() == 0 && after.len() == 0,
    }
}

/// One wake drains the buffer: where nothing is pushed meanwhile, every frame that was in it is
/// encoded, in order, before the encoder waits again. `states` are the frames in the buffer
/// before each step and after the last.
pub proof fn a_wake_encodes_every_buffered_frame(
    states: Seq<Seq<CaptureFrame>>,
    frames: Seq<CaptureFrame>,
)
    requires
        states.len() == frames.len() + 1,
        forall|k: int|
            0 <= k < frames.len() ==> takes(
                #[trigger] states[k],
                EncoderStep::Encode(frames[k]),
                states[k + 1],
            ),
        takes(states.last(), EncoderStep::Wait, states.last()),
    ensures
        frames == states[0],
    decreases frames.len(),
{
    if frames.len() == 0 {
        assert(frames =~= states[0]);
    } else {
        let later = states.drop_first();
        let rest = frames.drop_first();
        assert forall|k: int| 0 <= k < rest.len() implies takes(
            #[trigger] later[k],
            EncoderStep::Encode(rest[k]),
            later[k + 1],
        ) by {
            assert(later[k] == states[k + 1]);
        }
        assert(later.last() == states.last());
        a_wake_encodes_every_buffered_frame(later, rest);
        assert(takes(states[0], EncoderStep::Encode(frames[0]), states[1]));
        assert(frames =~= states[0]) by {
            assert(rest == states[0].drop_first());
            assert forall|i: int| 0 < i < frames.len() implies frames[i] == states[0][i] by {
                assert(frames[i] == rest[i - 1]);
            }
        }
    }
}

impl EncoderService {
    /// What is done next: the oldest frame in the buffer is encoded; only an empty buffer lets the
    /// encoder wait. Several pushes can share one wake, so it asks until it is told to wait.
    pub fn next(&self, buf: &mut DropOldestBuffer<CaptureFrame>) -> (r: EncoderStep)
        requires
            old(buf).wf(),
        ensures
            final(buf).wf(),
            final(buf).limit() == old(buf).limit(),
            final(buf).dropped() == old(buf).dropped(),
            takes(old(buf).items(), r, final(buf).items()),
    {
        match buf.pop() {
            Some(frame) => EncoderStep::Encode(frame),
            None => EncoderStep::Wait,
        }
    }

    pub fn new(config: EncoderConfig) -> (r: Self)
        ensures
            r.config == config,
            r.telemetry == (EncoderTelemetry {
                packets_encoded: 0,
                frames_encoded: 0,
                avg_encode_time_ms: 0,
            }),
    {
        EncoderService { config, telemetry: EncoderTelemetry::default() }
    }

    /// What becomes of the service when the codec has taken a frame, and what follows.
    pub open spec fn encoded(
        self,
        encoded: Result<Option<EncodedPacket>, EncoderError>,
        latency_ms: u64,
        after: EncoderService,
        outcome: EncodeOutcome,
    ) -> bool {
        &&& after.config == self.config
        &&& match encoded {
            Ok(Some(packet)) => {
                &&& outcome.packet == Some(packet)
                &&& outcome.event is None
                &&& after.telemetry == (EncoderTelemetry {
                    frames_encoded: (self.telemetry.frames_encoded + 1) as u64,
                    packets_encoded: (self.telemetry.packets_encoded + 1) as u64,
                    avg_encode_time_ms: latency_ms,
                })
            },
            Ok(None) => {
                &&& outcome.packet is None
                &&& outcome.event is None
                &&& after.telemetry == (EncoderTelemetry {
                    frames_encoded: (self.telemetry.frames_encoded + 1) as u64,
                    ..self.telemetry
                })
            },
            Err(e) => {
                &&& outcome.packet is None
                &&& outcome.event matches Some(TelemetryEvent::ErrorOccurred { message })
                    && message@ == "Encode error: "@ + e.shown()
                &&& after.telemetry == self.telemetry
            },
        }
    }

    /// Takes what the codec made of one frame in `latency_ms` whole milliseconds. A packet
    /// goes to the muxer; a frame that the codec holds back is counted; an error is reported
    /// and the frame skipped.
    pub fn on_encoded(
        &mut self,
        encoded: Result<Option<EncodedPacket>, EncoderError>,
        latency_ms: u64,
    ) -> (outcome: EncodeOutcome)
        requires
            old(self).telemetry.frames_encoded < u64::MAX,
            old(self).telemetry.packets_encoded < u64::MAX,
        ensures
            old(self).encoded(encoded, latency_ms, *final(self), outcome),
    {
        match encoded {
            Ok(Some(packet)) => {
                self.telemetry.frames_encoded = self.telemetry.frames_encoded + 1;
                self.telemetry.packets_encoded = self.telemetry.packets_encoded + 1;
                self.telemetry.avg_encode_time_ms = latency_ms;
                EncodeOutcome { packet: Some(packet), event: None }
            },
            Ok(None) => {
                self.telemetry.frames_encoded = self.telemetry.frames_encoded + 1;
                EncodeOutcome { packet: None, event: None }
            },
            Err(e) => {
                let message = String::from_str("Encode error: ").concat(e.message().as_str());
                EncodeOutcome {
                    packet: None,
                    event: Some(TelemetryEvent::ErrorOccurred { message }),
                }
            },
        }
    }
}

/// How many of these results are no error.
pub open spec fn successes(results: Seq<Result<Option<EncodedPacket>, EncoderError>>) -> int
    decreases results.len(),
{
    if results.len() == 0 {
        0
    } else {
        successes(results.drop_last()) + (if results.last() is Ok {
            1int
        } else {
            0
        })
    }
}

/// The packets among these results, in order.
pub open spec fn packets_in(results: Seq<Result<Option<EncodedPacket>, EncoderError>>) -> Seq<
    EncodedPacket,
>
    decreases results.len(),
{
    if results.len() == 0 {
        Seq::empty()
    } else {
        match results.last() {
            Ok(Some(packet)) => packets_in(results.drop_last()).push(packet),
            _ => packets_in(results.drop_last()),
        }
    }
}

/// The packets that these outcomes hand to the muxer, in order.
pub open spec fn packets_out(outcomes: Seq<EncodeOutcome>) -> Seq<EncodedPacket>
    decreases outcomes.len(),
{
    if outcomes.len() == 0 {
        Seq::empty()
    } else {
        match outcomes.last().packet {
            Some(packet) => packets_out(outcomes.drop_last()).push(packet),
            None => packets_out(outcomes.drop_last()),
        }
    }
}

/// Whatever the codec answers, frame by frame: every packet reaches the muxer, in order and
/// unchanged, and nothing else does; an event comes with each error and with nothing else; the
/// counters say how many frames the codec took and how many packets it gave. `states` are the
/// service before each frame and after the last.
pub proof fn every_packet_reaches_the_muxer(
    states: Seq<EncoderService>,
    results: Seq<Result<Option<EncodedPacket>, EncoderError>>,
    latencies: Seq<u64>,
    outcomes: Seq<EncodeOutcome>,
)
    requires
        states.len() == results.len() + 1,
        latencies.len() == results.len(),
        outcomes.len() == results.len(),
        states[0].telemetry.frames_encoded + results.len() <= u64::MAX,
        states[0].telemetry.packets_encoded + results.len() <= u64::MAX,
        forall|k: int|
            0 <= k < results.len() ==> (#[trigger] states[k]).encoded(
                results[k],
                latencies[k],
                states[k + 1],
                outcomes[k],
            ),
    ensures
        packets_out(outcomes) == packets_in(results),
        states.last().telemetry.frames_encoded == states[0].telemetry.frames_encoded + successes(
            results,
        ),
        states.last().telemetry.packets_encoded == states[0].telemetry.packets_encoded + packets_in(
            results,
        ).len(),
        0 <= successes(results) <= results.len(),
        packets_in(results).len() <= results.len(),
        states.last().config == states[0].config,
        forall|k: int|
            0 <= k < results.len() ==> ((#[trigger] outcomes[k]).event is Some) == (results[k]
                is Err),
    decreases results.len(),
{
    if results.len() > 0 {
        let n = results.len() - 1;
        let earlier = states.drop_last();
        assert forall|k: int| 0 <= k < n implies (#[trigger] earlier[k]).encoded(
            results.drop_last()[k],
            latencies.drop_last()[k],
            earlier[k + 1],
            outcomes.drop_last()[k],
        ) by {
            assert(states[k].encoded(results[k], latencies[k], states[k + 1], outcomes[k]));
        }
        every_packet_reaches_the_muxer(
            earlier,
            results.drop_last(),
            latencies.drop_last(),
            outcomes.drop_last(),
        );
        assert(states[n].encoded(results[n], latencies[n], states[n + 1], outcomes[n]));
        assert forall|k: int| 0 <= k < results.len() implies ((#[trigger] outcomes[k]).event is Some)
            == (results[k] is Err) by {
            if k < n {
                assert(outcomes.drop_last()[k] == outcomes[k]);
            }
        }
    }
}

/// The time of the last packet is the one that is shown.
pub proof fn the_last_packets_time_is_shown(
    s: EncoderService,
    encoded: Result<Option<EncodedPacket>, EncoderError>,
    latency_ms: u64,
    after: EncoderService,
    outcome: EncodeOutcome,
)
    requires
        s.encoded(encoded, latency_ms, after, outcome),
    ensures
        outcome.packet is Some ==> after.telemetry.avg_encode_time_ms == latency_ms,
        outcome.packet is None ==> after.telemetry.avg_encode_time_ms
            == s.telemetry.avg_encode_time_ms,
{
}

} // verus!
