//! Captured frames: cropping, row packing, and the service that feeds the encoder.
use vstd::prelude::*;
use vstd::string::*;

use vstd::arithmetic::div_mod::lemma_fundamental_div_mod_converse;

use crate::buffer::{newest, DropOldestBuffer};
use crate::config::{resolved_region_lies_inside_the_frame, CaptureRegion};
use crate::ipc::TelemetryEvent;
use crate::text::{dec, decimal, decimal_wide};

verus! {

/// What went wrong while capturing.
#[derive(Debug, Clone, PartialEq, Eq)]
pub enum CaptureError {
    InitializationFailed(String),
    FrameAcquisitionFailed(String),
    UnsupportedFormat(String),
    Shutdown(String),
}

impl CaptureError {
    /// The text that is shown for the error.
    pub open spec fn shown(self) -> Seq<char> {
        match self {
            CaptureError::InitializationFailed(msg) => "Init failed: "@ + msg@,
            CaptureError::FrameAcquisitionFailed(msg) => "Frame acquisition failed: "@ + msg@,
            CaptureError::UnsupportedFormat(msg) => "Unsupported format: "@ + msg@,
            CaptureError::Shutdown(msg) => "Shutdown: "@ + msg@,
        }
    }

    /// The text that is shown for the error.
    pub fn message(&self) -> (r: String)
        ensures
            r@ == self.shown(),
    {
        match self {
            CaptureError::InitializationFailed(msg) => String::from_str("Init failed: ").concat(
                msg.as_str(),
            ),
            CaptureError::FrameAcquisitionFailed(msg) => String::from_str(
                "Frame acquisition failed: ",
            ).concat(msg.as_str()),
            CaptureError::UnsupportedFormat(msg) => String::from_str("Unsupported format: ").concat(
                msg.as_str(),
            ),
            CaptureError::Shutdown(msg) => String::from_str("Shutdown: ").concat(msg.as_str()),
        }
    }
}

#[derive(Debug, Clone, Copy, PartialEq, Eq, Structural)]
pub enum FrameFormat {
    Bgra8,
    Rgba8,
}

/// One captured frame: four bytes per pixel, row after row.
#[derive(Debug, PartialEq, Eq)]
pub struct CaptureFrame {
    pub data: Vec<u8>,
    /// Nanoseconds since the epoch.
    pub timestamp: u64,
    pub width: u32,
    pub height: u32,
    pub format: FrameFormat,
}

impl CaptureFrame {
    /// Two frames show the same picture at the same time.
    pub open spec fn same(self, other: CaptureFrame) -> bool {
        &&& self.data@ == other.data@
        &&& self.timestamp == other.timestamp
        &&& self.width == other.width
        &&& self.height == other.height
        &&& self.format == other.format
    }
}

impl Clone for CaptureFrame {
    fn clone(&self) -> (r: Self)
        ensures
            r.same(*self),
    {
        CaptureFrame {
            data: vstd::slice::slice_to_vec(self.data.as_slice()),
            timestamp: self.timestamp,
            width: self.width,
            height: self.height,
            format: self.format,
        }
    }
}

/// The bytes of `rows` rows, `row` bytes from each: row `k` starts in `src` at
/// `offset + k * stride`.
pub open spec fn strided(src: Seq<u8>, offset: int, stride: int, row: int, rows: int) -> Seq<u8> {
    Seq::new((row * rows) as nat, |i: int| src[offset + (i / row) * stride + i % row])
}

proof fn lemma_row_and_column(row: int, k: int, b: int)
    requires
        0 <= b < row,
        0 <= k,
    ensures
        (k * row + b) / row == k,
        (k * row + b) % row == b,
        k * row + row == (k + 1) * row,
{
    assert(k * row + b == row * k + b && k * row + row == (k + 1) * row) by (nonlinear_arith);
    lemma_fundamental_div_mod_converse(k * row + b, row, k, b);
}

/// Byte `b` of copied row `k` is the one that lies `b` behind the start of that row.
pub proof fn copied_rows_come_from_their_starts(
    src: Seq<u8>,
    offset: int,
    stride: int,
    row: int,
    rows: int,
    k: int,
    b: int,
)
    requires
        0 <= k < rows,
        0 <= b < row,
    ensures
        strided(src, offset, stride, row, rows).len() == row * rows,
        strided(src, offset, stride, row, rows)[k * row + b] == src[offset + k * stride + b],
{
    lemma_row_and_column(row, k, b);
    assert((k + 1) * row <= row * rows) by (nonlinear_arith)
        requires
            0 <= k < rows,
            0 <= row,
    ;
    assert(0 <= k * row) by (nonlinear_arith)
        requires
            0 <= k,
            0 <= row,
    ;
}

/// Copies `row` bytes from each of `rows` rows that lie `stride` bytes apart.
pub fn copy_rows(src: &[u8], offset: usize, stride: usize, row: usize, rows: usize) -> (r: Vec<u8>)
    requires
        rows > 0 ==> offset + (rows - 1) * stride + row <= src@.len(),
        row <= stride,
    ensures
        r@ == strided(src@, offset as int, stride as int, row as int, rows as int),
{
    let n: usize = src.len();
    let mut r: Vec<u8> = Vec::new();
    let mut k: usize = 0;
    let mut start: usize = offset;
    assert(0 * row == 0 && 0 * stride == 0) by (nonlinear_arith);
    while k < rows
        invariant
            n == src@.len(),
            rows > 0 ==> offset + (rows - 1) * stride + row <= n,
            row <= stride,
            k <= rows,
            k < rows ==> start == offset + k * stride,
            r@.len() == k * row,
            forall|i: int|
                0 <= i < r@.len() ==> #[trigger] r@[i] == src@[offset + (i / row as int) * stride + i
                    % row as int],
        decreases rows - k,
    {
        assert(k * stride <= (rows - 1) * stride) by (nonlinear_arith)
            requires
                0 <= k <= rows - 1,
        ;
        let mut b: usize = 0;
        while b < row
            invariant
                b <= row,
                k < rows,
                start == offset + k * stride,
                start + row <= n == src@.len(),
                r@.len() == k * row + b,
                forall|i: int|
                    0 <= i < r@.len() ==> #[trigger] r@[i] == src@[offset + (i / row as int) * stride
                        + i % row as int],
            decreases row - b,
        {
            proof {
                lemma_row_and_column(row as int, k as int, b as int);
            }
            r.push(src[start + b]);
            b = b + 1;
        }
        assert(k * row + row == (k + 1) * row && k * stride + stride == (k + 1) * stride)
            by (nonlinear_arith);
        if k + 1 < rows {
            assert((k + 1) * stride <= (rows - 1) * stride) by (nonlinear_arith)
                requires
                    k + 1 <= rows - 1,
            ;
            start = start + stride;
        }
        k = k + 1;
    }
    assert(rows * row == row * rows) by (nonlinear_arith);
    assert(r@ =~= strided(src@, offset as int, stride as int, row as int, rows as int));
    r
}

#[derive(Debug, Clone, Copy, PartialEq, Eq, Structural)]
pub enum DropPolicy {
    DropNewest,
    DropOldest,
}

/// What to capture.
#[derive(Debug, Clone)]
pub struct CaptureConfig {
    pub width: u32,
    pub height: u32,
    pub fps: u32,
    pub drop_policy: DropPolicy,
    /// Capacity of the buffer between capture and encoder.
    pub buffer_capacity: usize,
    /// Record only part of the screen. `None` records all of it.
    pub region: Option<CaptureRegion>,
}

impl CaptureConfig {
    pub fn default_buffer_capacity() -> (r: usize)
        ensures
            r == 8,
    {
        8
    }
}

impl Default for CaptureConfig {
    fn default() -> (r: Self)
        ensures
            r == (CaptureConfig {
                width: 1920,
                height: 1080,
                fps: 30,
                drop_policy: DropPolicy::DropNewest,
                buffer_capacity: 8,
                region: None,
            }),
    {
        CaptureConfig {
            width: 1920,
            height: 1080,
            fps: 30,
            drop_policy: DropPolicy::DropNewest,
            buffer_capacity: CaptureConfig::default_buffer_capacity(),
            region: None,
        }
    }
}

/// The rectangle that a crop takes out of a frame, if it takes one: the resolved region,
/// unless that is the whole frame or the frame carries fewer bytes than its size calls for.
pub open spec fn crop_rect(frame: CaptureFrame, region: CaptureRegion) -> Option<
    (u32, u32, u32, u32),
> {
    match region.resolved(frame.width, frame.height) {
        Some(rect) => if rect == (0u32, 0u32, frame.width, frame.height) || frame.data@.len()
            < frame.width * 4 * frame.height {
            None
        } else {
            Some(rect)
        },
        None => None,
    }
}

/// `out` is `frame` cropped to `region`; it is the frame itself where there is nothing to crop.
pub open spec fn is_crop(out: CaptureFrame, frame: CaptureFrame, region: CaptureRegion) -> bool {
    match crop_rect(frame, region) {
        None => out.same(frame),
        Some((x, y, w, h)) => {
            &&& out.width == w
            &&& out.height == h
            &&& out.timestamp == frame.timestamp
            &&& out.format == frame.format
            &&& out.data@ == strided(
                frame.data@,
                y * (frame.width * 4) + x * 4,
                frame.width * 4,
                w * 4,
                h as int,
            )
        },
    }
}

proof fn lemma_rect_fits(x: int, y: int, w: int, h: int, fw: int, fh: int, len: int)
    requires
        0 <= x,
        0 <= y,
        2 <= w,
        2 <= h,
        x + w <= fw,
        y + h <= fh,
        fw * 4 * fh <= len,
    ensures
        y * (fw * 4) + x * 4 + (h - 1) * (fw * 4) + w * 4 <= len,
        y * (fw * 4) <= len,
        fw * 4 <= len,
{
    assert(y * (fw * 4) + x * 4 + (h - 1) * (fw * 4) + w * 4 <= (y + h) * (fw * 4))
        by (nonlinear_arith)
        requires
            x + w <= fw,
    ;
    assert((y + h) * (fw * 4) <= fw * 4 * fh) by (nonlinear_arith)
        requires
            0 <= y + h <= fh,
            0 <= fw,
    ;
    assert((h - 1) * (fw * 4) >= fw * 4) by (nonlinear_arith)
        requires
            h >= 2,
            fw >= 0,
    ;
    assert(y * (fw * 4) >= 0) by (nonlinear_arith)
        requires
            0 <= y,
            0 <= fw,
    ;
}

/// Copies a rectangle out of a frame.
///
/// The region is resolved against the frame first. One that resolves to nothing leaves the
/// frame as it is: recording too much beats recording nothing.
pub fn crop_frame(frame: &CaptureFrame, region: &CaptureRegion) -> (out: CaptureFrame)
    ensures
        is_crop(out, *frame, *region),
{
    proof {
        reveal(CaptureRegion::resolved);
    }
    let (x, y, w, h) = match region.resolve(frame.width, frame.height) {
        Some(rect) => rect,
        None => {
            return frame.clone();
        },
    };
    if x == 0 && y == 0 && w == frame.width && h == frame.height {
        return frame.clone();
    }
    assert(frame.width * 4 * frame.height <= u32::MAX * 4 * u32::MAX) by (nonlinear_arith)
        requires
            frame.width <= u32::MAX,
            frame.height <= u32::MAX,
    ;
    let needed: u128 = frame.width as u128 * 4 * frame.height as u128;
    if (frame.data.len() as u128) < needed {
        return frame.clone();
    }
    proof {
        lemma_rect_fits(
            x as int,
            y as int,
            w as int,
            h as int,
            frame.width as int,
            frame.height as int,
            frame.data@.len() as int,
        );
    }
    let stride: usize = frame.width as usize * 4;
    let offset: usize = y as usize * stride + x as usize * 4;
    let data = copy_rows(frame.data.as_slice(), offset, stride, w as usize * 4, h as usize);
    CaptureFrame { data, timestamp: frame.timestamp, width: w, height: h, format: frame.format }
}

/// Every pixel of a crop comes from its own place in the frame, channel by channel.
pub proof fn cropped_pixels_come_from_their_place(
    out: CaptureFrame,
    frame: CaptureFrame,
    region: CaptureRegion,
    px: int,
    py: int,
    channel: int,
)
    requires
        is_crop(out, frame, region),
        0 <= px < out.width,
        0 <= py < out.height,
        0 <= channel < 4,
    ensures
        crop_rect(frame, region) matches Some((x, y, w, h)) ==> {
            &&& out.data@.len() == w * h * 4
            &&& out.data@[(py * w + px) * 4 + channel] == frame.data@[((y + py) * frame.width + x
                + px) * 4 + channel]
        },
{
    if let Some((x, y, w, h)) = crop_rect(frame, region) {
        let row = w * 4;
        let b = px * 4 + channel;
        assert((py * w + px) * 4 + channel == py * row + b) by (nonlinear_arith)
            requires
                row == w * 4,
                b == px * 4 + channel,
        ;
        lemma_row_and_column(row, py, b);
        assert(w * 4 * h == w * h * 4) by (nonlinear_arith);
        assert((py + 1) * row <= row * h) by (nonlinear_arith)
            requires
                0 <= py < h,
                0 <= row,
        ;
        assert(0 <= py * row) by (nonlinear_arith)
            requires
                0 <= py,
                0 <= row,
        ;
        assert(y * (frame.width * 4) + x * 4 + py * (frame.width * 4) + b == ((y + py)
            * frame.width + x + px) * 4 + channel) by (nonlinear_arith)
            requires
                b == px * 4 + channel,
        ;
    }
}

/// A crop is cut out of the frame at the corners of the region: its pixel `(px, py)` is the pixel
/// of the frame that lies `px` to the right of the left corner and `py` below the upper one, where
/// a corner outside the frame counts as the nearest point of it. The size is what lies between the
/// corners, less one where that is odd; where it is less than two either way, the frame stays
/// whole. Time and format stay.
pub proof fn a_crop_is_cut_at_the_corners(
    out: CaptureFrame,
    frame: CaptureFrame,
    region: CaptureRegion,
    px: int,
    py: int,
    channel: int,
)
    requires
        is_crop(out, frame, region),
        frame.data@.len() >= frame.width * 4 * frame.height,
    ensures
        ({
            let (fw, fh) = (frame.width as int, frame.height as int);
            let (x1, x2) = (region.x1 as int, region.x2 as int);
            let (y1, y2) = (region.y1 as int, region.y2 as int);
            let (l, r) = if x1 <= x2 { (x1, x2) } else { (x2, x1) };
            let (t, b) = if y1 <= y2 { (y1, y2) } else { (y2, y1) };
            let left = if l < 0 { 0 } else if l > fw { fw } else { l };
            let right = if r < 0 { 0 } else if r > fw { fw } else { r };
            let top = if t < 0 { 0 } else if t > fh { fh } else { t };
            let bottom = if b < 0 { 0 } else if b > fh { fh } else { b };
            let w = if (right - left) % 2 == 0 { right - left } else { right - left - 1 };
            let h = if (bottom - top) % 2 == 0 { bottom - top } else { bottom - top - 1 };
            &&& out.timestamp == frame.timestamp && out.format == frame.format
            &&& if w >= 2 && h >= 2 {
                &&& out.width == w && out.height == h
                &&& out.data@.len() >= w * h * 4
                &&& out.data@.len() == w * h * 4 || out.data@ == frame.data@
                &&& 0 <= px < w && 0 <= py < h && 0 <= channel < 4 ==> out.data@[(py * w + px) * 4
                    + channel] == frame.data@[((top + py) * fw + left + px) * 4 + channel]
            } else {
                out.width == fw && out.height == fh && out.data@ == frame.data@
            }
        }),
{
    reveal(CaptureRegion::resolved);
    assert(frame.width * 4 * frame.height == frame.width * frame.height * 4) by (nonlinear_arith);
    if let Some((x, y, w, h)) = crop_rect(frame, region) {
        assert(w * 4 * h == w * h * 4) by (nonlinear_arith);
        assert(out.data@.len() == w * h * 4) by {
            assert(0 <= w * 4 * h) by (nonlinear_arith)
                requires
                    0 <= w,
                    0 <= h,
            ;
        }
        if 0 <= px < w && 0 <= py < h && 0 <= channel < 4 {
            cropped_pixels_come_from_their_place(out, frame, region, px, py, channel);
        }
    }
}

/// A frame with fewer bytes than its size calls for is passed on as it is.
pub proof fn a_short_frame_is_not_cropped(
    out: CaptureFrame,
    frame: CaptureFrame,
    region: CaptureRegion,
)
    requires
        is_crop(out, frame, region),
        frame.data@.len() < frame.width * 4 * frame.height,
    ensures
        out.data@ == frame.data@,
        out.width == frame.width && out.height == frame.height,
        out.timestamp == frame.timestamp && out.format == frame.format,
{
}

/// Where no region is set a tick records the frame as it was captured; else it records the crop.
/// Either way that frame is the newest in the buffer, behind the frames that were there, of which
/// a full buffer gives up the oldest; what is captured and what is lost is counted.
pub proof fn a_tick_records_the_newest_frame(
    service: CaptureService,
    frame: CaptureFrame,
    now: u64,
    items: Seq<CaptureFrame>,
    limit: nat,
    after: CaptureService,
    items_after: Seq<CaptureFrame>,
    outcome: CaptureOutcome,
)
    requires
        0 < limit,
        items.len() <= limit,
        service.ticked(Ok(frame), now, items, limit, after, items_after, outcome),
    ensures
        items_after.len() == (if items.len() < limit { items.len() + 1 } else { limit }),
        forall|i: int|
            0 <= i < items_after.len() - 1 ==> #[trigger] items_after[i] == items[if items.len()
                < limit {
                i
            } else {
                i + 1
            }],
        service.config.region matches Some(region) ==> is_crop(items_after.last(), frame, region),
        service.config.region is None ==> items_after.last() == frame,
        after.telemetry.frames_captured == service.telemetry.frames_captured + 1,
        items.len() < limit ==> after.telemetry.frames_dropped == service.telemetry.frames_dropped,
        items.len() == limit ==> after.telemetry.frames_dropped == service.telemetry.frames_dropped
            + 1,
        (outcome.event is Some) == (items.len() == limit),
        outcome.preview matches Some(copy) ==> copy.same(items_after.last()),
        outcome.wake_encoder,
{
}

/// A capture that fails costs one frame and changes nothing else.
pub proof fn a_failed_capture_is_counted(
    service: CaptureService,
    error: CaptureError,
    now: u64,
    items: Seq<CaptureFrame>,
    limit: nat,
    after: CaptureService,
    items_after: Seq<CaptureFrame>,
    outcome: CaptureOutcome,
)
    requires
        service.ticked(Err(error), now, items, limit, after, items_after, outcome),
    ensures
        items_after == items,
        after.telemetry.frames_captured == service.telemetry.frames_captured,
        after.telemetry.frames_dropped == service.telemetry.frames_dropped + 1,
        after.last_preview == service.last_preview,
        after.config == service.config && after.preview == service.preview,
        outcome.preview is None && outcome.event is None && !outcome.wake_encoder,
{
}

/// The preview gets its first frame at once and each further one as soon as the interval has
/// passed since the last, not before; without a preview there is none.
pub proof fn previews_keep_their_interval(
    service: CaptureService,
    frame: CaptureFrame,
    now: u64,
    items: Seq<CaptureFrame>,
    limit: nat,
    after: CaptureService,
    items_after: Seq<CaptureFrame>,
    outcome: CaptureOutcome,
)
    requires
        service.ticked(Ok(frame), now, items, limit, after, items_after, outcome),
    ensures
        service.preview is None ==> outcome.preview is None,
        service.preview is Some && service.last_preview is None ==> outcome.preview is Some,
        service.preview matches Some(interval) ==> (service.last_preview matches Some(last) ==> {
            &&& last <= now ==> ((outcome.preview is Some) <==> last + interval <= now)
            &&& now < last ==> ((outcome.preview is Some) <==> interval == 0)
        }),
        outcome.preview is Some ==> after.last_preview == Some(now),
        outcome.preview is None ==> after.last_preview == service.last_preview,
        after.config == service.config && after.preview == service.preview,
{
}

/// The size of a crop is even and fits into the frame, whatever the region, unless the frame
/// is passed on as it is.
pub proof fn a_crop_has_the_resolved_size(
    out: CaptureFrame,
    frame: CaptureFrame,
    region: CaptureRegion,
)
    requires
        is_crop(out, frame, region),
        frame.data@.len() >= frame.width * 4 * frame.height,
    ensures
        match region.resolved(frame.width, frame.height) {
            Some((x, y, w, h)) => out.width == w && out.height == h && w % 2 == 0 && h % 2 == 0
                && w <= frame.width && h <= frame.height,
            None => out.width == frame.width && out.height == frame.height,
        },
{
    reveal(CaptureRegion::resolved);
}

/// A crop of a crop takes its pixels from where the two corners add up to.
pub proof fn crops_add_up(
    out: CaptureFrame,
    between: CaptureFrame,
    frame: CaptureFrame,
    outer: CaptureRegion,
    inner: CaptureRegion,
    px: int,
    py: int,
    channel: int,
)
    requires
        is_crop(between, frame, outer),
        is_crop(out, between, inner),
        0 <= px < out.width,
        0 <= py < out.height,
        0 <= channel < 4,
    ensures
        match (crop_rect(frame, outer), crop_rect(between, inner)) {
            (Some((x, y, _, _)), Some((dx, dy, w, h))) => {
                &&& out.data@.len() == w * h * 4
                &&& out.data@[(py * w + px) * 4 + channel] == frame.data@[((y + dy + py)
                    * frame.width + x + dx + px) * 4 + channel]
            },
            _ => true,
        },
{
    if let (Some((x, y, _, _)), Some((dx, dy, w, h))) = (
        crop_rect(frame, outer),
        crop_rect(between, inner),
    ) {
        resolved_region_lies_inside_the_frame(inner, between.width, between.height);
        cropped_pixels_come_from_their_place(out, between, inner, px, py, channel);
        cropped_pixels_come_from_their_place(between, frame, outer, dx + px, dy + py, channel);
        assert((dy + py) * between.width + dx + px == (dy + py) * between.width + (dx + px));
        assert((y + (dy + py)) * frame.width + x + (dx + px) == (y + dy + py) * frame.width + x + dx
            + px);
    }
}

/// Why a plane of pixels cannot be packed.
pub open spec fn plane_fault(len: nat, stride: nat, w: nat, h: nat) -> Option<Seq<char>> {
    if w == 0 || h == 0 {
        Some("degenerate frame size "@ + dec(w) + "x"@ + dec(h))
    } else if stride < w * 4 {
        Some("stride "@ + dec(stride) + " shorter than a "@ + dec(w * 4) + "-byte row"@)
    } else if (h - 1) * stride + w * 4 > len {
        let y = first_short_row(len, stride, w * 4, 0, h);
        Some(
            "buffer is "@ + dec(len) + " bytes, short of row "@ + dec(y) + " at offset "@ + dec(
                y * stride + w * 4,
            ),
        )
    } else {
        None
    }
}

/// The first row at or behind `from` that reaches beyond `len` bytes, below `h`.
pub open spec fn first_short_row(len: nat, stride: nat, row: nat, from: nat, h: nat) -> nat
    decreases h - from,
{
    if from >= h || from * stride + row > len {
        from
    } else {
        first_short_row(len, stride, row, from + 1, h)
    }
}

/// The row that a plane is said to be short of is the first that does not lie in it whole.
pub proof fn the_first_short_row_is_told(len: nat, stride: nat, row: nat, h: nat, k: int)
    requires
        h > 0,
        (h - 1) * stride + row > len,
        0 <= k < h,
    ensures
        ({
            let y = first_short_row(len, stride, row, 0, h);
            &&& y < h && y * stride + row > len
            &&& k < y ==> k * stride + row <= len
        }),
{
    lemma_first_short_row(len, stride, row, 0, h, k);
}

proof fn lemma_first_short_row(len: nat, stride: nat, row: nat, from: nat, h: nat, k: int)
    requires
        from < h,
        (h - 1) * stride + row > len,
    ensures
        ({
            let y = first_short_row(len, stride, row, from, h);
            &&& from <= y < h && y * stride + row > len
            &&& from <= k < y ==> k * stride + row <= len
        }),
    decreases h - from,
{
    if from * stride + row <= len {
        if from + 1 < h {
            lemma_first_short_row(len, stride, row, from + 1, h, k);
        } else {
            assert(from == h - 1);
        }
    }
}

/// What becomes of a plane: a packed frame, or what is wrong with it.
pub open spec fn packed(
    src: Seq<u8>,
    stride: nat,
    width: u32,
    height: u32,
    timestamp: u64,
    r: Result<CaptureFrame, String>,
) -> bool {
    match r {
        Ok(frame) => {
            &&& plane_fault(src.len(), stride, width as nat, height as nat) is None
            &&& frame.data@ == strided(src, 0, stride as int, width * 4, height as int)
            &&& frame.timestamp == timestamp
            &&& frame.width == width
            &&& frame.height == height
            &&& frame.format == FrameFormat::Bgra8
        },
        Err(e) => plane_fault(src.len(), stride, width as nat, height as nat) == Some(e@),
    }
}

/// A plane is packed exactly where it has pixels and holds every row whole, and then every byte
/// of every pixel comes from its own row: the padding behind the rows is left out.
pub proof fn a_packed_plane_keeps_every_pixel(
    src: Seq<u8>,
    stride: nat,
    width: u32,
    height: u32,
    timestamp: u64,
    r: Result<CaptureFrame, String>,
    px: int,
    py: int,
    channel: int,
)
    requires
        packed(src, stride, width, height, timestamp, r),
    ensures
        r is Ok <==> width > 0 && height > 0 && width * 4 <= stride && (height - 1) * stride + width
            * 4 <= src.len(),
        r matches Ok(frame) ==> {
            &&& frame.width == width && frame.height == height
            &&& frame.timestamp == timestamp && frame.format == FrameFormat::Bgra8
            &&& frame.data@.len() == width * height * 4
            &&& 0 <= px < width && 0 <= py < height && 0 <= channel < 4 ==> frame.data@[(py * width
                + px) * 4 + channel] == src[py * stride + px * 4 + channel]
        },
{
    if let Ok(frame) = r {
        let row = width * 4;
        assert(row * height == width * height * 4) by (nonlinear_arith)
            requires
                row == width * 4,
        ;
        assert(0 <= width * height) by (nonlinear_arith)
            requires
                0 <= width,
                0 <= height,
        ;
        if 0 <= px < width && 0 <= py < height && 0 <= channel < 4 {
            let b = px * 4 + channel;
            assert((py * width + px) * 4 + channel == py * row + b) by (nonlinear_arith)
                requires
                    row == width * 4,
                    b == px * 4 + channel,
            ;
            lemma_row_and_column(row, py, b);
            assert((py + 1) * row <= row * height) by (nonlinear_arith)
                requires
                    0 <= py < height,
                    0 <= row,
            ;
            assert(0 <= py * row) by (nonlinear_arith)
                requires
                    0 <= py,
                    0 <= row,
            ;
        }
    }
}

/// Copies a plane with padded rows into a tightly packed BGRA frame.
///
/// Rows are padded to the stride of the source, which is not necessarily `width * 4`.
pub fn frame_from_plane(src: &[u8], stride: usize, width: u32, height: u32, timestamp: u64) -> (r:
    Result<CaptureFrame, String>)
    ensures
        packed(src@, stride as nat, width, height, timestamp, r),
{
    if width == 0 || height == 0 {
        let mut e = String::from_str("degenerate frame size ");
        e.append(decimal(width as u64).as_str());
        e.append("x");
        e.append(decimal(height as u64).as_str());
        return Err(e);
    }
    let row: u64 = width as u64 * 4;
    if (stride as u64) < row {
        let mut e = String::from_str("stride ");
        e.append(decimal(stride as u64).as_str());
        e.append(" shorter than a ");
        e.append(decimal(row).as_str());
        e.append("-byte row");
        return Err(e);
    }
    let mut y: u32 = 0;
    let mut end: u128 = row as u128;
    let ghost len = src@.len();
    assert(0 * stride == 0) by (nonlinear_arith);
    while y < height
        invariant
            y <= height,
            height > 0,
            width > 0,
            len == src@.len(),
            row == width as nat * 4,
            row <= stride,
            end == y * stride + row,
            y > 0 ==> (y - 1) * stride + row <= len,
            first_short_row(len, stride as nat, row as nat, y as nat, height as nat)
                == first_short_row(len, stride as nat, row as nat, 0, height as nat),
        decreases height - y,
    {
        if end > src.len() as u128 {
            assert((height - 1) * stride >= y * stride) by (nonlinear_arith)
                requires
                    y <= height - 1,
            ;
            let mut e = String::from_str("buffer is ");
            e.append(decimal(src.len() as u64).as_str());
            e.append(" bytes, short of row ");
            e.append(decimal(y as u64).as_str());
            e.append(" at offset ");
            e.append(decimal_wide(end).as_str());
            assert(plane_fault(len, stride as nat, width as nat, height as nat) == Some(e@));
            return Err(e);
        }
        assert(y * stride + stride == (y + 1) * stride) by (nonlinear_arith);
        end = end + stride as u128;
        y = y + 1;
    }
    let data = copy_rows(src, 0, stride, row as usize, height as usize);
    Ok(CaptureFrame { data, timestamp, width, height, format: FrameFormat::Bgra8 })
}

/// Counts of what was captured and what was lost.
#[derive(Debug, Clone, Copy, PartialEq, Eq, Structural)]
pub struct CaptureTelemetry {
    pub frames_captured: u64,
    pub frames_dropped: u64,
}

impl Default for CaptureTelemetry {
    fn default() -> (r: Self)
        ensures
            r == (CaptureTelemetry { frames_captured: 0, frames_dropped: 0 }),
    {
        CaptureTelemetry { frames_captured: 0, frames_dropped: 0 }
    }
}

/// The capture loop between two waits: what it counts and when the preview is due.
///
/// The preview gets copies of its own. It never takes a frame from the encoder's buffer.
#[derive(Debug, Clone)]
pub struct CaptureService {
    pub config: CaptureConfig,
    pub telemetry: CaptureTelemetry,
    /// The least time between two preview frames in nanoseconds, where there is a preview.
    pub preview: Option<u64>,
    /// When the preview got its last frame, in nanoseconds on the monotonic clock.
    pub last_preview: Option<u64>,
}

/// A source of frames. One that cannot see the screen refuses to start; none makes a picture up.
pub trait CaptureBackend {
    fn initialize(&mut self) -> Result<(), CaptureError>;

    fn capture_frame(&mut self) -> Result<CaptureFrame, CaptureError>;

    fn shutdown(&mut self) -> Result<(), CaptureError>;
}

/// What the capture loop does after a tick.
#[derive(Debug)]
pub struct CaptureOutcome {
    /// A frame for the preview.
    pub preview: Option<CaptureFrame>,
    /// An event to broadcast.
    pub event: Option<TelemetryEvent>,
    /// Wake the encoder.
    pub wake_encoder: bool,
}

impl CaptureService {
    pub fn new(config: CaptureConfig) -> (r: Self)
        ensures
            r == (CaptureService {
                config,
                telemetry: CaptureTelemetry { frames_captured: 0, frames_dropped: 0 },
                preview: None,
                last_preview: None,
            }),
    {
        CaptureService {
            config,
            telemetry: CaptureTelemetry::default(),
            preview: None,
            last_preview: None,
        }
    }

    /// Sends a copy of each captured frame to a preview, at most once per `min_interval`
    /// nanoseconds.
    pub fn with_preview(self, min_interval: u64) -> (r: Self)
        ensures
            r == (CaptureService { preview: Some(min_interval), ..self }),
    {
        let mut r = self;
        r.preview = Some(min_interval);
        r
    }

    /// Is a preview frame due at `now`?
    pub open spec fn preview_due(self, now: u64) -> bool {
        match (self.preview, self.last_preview) {
            (None, _) => false,
            (Some(_), None) => true,
            (Some(interval), Some(last)) => (if now >= last {
                now - last
            } else {
                0
            }) >= interval,
        }
    }

    /// `out` is the captured frame as it is recorded: cropped where a region is set.
    pub open spec fn records(self, out: CaptureFrame, frame: CaptureFrame) -> bool {
        match self.config.region {
            Some(region) => is_crop(out, frame, region),
            None => out == frame,
        }
    }

    /// What a tick does: to the service, to the frames in a buffer with room for `limit`, and
    /// outside. A frame goes into the buffer whether or not the preview gets a copy; a failed
    /// capture is counted and nothing else happens.
    pub open spec fn ticked(
        self,
        captured: Result<CaptureFrame, CaptureError>,
        now: u64,
        items: Seq<CaptureFrame>,
        limit: nat,
        after: CaptureService,
        items_after: Seq<CaptureFrame>,
        outcome: CaptureOutcome,
    ) -> bool {
        let counts = self.telemetry;
        &&& after.config == self.config
        &&& after.preview == self.preview
        &&& match captured {
            Err(_) => {
                &&& items_after == items
                &&& after.telemetry.frames_captured == counts.frames_captured
                &&& after.telemetry.frames_dropped == counts.frames_dropped + 1
                &&& after.last_preview == self.last_preview
                &&& outcome.preview is None
                &&& outcome.event is None
                &&& !outcome.wake_encoder
            },
            Ok(frame) => {
                let full = items.len() == limit;
                &&& exists|out: CaptureFrame|
                    #![trigger self.records(out, frame)]
                    {
                        &&& self.records(out, frame)
                        &&& items_after == newest(items.push(out), limit)
                        &&& (outcome.preview matches Some(copy) ==> copy.same(out))
                    }
                &&& (outcome.preview is Some) == self.preview_due(now)
                &&& after.last_preview == (if self.preview_due(now) {
                    Some(now)
                } else {
                    self.last_preview
                })
                &&& after.telemetry.frames_captured == counts.frames_captured + 1
                &&& after.telemetry.frames_dropped == counts.frames_dropped + (if full {
                    1int
                } else {
                    0
                })
                &&& (outcome.event is Some) == full
                &&& outcome.wake_encoder
            },
        }
    }

    /// Takes what the backend delivered at a tick: crops the frame, hands a copy to the
    /// preview when one is due, and pushes the frame into the encoder's buffer. A failed
    /// capture is counted and nothing else happens.
    pub fn on_tick(
        &mut self,
        captured: Result<CaptureFrame, CaptureError>,
        now: u64,
        buf: &mut DropOldestBuffer<CaptureFrame>,
    ) -> (outcome: CaptureOutcome)
        requires
            old(buf).wf(),
            old(buf).dropped() < u64::MAX,
            old(self).telemetry.frames_captured < u64::MAX,
            old(self).telemetry.frames_dropped < u64::MAX,
        ensures
            final(buf).wf(),
            final(buf).limit() == old(buf).limit(),
            old(self).ticked(
                captured,
                now,
                old(buf).items(),
                old(buf).limit(),
                *final(self),
                final(buf).items(),
                outcome,
            ),
            final(buf).dropped() == old(buf).dropped() + (if captured is Ok && old(
                buf,
            ).items().len() == old(buf).limit() {
                1nat
            } else {
                0
            }),
            outcome.event matches Some(e) ==> (e matches TelemetryEvent::ErrorOccurred { message }
                && message@ == "Frame dropped by ring buffer (total: "@ + dec(final(buf).dropped())
                + ")"@),
    {
        match captured {
            Err(_) => {
                self.telemetry.frames_dropped = self.telemetry.frames_dropped + 1;
                CaptureOutcome { preview: None, event: None, wake_encoder: false }
            },
            Ok(frame) => {
                let out = match &self.config.region {
                    Some(region) => crop_frame(&frame, region),
                    None => frame,
                };
                assert(old(self).records(out, frame));
                self.telemetry.frames_captured = self.telemetry.frames_captured + 1;
                let due = match (self.preview, self.last_preview) {
                    (Some(interval), Some(last)) => (if now >= last {
                        now - last
                    } else {
                        0
                    }) >= interval,
                    (Some(_), None) => true,
                    (None, _) => false,
                };
                let preview = if due {
                    self.last_preview = Some(now);
                    Some(out.clone())
                } else {
                    None
                };
                let dropped = buf.push(out);
                let event = if dropped {
                    self.telemetry.frames_dropped = self.telemetry.frames_dropped + 1;
                    let mut message = String::from_str("Frame dropped by ring buffer (total: ");
                    message.append(decimal(buf.dropped_count()).as_str());
                    message.append(")");
                    Some(TelemetryEvent::ErrorOccurred { message })
                } else {
                    None
                };
                CaptureOutcome { preview, event, wake_encoder: true }
            },
        }
    }
}

impl CaptureService {
    /// One tick of a capture loop that owns its buffer: asks the backend for a frame, and takes
    /// what it delivers. A loop that shares the buffer with the encoder captures first and calls
    /// `on_tick`, so that the buffer is not held during a capture.
    pub fn tick<B: CaptureBackend>(
        &mut self,
        backend: &mut B,
        now: u64,
        buf: &mut DropOldestBuffer<CaptureFrame>,
    ) -> (outcome: CaptureOutcome)
        requires
            old(buf).wf(),
            old(buf).dropped() < u64::MAX,
            old(self).telemetry.frames_captured < u64::MAX,
            old(self).telemetry.frames_dropped < u64::MAX,
        ensures
            final(buf).wf(),
            final(buf).limit() == old(buf).limit(),
            exists|captured: Result<CaptureFrame, CaptureError>| #[trigger]
                old(self).ticked(
                    captured,
                    now,
                    old(buf).items(),
                    old(buf).limit(),
                    *final(self),
                    final(buf).items(),
                    outcome,
                ),
            final(buf).dropped() == old(buf).dropped() + (if outcome.event is Some {
                1nat
            } else {
                0
            }),
            outcome.event matches Some(e) ==> (e matches TelemetryEvent::ErrorOccurred { message }
                && message@ == "Frame dropped by ring buffer (total: "@ + dec(final(buf).dropped())
                + ")"@),
    {
        let captured = backend.capture_frame();
        self.on_tick(captured, now, buf)
    }
}

/// A preview takes no frames from the recording: what is in the buffer after a frame is the same
/// with a preview as without one, picture by picture.
pub proof fn a_preview_takes_no_frames(
    with: CaptureService,
    without: CaptureService,
    frame: CaptureFrame,
    now: u64,
    items: Seq<CaptureFrame>,
    limit: nat,
    with_after: CaptureService,
    with_items: Seq<CaptureFrame>,
    with_outcome: CaptureOutcome,
    without_after: CaptureService,
    without_items: Seq<CaptureFrame>,
    without_outcome: CaptureOutcome,
)
    requires
        with.config == without.config,
        without.preview is None,
        with.ticked(Ok(frame), now, items, limit, with_after, with_items, with_outcome),
        without.ticked(
            Ok(frame),
            now,
            items,
            limit,
            without_after,
            without_items,
            without_outcome,
        ),
    ensures
        with_items.len() == without_items.len(),
        forall|i: int| 0 <= i < with_items.len() ==> (#[trigger] with_items[i]).same(without_items[i]),
        with_outcome.wake_encoder == without_outcome.wake_encoder,
        without_outcome.preview is None,
{
}

} // verus!
