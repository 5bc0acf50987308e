//! The preview: captured frames, scaled down, in the channel order that the window paints.
use vstd::prelude::*;
use vstd::string::*;

use crate::capture::CaptureFrame;
use crate::text::{dec, decimal};

verus! {

/// A picture for the window: four bytes per pixel, red, green, blue and alpha.
#[derive(Debug, Clone, PartialEq, Eq)]
pub struct PreviewImage {
    pub width: u32,
    pub height: u32,
    pub data: Vec<u8>,
}

/// The byte that stands at `i` once red and blue have changed places.
pub open spec fn swapped(data: Seq<u8>, i: int) -> u8 {
    if i % 4 == 0 {
        data[i + 2]
    } else if i % 4 == 2 {
        data[i - 2]
    } else {
        data[i]
    }
}

/// The first `pixels` pixels with red and blue exchanged.
pub open spec fn rgba(data: Seq<u8>, pixels: nat) -> Seq<u8> {
    Seq::new(pixels * 4, |i: int| swapped(data, i))
}

/// Exchanges red and blue in the first `pixels` pixels.
pub fn bgra_to_rgba(data: &Vec<u8>, pixels: usize) -> (r: Vec<u8>)
    requires
        pixels * 4 <= data@.len(),
    ensures
        r@ == rgba(data@, pixels as nat),
{
    let n: usize = data.len();
    let mut r: Vec<u8> = Vec::new();
    let mut p: usize = 0;
    while p < pixels
        invariant
            p <= pixels,
            pixels * 4 <= n == data@.len(),
            r@.len() == p * 4,
            forall|i: int| 0 <= i < r@.len() ==> #[trigger] r@[i] == swapped(data@, i),
        decreases pixels - p,
    {
        let i: usize = p * 4;
        r.push(data[i + 2]);
        r.push(data[i + 1]);
        r.push(data[i]);
        r.push(data[i + 3]);
        p = p + 1;
    }
    assert(r@ =~= rgba(data@, pixels as nat));
    r
}

/// Below this size a picture can be scaled to any other such size.
///
/// `image` places its filter in single precision. Below this size rounding moves the filter so
/// little that some pixel always gets weight. Above it the weights of a pixel at the edge can all
/// be zero, and the scaling panics on their quotient: so it does from 8388610 to 8390002.
pub const SCALE_LIMIT: u32 = 0x80_0000;

/// Up to this size a picture of any size can be scaled down: rounding then moves the filter by
/// less than its own width.
pub const SHRINK_LIMIT: u32 = 0x20_0000;

/// The filter gives weight to some pixel wherever it is placed.
pub open spec fn samples(from: u32, to: u32) -> bool {
    to <= SHRINK_LIMIT || (from < SCALE_LIMIT && to < SCALE_LIMIT)
}

/// A picture of this size can be scaled to that size: it is the same size, or the filter gives
/// weight both ways and a buffer can hold what lies between and what comes out.
pub open spec fn can_scale(w: u32, h: u32, tw: u32, th: u32) -> bool {
    (w == tw && h == th) || {
        &&& samples(w, tw) && samples(h, th)
        &&& w * th * 16 <= isize::MAX && tw * th * 4 <= isize::MAX
    }
}

/// An RGBA picture of `w` by `h` pixels scaled to `tw` by `th` with a triangle filter.
pub uninterp spec fn scaled_rgba(data: Seq<u8>, w: u32, h: u32, tw: u32, th: u32) -> Seq<u8>;

/// `image::imageops::resize` on an RGBA picture, with the triangle filter. The result depends
/// on the picture and the two sizes alone and has four bytes for each pixel of the new size.
/// There are sizes on which it panics; those that `can_scale` admits are not among them.
#[verifier::external_body]
pub(crate) fn resize_rgba(data: Vec<u8>, w: u32, h: u32, tw: u32, th: u32) -> (r: Option<Vec<u8>>)
    requires
        0 < w && 0 < h && 0 < tw && 0 < th,
        can_scale(w, h, tw, th),
    ensures
        r is Some <==> data@.len() >= w * h * 4,
        r matches Some(d) ==> d@.len() == tw * th * 4,
        r matches Some(d) ==> data@.len() == w * h * 4 ==> d@ == scaled_rgba(data@, w, h, tw, th),
{
    let img = image::ImageBuffer::<image::Rgba<u8>, _>::from_raw(w, h, data)?;
    let view = image::DynamicImage::ImageRgba8(img);
    Some(image::imageops::resize(&view, tw, th, image::imageops::FilterType::Triangle).into_raw())
}

/// `n`, and at least one.
pub open spec fn positive(n: u32) -> u32 {
    if n == 0 {
        1
    } else {
        n
    }
}

fn at_least_one(n: u32) -> (r: u32)
    ensures
        r == positive(n),
{
    if n == 0 {
        1
    } else {
        n
    }
}

/// Can a frame of this size be scaled to a preview of that size, at least one pixel each way?
pub fn scales(w: u32, h: u32, target_w: u32, target_h: u32) -> (r: bool)
    ensures
        r == can_scale(w, h, positive(target_w), positive(target_h)),
{
    let tw: u32 = at_least_one(target_w);
    let th: u32 = at_least_one(target_h);
    if w == tw && h == th {
        return true;
    }
    let across = tw <= SHRINK_LIMIT || (w < SCALE_LIMIT && tw < SCALE_LIMIT);
    let down = th <= SHRINK_LIMIT || (h < SCALE_LIMIT && th < SCALE_LIMIT);
    assert(w * th <= u32::MAX * u32::MAX && tw * th <= u32::MAX * u32::MAX) by (nonlinear_arith)
        requires
            0 <= w <= u32::MAX,
            0 <= tw <= u32::MAX,
            0 <= th <= u32::MAX,
    ;
    let most: u128 = isize::MAX as u128;
    across && down && w as u128 * th as u128 * 16 <= most && tw as u128 * th as u128 * 4 <= most
}

/// The frame has pixels, and bytes for all of them.
pub open spec fn has_picture(frame: CaptureFrame) -> bool {
    frame.width > 0 && frame.height > 0 && frame.data@.len() >= frame.width * frame.height * 4
}

/// Converts a captured BGRA frame into a preview of `target_w` by `target_h` pixels, each at
/// least one. `None` if the frame has no pixels or fewer bytes than its size calls for.
pub fn frame_to_preview(frame: &CaptureFrame, target_w: u32, target_h: u32) -> (r: Option<
    PreviewImage,
>)
    requires
        has_picture(*frame) ==> can_scale(
            frame.width,
            frame.height,
            positive(target_w),
            positive(target_h),
        ),
    ensures
        r is Some <==> has_picture(*frame),
        r matches Some(p) ==> {
            &&& p.width == positive(target_w)
            &&& p.height == positive(target_h)
            &&& p.data@.len() == p.width * p.height * 4
            &&& p.data@ == scaled_rgba(
                rgba(frame.data@, (frame.width * frame.height) as nat),
                frame.width,
                frame.height,
                p.width,
                p.height,
            )
        },
{
    if frame.width == 0 || frame.height == 0 {
        return None;
    }
    assert(0 < frame.width * frame.height <= u32::MAX * u32::MAX) by (nonlinear_arith)
        requires
            0 < frame.width <= u32::MAX,
            0 < frame.height <= u32::MAX,
    ;
    let pixels: u128 = frame.width as u128 * frame.height as u128;
    if (frame.data.len() as u128) < pixels * 4 {
        return None;
    }
    let rgba_data = bgra_to_rgba(&frame.data, pixels as usize);
    let width: u32 = at_least_one(target_w);
    let height: u32 = at_least_one(target_h);
    match resize_rgba(rgba_data, frame.width, frame.height, width, height) {
        Some(data) => Some(PreviewImage { width, height, data }),
        None => None,
    }
}

/// Can the picture be painted? It has a size and bytes.
pub fn is_paintable(img: &PreviewImage) -> (r: bool)
    ensures
        r == (img.width > 0 && img.height > 0 && img.data@.len() > 0),
{
    img.width > 0 && img.height > 0 && img.data.len() > 0
}

/// The text beside the pointer: a point of the screen.
pub fn point_text(x: u32, y: u32) -> (r: String)
    ensures
        r@ == dec(x as nat) + ", "@ + dec(y as nat),
{
    let mut r = decimal(x as u64);
    r.append(", ");
    r.append(decimal(y as u64).as_str());
    r
}

/// Red and blue change places in every pixel, green and alpha stay, and changing twice changes
/// nothing.
pub proof fn red_and_blue_change_places(data: Seq<u8>, pixels: nat, p: int)
    requires
        0 <= p < pixels,
        pixels * 4 <= data.len(),
    ensures
        ({
            let out = rgba(data, pixels);
            &&& out.len() == pixels * 4
            &&& out[4 * p] == data[4 * p + 2]
            &&& out[4 * p + 1] == data[4 * p + 1]
            &&& out[4 * p + 2] == data[4 * p]
            &&& out[4 * p + 3] == data[4 * p + 3]
        }),
        rgba(rgba(data, pixels), pixels) == data.take((pixels * 4) as int),
{
    let out = rgba(data, pixels);
    assert((4 * p) % 4 == 0 && (4 * p + 1) % 4 == 1 && (4 * p + 2) % 4 == 2 && (4 * p + 3) % 4
        == 3);
    assert forall|i: int| 0 <= i < pixels * 4 implies rgba(out, pixels)[i] == data[i] by {
        if i % 4 == 0 {
            assert((i + 2) % 4 == 2 && i + 2 < pixels * 4);
        } else if i % 4 == 2 {
            assert((i - 2) % 4 == 0 && i - 2 >= 0);
        }
    }
    assert(rgba(out, pixels) =~= data.take((pixels * 4) as int));
}

/// A frame can be scaled wherever it stays as it is, and wherever the target is at most 2097152
/// pixels or both sizes are below 8388608, each way, if what lies between fits into memory.
pub proof fn what_can_be_scaled(w: u32, h: u32, tw: u32, th: u32)
    ensures
        can_scale(w, h, w, h),
        tw <= 2_097_152 && th <= 2_097_152 && w * th * 16 <= isize::MAX && tw * th * 4 <= isize::MAX
            ==> can_scale(w, h, tw, th),
        w < 8_388_608 && h < 8_388_608 && tw < 8_388_608 && th < 8_388_608 && w * th * 16
            <= isize::MAX && tw * th * 4 <= isize::MAX ==> can_scale(w, h, tw, th),
        can_scale(w, h, tw, th) && !(w == tw && h == th) ==> {
            &&& tw < 8_388_608 && th < 8_388_608
            &&& w >= 8_388_608 ==> tw <= 2_097_152
            &&& h >= 8_388_608 ==> th <= 2_097_152
            &&& w * th * 16 <= isize::MAX && tw * th * 4 <= isize::MAX
        },
{
}

} // verus!
