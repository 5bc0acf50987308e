//! Cropping the record space. Every pixel of the test frames stores its own coordinates, so
//! that a block of the right size from the wrong place is noticed.
use bsr::capture::{copy_rows, crop_frame, frame_from_plane, CaptureFrame, FrameFormat};
use bsr::config::CaptureRegion;

fn coordinate_frame(w: u32, h: u32) -> CaptureFrame {
    let mut data = vec![0u8; (w * h * 4) as usize];
    for y in 0..h as usize {
        for x in 0..w as usize {
            let i = (y * w as usize + x) * 4;
            data[i] = (x % 251) as u8;
            data[i + 1] = (y % 251) as u8;
            data[i + 2] = 0x40;
            data[i + 3] = 0xFF;
        }
    }
    CaptureFrame { data, timestamp: 7, width: w, height: h, format: FrameFormat::Bgra8 }
}

fn px(frame: &CaptureFrame, x: u32, y: u32) -> (u8, u8) {
    let i = ((y * frame.width + x) * 4) as usize;
    (frame.data[i], frame.data[i + 1])
}

fn region(x1: i32, y1: i32, x2: i32, y2: i32) -> CaptureRegion {
    CaptureRegion { x1, y1, x2, y2 }
}

#[test]
fn crop_takes_the_pixels_it_was_asked_for() {
    let frame = coordinate_frame(1920, 1080);
    let out = crop_frame(&frame, &region(100, 50, 900, 650));

    assert_eq!((out.width, out.height), (800, 600));
    assert_eq!(out.data.len(), 800 * 600 * 4, "buffer must match the new dimensions");

    assert_eq!(px(&out, 0, 0), ((100 % 251) as u8, (50 % 251) as u8));
    assert_eq!(px(&out, 799, 599), (((100 + 799) % 251) as u8, ((50 + 599) % 251) as u8));
    // A row in the middle: the source stride is 1920, that of the crop 800.
    assert_eq!(px(&out, 400, 300), (((100 + 400) % 251) as u8, ((50 + 300) % 251) as u8));
}

#[test]
fn cropping_all_four_corners_in_gives_the_middle() {
    let frame = coordinate_frame(1920, 1080);
    let out = crop_frame(&frame, &region(200, 200, 1720, 880));
    assert_eq!((out.width, out.height), (1520, 680));
    assert_eq!(px(&out, 0, 0), ((200 % 251) as u8, (200 % 251) as u8));
}

#[test]
fn frame_metadata_survives_the_crop() {
    let frame = coordinate_frame(640, 480);
    let out = crop_frame(&frame, &region(0, 0, 320, 240));
    assert_eq!(out.timestamp, frame.timestamp, "timestamp must be preserved");
    assert_eq!(out.format, frame.format, "pixel format must be preserved");
}

/// A region that resolves to nothing records too much rather than nothing at all.
#[test]
fn unusable_regions_fall_back_to_the_whole_frame() {
    let frame = coordinate_frame(640, 480);
    for (name, r) in [
        ("entirely off-screen", region(5000, 5000, 6000, 6000)),
        ("zero area", region(10, 10, 10, 10)),
        ("sub-pixel", region(10, 10, 11, 11)),
    ] {
        let out = crop_frame(&frame, &r);
        assert_eq!((out.width, out.height), (640, 480), "{name} should be a no-op");
        assert_eq!(out.data.len(), frame.data.len(), "{name}");
    }
}

#[test]
fn oversized_region_is_clamped_rather_than_overrunning_the_buffer() {
    let frame = coordinate_frame(640, 480);
    let out = crop_frame(&frame, &region(-1000, -1000, 9000, 9000));
    assert_eq!((out.width, out.height), (640, 480));
    assert_eq!(px(&out, 0, 0), (0, 0));
}

#[test]
fn a_frame_smaller_than_it_claims_is_not_cropped() {
    let mut frame = coordinate_frame(640, 480);
    frame.data.truncate(1000);
    let out = crop_frame(&frame, &region(0, 0, 320, 240));
    assert_eq!((out.width, out.height), (640, 480), "must refuse rather than overrun");
}

#[test]
fn every_crop_is_even_sized_so_h264_can_encode_it() {
    let frame = coordinate_frame(1920, 1080);
    for (x1, y1, x2, y2) in [(0, 0, 801, 601), (3, 7, 1001, 903), (1, 1, 1919, 1079)] {
        let out = crop_frame(&frame, &region(x1, y1, x2, y2));
        assert_eq!(out.width % 2, 0, "width {} is odd for {:?}", out.width, (x1, y1, x2, y2));
        assert_eq!(out.height % 2, 0, "height {} is odd", out.height);
        assert_eq!(out.data.len(), (out.width * out.height * 4) as usize);
    }
}

#[test]
fn a_crop_of_the_whole_frame_is_the_frame() {
    let frame = coordinate_frame(16, 8);
    let out = crop_frame(&frame, &region(0, 0, 16, 8));
    assert_eq!((out.width, out.height), (16, 8));
    assert_eq!(out.data, frame.data);
}

#[test]
fn rows_are_copied_from_their_strides() {
    let src: Vec<u8> = (0..24).collect();
    assert_eq!(copy_rows(&src, 2, 8, 3, 3), vec![2, 3, 4, 10, 11, 12, 18, 19, 20]);
}

#[test]
fn a_padded_plane_becomes_a_packed_frame() {
    // Two rows of one pixel, eight bytes apart.
    let src = [1u8, 2, 3, 4, 9, 9, 9, 9, 5, 6, 7, 8, 9, 9, 9, 9];
    let frame = frame_from_plane(&src, 8, 1, 2, 55).unwrap();
    assert_eq!(frame.data, vec![1, 2, 3, 4, 5, 6, 7, 8]);
    assert_eq!((frame.width, frame.height, frame.timestamp), (1, 2, 55));
    assert_eq!(frame.format, FrameFormat::Bgra8);
}

#[test]
fn a_plane_that_is_too_small_is_refused() {
    let src = [0u8; 7];
    assert_eq!(
        frame_from_plane(&src, 4, 1, 2, 0).unwrap_err(),
        "buffer is 7 bytes, short of row 1 at offset 8"
    );
    assert_eq!(
        frame_from_plane(&src, 3, 1, 1, 0).unwrap_err(),
        "stride 3 shorter than a 4-byte row"
    );
    assert_eq!(frame_from_plane(&src, 4, 0, 1, 0).unwrap_err(), "degenerate frame size 0x1");
    assert!(frame_from_plane(&src, 8, 1, 1, 0).is_ok(), "the padding of the last row may be missing");
}

#[test]
fn a_crop_of_a_crop_adds_the_corners_up() {
    let frame = coordinate_frame(64, 48);
    let between = crop_frame(&frame, &region(10, 6, 50, 40));
    let out = crop_frame(&between, &region(4, 8, 20, 24));
    assert_eq!((out.width, out.height), (16, 16));
    assert_eq!(px(&out, 0, 0), (14, 14));
    assert_eq!(px(&out, 15, 15), (29, 29));
}
