use bsr::buffer::DropOldestBuffer;
use bsr::capture::{CaptureFrame, FrameFormat};
use bsr::encode::{
    bracketed_list, copy_packed_into_plane, EncodedPacket, EncoderBackend, EncoderConfig, EncoderError,
    EncoderService, EncoderStep, H264EncoderBackend, MockEncoderBackend,
};
use bsr::ipc::TelemetryEvent;

fn config(width: u32, height: u32, fps: u32) -> EncoderConfig {
    EncoderConfig {
        codec: "h264".to_string(),
        preset: "ultrafast".to_string(),
        bitrate_kbps: 2000,
        width,
        height,
        fps,
    }
}

fn frame(width: u32, height: u32, timestamp: u64) -> CaptureFrame {
    CaptureFrame {
        data: vec![0u8; width as usize * height as usize * 4],
        timestamp,
        width,
        height,
        format: FrameFormat::Bgra8,
    }
}

#[test]
fn packed_rows_land_on_stride_boundaries_not_packed_ones() {
    // 3 rows of 5 bytes packed, into a plane with 8-byte rows.
    let src: Vec<u8> = vec![1, 1, 1, 1, 1,
                            2, 2, 2, 2, 2,
                            3, 3, 3, 3, 3];
    let mut dst = vec![0u8; 8 * 3];
    copy_packed_into_plane(&mut dst, 8, &src, 5, 3).unwrap();

    assert_eq!(&dst[0..5],   &[1, 1, 1, 1, 1], "row 0 misplaced");
    assert_eq!(&dst[8..13],  &[2, 2, 2, 2, 2], "row 1 misplaced -- this is the shear");
    assert_eq!(&dst[16..21], &[3, 3, 3, 3, 3], "row 2 misplaced -- shear accumulates");

    assert_eq!(&dst[5..8],   &[0, 0, 0], "row 0 padding was written into");
    assert_eq!(&dst[13..16], &[0, 0, 0], "row 1 padding was written into");
}

#[test]
fn a_flat_memcpy_would_shear_an_unaligned_frame() {
    let w = 1842usize;
    let src_stride = w * 4;
    let dst_stride = 7424usize;
    assert_ne!(src_stride, dst_stride, "pick a width that is actually unaligned");

    // A marker in the first byte of each row makes the drift observable.
    let rows = 4usize;
    let mut src = vec![0u8; src_stride * rows];
    for y in 0..rows {
        src[y * src_stride] = 0xFF;
        for x in 1..src_stride {
            src[y * src_stride + x] = y as u8 + 1;
        }
    }

    let mut correct = vec![0u8; dst_stride * rows];
    copy_packed_into_plane(&mut correct, dst_stride, &src, src_stride, rows).unwrap();

    let mut flat = vec![0u8; dst_stride * rows];
    flat[..src.len()].copy_from_slice(&src);

    for y in 0..rows {
        assert_eq!(correct[y * dst_stride], 0xFF, "row {y} must begin at y*dst_stride");
    }
    assert_eq!(flat[0], 0xFF, "row 0 is correct either way -- the drift accumulates");
    for y in 1..rows {
        assert_ne!(flat[y * dst_stride], 0xFF,
            "a flat memcpy must NOT land row {y}'s marker on the boundary");
    }
    assert_ne!(correct, flat, "the two copies must differ, or the test proves nothing");
}

#[test]
fn aligned_width_is_the_case_that_hid_the_bug() {
    let w = 1920usize;
    let stride = w * 4;
    assert_eq!(stride % 64, 0, "1920 BGRA rows are 64-aligned");

    let rows = 3usize;
    let src: Vec<u8> = (0..rows).flat_map(|y| vec![y as u8 + 1; stride]).collect();
    let mut dst = vec![0u8; stride * rows];
    copy_packed_into_plane(&mut dst, stride, &src, stride, rows).unwrap();
    assert_eq!(dst, src, "with equal strides the copy is a straight image");
}

#[test]
fn refuses_a_destination_narrower_than_a_row() {
    let src = vec![0u8; 40];
    let mut dst = vec![0u8; 40];
    let err = copy_packed_into_plane(&mut dst, 4, &src, 8, 5)
        .expect_err("a linesize shorter than a packed row must be refused, not truncated");
    assert!(err.contains("shorter"), "error should name the problem: {err}");
    assert_eq!(err, "destination linesize 4 is shorter than a 8-byte row");
}

#[test]
fn refuses_buffers_that_are_too_small() {
    let mut dst = vec![7u8; 20];
    assert_eq!(
        copy_packed_into_plane(&mut dst, 8, &[1u8; 14], 5, 3).unwrap_err(),
        "source is 14 bytes, need 15 for 3 rows of 5"
    );
    assert_eq!(
        copy_packed_into_plane(&mut dst, 8, &[1u8; 15], 5, 3).unwrap_err(),
        "destination is 20 bytes, too small for 3 rows at stride 8"
    );
    assert_eq!(dst, vec![7u8; 20], "nothing was written");
}

/// Frames arriving at a real 10 fps against a 30 fps config produce timestamps 3 ticks apart
/// (100 ms at a time base of 1/30), not 1 tick.
#[test]
fn h264_pts_follows_capture_time_not_frame_count() {
    let mut backend = H264EncoderBackend::new(&config(320, 240, 30));

    const N: u64 = 12;
    const STEP_NS: u64 = 100_000_000;
    let base = 1_700_000_000_000_000_000u64;

    let mut pts_seen = Vec::new();
    for i in 0..N {
        pts_seen.push(backend.next_pts(base + i * STEP_NS));
    }

    assert!(pts_seen.len() >= 2, "expected at least two packets, got {}", pts_seen.len());

    let gaps: Vec<i64> = pts_seen.windows(2).map(|w| w[1] - w[0]).collect();
    let typical = gaps[gaps.len() / 2];
    assert!(typical >= 2, "pts advance {typical} tick(s) per 100 ms frame; expected ~3");
    assert_eq!(gaps, vec![3; 11]);

    let span = pts_seen.last().unwrap() - pts_seen.first().unwrap();
    let elapsed_ticks = ((N - 1) * STEP_NS * 30 / 1_000_000_000) as i64;
    assert!(span >= elapsed_ticks - 6, "span {span}, elapsed {elapsed_ticks}");
    assert_eq!(span, 33);
}

/// Two frames inside the same tick still advance the timestamp.
#[test]
fn h264_pts_is_strictly_increasing_for_close_frames() {
    let mut backend = H264EncoderBackend::new(&config(320, 240, 30));
    let base = 1_700_000_000_000_000_000u64;
    let mut pts_seen = Vec::new();
    for i in 0..8u64 {
        // 1 ms apart: all well inside one 1/30 s tick.
        pts_seen.push(backend.next_pts(base + i * 1_000_000));
    }
    for w in pts_seen.windows(2) {
        assert!(w[1] > w[0], "pts must strictly increase, got {:?}", pts_seen);
    }
    assert_eq!(pts_seen, [0, 1, 2, 3, 4, 5, 6, 7]);
}

/// A capture clock that steps backwards does not rewind the stream.
#[test]
fn h264_pts_survives_a_backwards_clock() {
    let mut backend = H264EncoderBackend::new(&config(320, 240, 30));
    let base = 1_700_000_000_000_000_000u64;
    let stamps = [
        base,
        base + 100_000_000,
        base + 50_000_000, // clock jumped backwards
        base + 200_000_000,
    ];
    let mut pts_seen = Vec::new();
    for ts in stamps {
        pts_seen.push(backend.next_pts(ts));
    }
    for w in pts_seen.windows(2) {
        assert!(w[1] > w[0], "a backwards capture clock must not rewind pts, got {:?}", pts_seen);
    }
    assert_eq!(pts_seen, [0, 3, 4, 6]);
}

#[test]
fn a_frame_rate_of_zero_counts_as_one() {
    let mut backend = H264EncoderBackend::new(&config(320, 240, 0));
    assert_eq!(backend.next_pts(0), 0);
    assert_eq!(backend.next_pts(5_000_000_000), 5);
}

#[test]
fn a_frame_goes_into_the_plane_of_its_size_only() {
    let backend = H264EncoderBackend::new(&config(2, 2, 30));
    let mut plane = vec![9u8; 24];
    let mut two = frame(2, 2, 0);
    two.data = (1..=16).collect();
    backend.load_frame(&two, &mut plane, 12).unwrap();
    assert_eq!(plane, [1, 2, 3, 4, 5, 6, 7, 8, 9, 9, 9, 9, 9, 10, 11, 12, 13, 14, 15, 16, 9, 9, 9, 9]);

    let err = backend.load_frame(&frame(4, 2, 0), &mut plane, 16).unwrap_err();
    assert_eq!(
        err.message(),
        "Encoding failed: frame is 4x2 but this encoder was opened for 2x2; the capture region \
         and the encoder configuration disagree"
    );
    let err = backend.load_frame(&two, &mut plane, 7).unwrap_err();
    assert_eq!(err.message(), "Encoding failed: destination linesize 7 is shorter than a 8-byte row");
}

#[test]
fn a_packet_carries_what_the_codec_returned() {
    let p = H264EncoderBackend::packet(vec![1, 2], 77, Some(5), None, true);
    assert_eq!(
        p,
        EncodedPacket {
            data: vec![1, 2],
            timestamp: 77,
            pts: 5,
            dts: 0,
            keyframe: true,
            codec: "h264".to_string(),
        }
    );
}

#[test]
fn the_mock_answers_every_frame() {
    let mut backend = MockEncoderBackend::new();
    backend.initialize(&EncoderConfig::default()).unwrap();
    let packet = backend.encode_frame(&frame(4, 4, 123456789)).unwrap().unwrap();
    assert_eq!(packet.codec, "mock");
    assert_eq!(packet.data, vec![0u8; 1024]);
    assert_eq!((packet.pts, packet.timestamp), (123456789, 123456789));
    backend.shutdown().unwrap();
}

#[test]
fn the_service_counts_frames_and_packets() {
    let mut service = EncoderService::new(EncoderConfig::default());
    let packet = H264EncoderBackend::packet(vec![1], 1, Some(0), Some(0), true);
    let out = service.on_encoded(Ok(Some(packet.clone())), 12);
    assert_eq!(out.packet, Some(packet));
    assert!(out.event.is_none());
    let out = service.on_encoded(Ok(None), 3);
    assert!(out.packet.is_none() && out.event.is_none());
    assert_eq!(service.telemetry.frames_encoded, 2);
    assert_eq!(service.telemetry.packets_encoded, 1);
    assert_eq!(service.telemetry.avg_encode_time_ms, 12);
    let out = service.on_encoded(Err(EncoderError::AllocFailed), 3);
    match out.event {
        Some(TelemetryEvent::ErrorOccurred { message }) => {
            assert_eq!(message, "Encode error: Allocation failed in FFmpeg")
        }
        other => panic!("{other:?}"),
    }
    assert_eq!(service.telemetry.frames_encoded, 2);
}

#[test]
fn encoder_service_drains_every_buffered_frame_per_wake() {
    let service = EncoderService::new(config(320, 240, 30));
    let mut frame_buf = DropOldestBuffer::new(32);
    const N: usize = 8;
    for i in 0..N {
        frame_buf.push(CaptureFrame {
            data: vec![(i as u8).wrapping_mul(31); 320 * 240 * 4],
            timestamp: 1_700_000_000_000_000_000u64 + (i as u64) * 33_000_000,
            width: 320,
            height: 240,
            format: FrameFormat::Bgra8,
        });
    }
    let mut encoded = Vec::new();
    while let EncoderStep::Encode(frame) = service.next(&mut frame_buf) {
        encoded.push((frame.data[0], frame.timestamp));
    }
    let left = frame_buf.len();
    assert_eq!(left, 0, "{left} of {N} frames left in the ring buffer after a single wake");
    assert_eq!(encoded.len(), N);
    assert_eq!(encoded[7], (217, 1_700_000_000_231_000_000));
    assert!(encoded.windows(2).all(|w| w[0].1 < w[1].1), "oldest first");
}

#[test]
fn lists_are_bracketed() {
    let list = |items: &[&str]| bracketed_list(&items.iter().map(|s| s.to_string()).collect());
    assert_eq!(list(&[]), "[]");
    assert_eq!(list(&["a"]), "[a]");
    assert_eq!(list(&["a", "b", "c"]), "[a, b, c]");
}

#[test]
fn encoder_errors_say_what_failed() {
    let text = |e: EncoderError| e.message();
    assert_eq!(text(EncoderError::Initialization("a".into())), "Initialization failed: a");
    assert_eq!(text(EncoderError::Encoding("b".into())), "Encoding failed: b");
    assert_eq!(text(EncoderError::UnsupportedFormat("c".into())), "Unsupported format: c");
    assert_eq!(text(EncoderError::Shutdown("d".into())), "Shutdown failed: d");
    assert_eq!(text(EncoderError::CodecNotFound), "Codec not found in FFmpeg registry");
    assert_eq!(
        text(EncoderError::FfmpegNotFound { missing: vec!["avcodec".into(), "x\"y".into()] }),
        "FFmpeg libraries not found: [\"avcodec\", \"x\\\"y\"]"
    );
}
