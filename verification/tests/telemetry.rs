use bsr::capture::DropPolicy;
use bsr::config::CaptureRegion;
use bsr::listener::{
    pipe_name, target_frames, Leftover, LineDocument, LineStep, TelemetryListener,
};
use bsr::redact::{audit_entry, maybe_rotate, redaction_line, sha256_hex, write_redaction_event};
use bsr::smoke::{parse_crop, plan_run, run_outcome, RunEnd, SmokeBridge};
use bsr::telemetry_pipe::{
    ack_envelope, ack_verdict, default_telemetry_log_path, done_envelope, done_envelope_at,
    frame_envelope, frame_envelope_at, judge_ack, telemetry_pipe_path, AckRead, AckVerdict, ClientAction,
    ClientEvent, ClientPhase, FrameInfo, TelemetryClient,
};

fn info(sequence: u64) -> FrameInfo {
    FrameInfo { sequence, width: 1280, height: 720, size_bytes: 1024, timestamp: 123 }
}

fn some(s: &str) -> Option<String> {
    Some(s.to_string())
}

#[test]
fn sha256_hex_known_value() {
    let h = sha256_hex("abc");
    assert_eq!(&h[..8], "ba7816bf", "SHA-256(\"abc\") prefix mismatch: got {}", h);
    assert_eq!(h, "ba7816bf8f01cfea414140de5dae2223b00361a396177a9cb410ff61f20015ad");
}

#[test]
fn write_creates_jsonl_entry() {
    let w = write_redaction_event("SensitiveTitle", "window_title", "/log/audit.jsonl", 10_485_760, None);
    assert!(w.entry.contains("sha256:"), "hash missing from entry");
    assert!(w.entry.contains("\"rule\":\"window_title\""), "rule missing");
    assert!(!w.entry.contains("SensitiveTitle"), "plaintext must not be stored");
    assert!(w.entry.ends_with("\"}\n"));
    assert_eq!(w.directory.as_deref(), Some("/log"));
    assert!(w.rotate_to.is_none());
    assert_eq!(
        redaction_line("abc", "r", "T"),
        "{\"ts\":\"T\",\"original_hash\":\"sha256:ba7816bf8f01cfea414140de5dae2223b00361a396177a9\
         cb410ff61f20015ad\",\"rule\":\"r\"}\n"
    );
}

#[test]
fn rotation_occurs_when_size_met() {
    let max: u64 = 500;
    let path = "redaction_audit.jsonl";
    let mut size: Option<u64> = None;
    let mut rotated = None;
    for _ in 0..10 {
        let w = write_redaction_event("SomeValue", "window_title", path, max, size);
        assert_eq!(w.directory, None);
        if let Some(to) = w.rotate_to {
            assert!(size.unwrap() >= max);
            rotated = Some(to);
            size = None;
        }
        size = Some(size.unwrap_or(0) + w.entry.len() as u64);
    }
    assert_eq!(rotated.as_deref(), Some("redaction_audit.jsonl.1"));
    // Only what was written since the last rotation.
    let fresh_size = size.unwrap_or(0);
    assert!(fresh_size < max, "fresh log should be below threshold");
    assert_eq!(maybe_rotate("a", Some(499), 500), None);
    assert_eq!(maybe_rotate("a", Some(500), 500).as_deref(), Some("a.1"));
    assert_eq!(maybe_rotate("a", None, 0), None);
}

#[test]
fn the_default_telemetry_log_path_is_absolute() {
    let p = default_telemetry_log_path(&None, &None, &some("/home/me"), "/tmp");
    assert_eq!(p, "/home/me/.local/state/bsr/telemetry.log");
    assert!(std::path::Path::new(&p).is_absolute());
    assert!(std::path::Path::new(&p).parent().is_some());
    assert_eq!(
        default_telemetry_log_path(&None, &some("/state"), &some("/home/me"), "/tmp"),
        "/state/bsr/telemetry.log"
    );
    assert_eq!(
        default_telemetry_log_path(&some("  "), &some("state"), &None, "/tmp"),
        "/tmp/bsr/telemetry.log",
        "a relative state directory does not count"
    );
}

#[test]
fn an_explicit_telemetry_log_path_wins() {
    assert_eq!(
        default_telemetry_log_path(&some("/x/chosen.log"), &some("/s"), &some("/h"), "/tmp"),
        "/x/chosen.log"
    );
    assert_eq!(telemetry_pipe_path(&None), r"\\.\pipe\bsr-telemetry");
    assert_eq!(telemetry_pipe_path(&some("p")), "p");
}

#[test]
fn envelopes_are_json_lines() {
    assert_eq!(
        frame_envelope_at(&info(7), "T").unwrap(),
        "{\"event\":{\"data\":{\"height\":720,\"sequence\":7,\"size_bytes\":1024,\"width\":1280},\
         \"event\":\"FrameCaptured\"},\"sequence\":7,\"timestamp\":\"T\"}"
    );
    assert_eq!(
        done_envelope_at(3, "T").unwrap(),
        "{\"event\":{\"data\":{\"frames_sent\":3},\"event\":\"TelemetryDone\"},\"timestamp\":\"T\"}"
    );
    assert_eq!(ack_envelope(), "{\"ack\":\"drain_complete\"}");
}

#[test]
fn the_client_reports_frames_and_says_farewell() {
    let mut client = TelemetryClient::new();
    assert!(matches!(client.on_event(ClientEvent::OpenFailed), ClientAction::RetryOpen));
    assert!(matches!(client.on_event(ClientEvent::Opened), ClientAction::ReceiveFrame));
    match client.on_event(ClientEvent::Frame(info(1))) {
        ClientAction::WriteLine(line) => assert!(line.contains("FrameCaptured")),
        other => panic!("{other:?}"),
    }
    assert!(matches!(client.on_event(ClientEvent::Written), ClientAction::ReceiveFrame));
    match client.on_event(ClientEvent::FramesEnded) {
        ClientAction::WriteLine(line) => assert!(line.contains("\"frames_sent\":1")),
        other => panic!("{other:?}"),
    }
    assert!(matches!(client.on_event(ClientEvent::Written), ClientAction::AwaitAck));
    let ack = AckRead::Line(ack_envelope() + "\n");
    match client.on_event(ClientEvent::Ack(ack)) {
        ClientAction::Close(v) => assert_eq!(v, AckVerdict::DrainComplete),
        other => panic!("{other:?}"),
    }
    assert_eq!(client.phase, ClientPhase::Finished);
}

#[test]
fn a_broken_pipe_is_opened_again() {
    let mut client = TelemetryClient::new();
    client.on_event(ClientEvent::Opened);
    client.on_event(ClientEvent::Frame(info(1)));
    let again = client.on_event(ClientEvent::WriteFailed { frames_ended: false });
    assert!(matches!(again, ClientAction::Open));
    assert_eq!(client.phase, ClientPhase::Connecting);
    client.on_event(ClientEvent::Opened);
    client.on_event(ClientEvent::FramesEnded);
    assert!(matches!(
        client.on_event(ClientEvent::WriteFailed { frames_ended: true }),
        ClientAction::Exit
    ));
}

#[test]
fn every_answer_to_the_farewell_is_judged() {
    assert_eq!(ack_verdict(&AckRead::Closed), AckVerdict::Closed);
    assert_eq!(ack_verdict(&AckRead::Failed), AckVerdict::Failed);
    assert_eq!(ack_verdict(&AckRead::TimedOut), AckVerdict::TimedOut);
    let line = |s: &str| ack_verdict(&AckRead::Line(s.to_string()));
    assert_eq!(line(" {\"ack\": \"drain_complete\"} \r\n"), AckVerdict::DrainComplete);
    assert_eq!(line("{\"ack\":\"later\"}"), AckVerdict::Unexpected);
    assert_eq!(line("{\"nack\":1}"), AckVerdict::Unexpected);
    assert_eq!(line("drain_complete"), AckVerdict::Unparsable);
}

#[test]
fn the_listener_counts_frames_and_gaps() {
    let mut l = TelemetryListener::new(4);
    for seq in [1u64, 2, 5] {
        l.feed(&frame_envelope(&info(seq)).unwrap());
        assert!(l.next_line().is_none(), "the line is not complete");
        l.feed("\n");
        let line = l.next_line().unwrap();
        match l.on_line(&line) {
            LineStep::Frame { seq: got, dropped, .. } => {
                assert_eq!((got, dropped), (seq, if seq == 5 { 2 } else { 0 }))
            }
            other => panic!("{other:?}"),
        }
    }
    assert!(!l.reached());
    assert!(matches!(l.on_line("not json"), LineStep::NotJson));
    assert!(matches!(l.on_line("{\"payload\":1}"), LineStep::Ignored));
    match l.on_line(&done_envelope(3).unwrap()) {
        LineStep::Acknowledge(ack) => {
            assert_eq!(ack_verdict(&AckRead::Line(ack)), AckVerdict::DrainComplete)
        }
        other => panic!("{other:?}"),
    }
    assert_eq!(l.summary(), "summary: frames_received=3 drops=2 parse_errors=1");
    l.feed("{\"sequence\":6}");
    l.on_close();
    assert!(l.reached());
    assert_eq!(l.summary(), "summary: frames_received=4 drops=2 parse_errors=1");
}

#[test]
fn lines_are_read_back_as_they_were_written() {
    let first = frame_envelope_at(&info(1), "a\nb").unwrap();
    let last = done_envelope_at(1, "c\r\nd").unwrap();
    assert!(!first.contains('\n') && !last.contains('\n') && !ack_envelope().contains('\n'));
    let mut l = TelemetryListener::new(4);
    l.feed(&format!("{first}\n{last}\n"));
    assert_eq!(l.next_line().as_deref(), Some(first.as_str()));
    assert_eq!(l.next_line().as_deref(), Some(last.as_str()));
    assert!(l.next_line().is_none() && l.incoming.is_empty());
    match l.on_line(&last) {
        LineStep::Acknowledge(ack) => {
            assert_eq!(ack, ack_envelope());
            assert_eq!(ack_verdict(&AckRead::Line(ack + "\n")), AckVerdict::DrainComplete);
        }
        other => panic!("{other:?}"),
    }
}

#[test]
fn times_that_stand_still_are_noticed() {
    let mut l = TelemetryListener::new(3);
    let at = |seq, t: &str| frame_envelope_at(&info(seq), t).unwrap();
    let mut not_monotonic = Vec::new();
    for (seq, t) in [
        (1, "2026-01-02T03:04:05.5Z"),
        (2, "2026-01-02T03:04:05.6+00:00"),
        (3, "2026-01-02T04:04:05.6+01:00"),
        (4, "yesterday"),
        (5, "2026-01-02T03:04:05Z"),
    ] {
        match l.on_line(&at(seq, t)) {
            LineStep::Frame { not_monotonic: n, .. } => not_monotonic.push(n),
            other => panic!("{other:?}"),
        }
    }
    assert_eq!(not_monotonic, [false, false, true, false, true]);
    l.feed("rest");
    l.on_reconnect();
    assert_eq!(l.incoming, "");
    l.feed("half");
    l.on_close();
    assert_eq!(l.parse_errors, 1);
}

#[test]
fn arguments_of_the_listener() {
    assert_eq!(target_frames(&None), 50);
    assert_eq!(target_frames(&some("7")), 7);
    assert_eq!(target_frames(&some("seven")), 50);
    assert_eq!(pipe_name(&None), r"\\.\\pipe\\bsr-telemetry");
    assert_eq!(pipe_name(&some("x")), r"\\.\\pipe\\x");
}

#[test]
fn a_smoke_run_is_opened_for_the_cropped_size() {
    let crop = parse_crop(" 300, 150,1500,900").unwrap();
    assert_eq!(crop, CaptureRegion { x1: 300, y1: 150, x2: 1500, y2: 900 });
    let plan = plan_run(Some(crop));
    assert_eq!((plan.width, plan.height, plan.capture.region), (1200, 750, Some(crop)));
    let off = CaptureRegion { x1: 5000, y1: 5000, x2: 6000, y2: 6000 };
    let plan = plan_run(Some(off));
    assert_eq!((plan.width, plan.height, plan.capture.region), (1920, 1080, None));
    assert!(plan_run(None).capture.region.is_none());
    assert_eq!(plan.capture.drop_policy, DropPolicy::DropNewest);
    assert_eq!((plan.capture.fps, plan.capture.buffer_capacity), (30, 8));
    assert!(parse_crop("1,2,3").is_none());
    assert_eq!(parse_crop("-1,x,2,3,4"), Some(CaptureRegion { x1: -1, y1: 2, x2: 3, y2: 4 }));
}

#[test]
fn a_smoke_run_numbers_its_frames() {
    let mut bridge = SmokeBridge::new(2);
    let first = bridge.forward(1280, 720, 10, 5);
    assert_eq!(first, FrameInfo { sequence: 1, width: 1280, height: 720, size_bytes: 10, timestamp: 5 });
    assert!(!bridge.reached());
    assert_eq!(bridge.stopped_early(), "capture stopped after 1 of 2 frames");
    assert_eq!(bridge.forward(1280, 720, 11, 6).sequence, 2);
    assert!(bridge.reached());
    assert!(run_outcome(RunEnd::Complete, 2).is_ok());
    assert_eq!(
        run_outcome(RunEnd::StoppedEarly, 2).unwrap_err(),
        "completion sender dropped before signalling — the pipeline stopped early"
    );
    assert_eq!(
        run_outcome(RunEnd::TimedOut, 2).unwrap_err(),
        "timeout waiting for 2 frames — capture or encode never delivered"
    );
}

#[test]
fn documents_are_judged_by_what_they_hold() {
    assert_eq!(judge_ack(&some("drain_complete")), AckVerdict::DrainComplete);
    assert_eq!(judge_ack(&some("drain")), AckVerdict::Unexpected);
    assert_eq!(judge_ack(&None), AckVerdict::Unexpected);
    assert_eq!(
        audit_entry(&vec![0xab, 0x01], "r", "T"),
        "{\"ts\":\"T\",\"original_hash\":\"sha256:ab01\",\"rule\":\"r\"}\n"
    );

    let mut l = TelemetryListener::new(5);
    let frame = |sequence, time| LineDocument {
        has_payload: false,
        event: some("FrameCaptured"),
        sequence,
        time,
    };
    let step = l.on_document(&frame(3, Some((10, 0))));
    assert!(matches!(step, LineStep::Frame { seq: 3, dropped: 0, not_monotonic: false }));
    let step = l.on_document(&frame(7, Some((10, 0))));
    assert!(matches!(step, LineStep::Frame { seq: 7, dropped: 3, not_monotonic: true }));
    let step = l.on_document(&frame(0, None));
    assert!(matches!(step, LineStep::Frame { seq: 0, dropped: 0, not_monotonic: false }));
    assert_eq!((l.last_seq, l.last_ts, l.frames_received, l.drops), (7, Some((10, 0)), 3, 3));
    let done = LineDocument { has_payload: false, event: some("TelemetryDone"), sequence: 9, time: None };
    assert!(matches!(l.on_document(&done), LineStep::Acknowledge(_)));
    let command = LineDocument { has_payload: true, event: None, sequence: 9, time: None };
    assert!(matches!(l.on_document(&command), LineStep::Ignored));

    l.feed("something");
    l.on_leftover(Leftover::NotJson);
    l.on_leftover(Leftover::Nothing);
    l.on_leftover(Leftover::Document { sequence: 0 });
    assert_eq!((l.incoming.as_str(), l.parse_errors, l.frames_received), ("", 1, 3));
    l.on_leftover(Leftover::Document { sequence: 10 });
    assert_eq!((l.last_seq, l.frames_received, l.drops), (10, 4, 5));
}
