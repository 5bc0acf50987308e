//! The record space, across every part that has an opinion about it.
use bsr::capture::{crop_frame, CaptureFrame, FrameFormat};
use bsr::config::{CaptureRegion, Environment};
use bsr::ipc::{try_take_record_space, IpcCommand, IpcServer, RecordSpaceSlot};
use bsr::ui_settings::UiSettings;

fn frame(w: u32, h: u32) -> CaptureFrame {
    CaptureFrame {
        data: vec![0u8; (w * h * 4) as usize],
        timestamp: 0,
        width: w,
        height: h,
        format: FrameFormat::Bgra8,
    }
}

fn defaults() -> UiSettings {
    UiSettings::default_in(&Environment {
        home: Some("/home/someone".to_string()),
        user_profile: None,
        temp: None,
        temp_dir: "/tmp".to_string(),
    })
}

/// The size that the window promises is the size that capture delivers.
#[test]
fn the_uis_predicted_size_matches_what_capture_actually_produces() {
    for (l, t, r, b) in [(0, 0, 0, 0), (100, 50, 300, 150), (7, 3, 9, 5), (1, 1, 1, 1)] {
        let settings = UiSettings {
            crop_left: l, crop_top: t, crop_right: r, crop_bottom: b,
            ..defaults()
        };
        let (pred_w, pred_h) = settings.recording_size();

        let full = frame(1920, 1080);
        let cropped = match settings.to_capture_region() {
            Some(region) => crop_frame(&full, &region),
            None => full.clone(),
        };

        assert_eq!(
            (cropped.width, cropped.height),
            (pred_w, pred_h),
            "insets {l},{t},{r},{b}: UI predicted {pred_w}x{pred_h} but capture produced {}x{}",
            cropped.width, cropped.height
        );
        assert_eq!(
            cropped.data.len(),
            (pred_w * pred_h * 4) as usize,
            "buffer must match the agreed dimensions, or the encoder reads garbage"
        );
    }
}

#[test]
fn the_container_geometry_matches_the_cropped_frames() {
    let settings = UiSettings {
        crop_left: 200, crop_top: 100, crop_right: 200, crop_bottom: 100,
        ..defaults()
    };
    let cfg = settings.to_muxer_config();
    let cropped = crop_frame(&frame(1920, 1080), &settings.to_capture_region().unwrap());
    assert_eq!((cfg.width, cfg.height), (cropped.width, cropped.height));
}

/// A region that is sent to the server arrives at the window as the same rectangle.
#[test]
fn a_region_set_over_ipc_arrives_unchanged() {
    let mut slot = RecordSpaceSlot::default();
    let mut server = IpcServer::new(0, false);
    let region = CaptureRegion { x1: 300, y1: 150, x2: 1500, y2: 900 };
    server.handle_command(IpcCommand::SetRecordSpace { region: Some(region) }, 0, &mut slot);

    let delivered = try_take_record_space(&mut slot).expect("region should reach the UI queue");
    assert_eq!(delivered, Some(region));

    let mut settings = defaults();
    settings.set_capture_region(delivered);
    assert_eq!(settings.recording_size(), (1200, 750));
    assert_eq!(settings.to_capture_region(), Some(region), "no drift through the UI");
}

#[test]
fn clearing_the_region_over_ipc_restores_the_full_screen() {
    let mut slot = RecordSpaceSlot::default();
    let mut server = IpcServer::new(0, false);
    server.handle_command(IpcCommand::SetRecordSpace { region: None }, 0, &mut slot);

    let delivered = try_take_record_space(&mut slot).expect("a clear is still a delivery");
    assert_eq!(delivered, None);

    let mut settings = UiSettings { crop_left: 100, ..defaults() };
    settings.set_capture_region(delivered);
    assert!(!settings.has_crop_insets());
    assert_eq!(settings.recording_size(), (1920, 1080));
}
