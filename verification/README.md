# Baxter's Screen Record

A screen recorder for the Linux desktop: H.264 in MP4 files, of the whole screen or of any
rectangle of it. The rules of the recorder are a Verus library; what they promise is stated in
contracts and proved. The program around them is ordinary Rust.

## Layout

- `src/`: the verified library.
  - `config`, `ui_settings`, `record_space`: the configuration, the settings, and the rectangle
    that is recorded.
  - `capture`, `portal`, `buffer`, `encode`, `mux`: frames on their way from the screen into the
    file, between the calls into GStreamer and FFmpeg.
  - `window`, `events`, `save_dialog`, `controls`, `panels`, `preview`, `ui_model`: what the
    window remembers, shows and does.
  - `ipc`, `hrt`, `app_state`: commands, answers and events.
  - `telemetry_pipe`, `listener`, `redact`, `json`: telemetry lines, their reader, and the audit
    log.
  - `recording_file`, `path`, `file_path`, `text`, `clock`, `smoke`: files, paths, texts, times,
    and the test runs. Paths are those of Unix.
- `tests/`: its tests.
- `app/`: the program. Capture with GStreamer, encoding with FFmpeg, the native window, the tray
  and the hotkey need system libraries and their crates (`eframe`, `global-hotkey`, `tray-icon`,
  `gtk`, `gstreamer`, `gstreamer-app`, `gstreamer-video`, `ffmpeg-next`; on Windows `windows` and
  `named_pipe`); they are compiled in with `--cfg desktop`.

## The record space

All four insets at zero record the whole screen. Insets that leave nothing do so too: recording
too much beats recording nothing. Sizes are rounded down to even numbers, which is what H.264 can
encode. A rectangle can be typed as insets, placed corner by corner on the preview, set in the
configuration file, or sent by `IpcCommand::SetRecordSpace`; its corners count in either order.

## Sessions

Recording needs a Wayland session. An Xorg session is refused: its root window comes back black,
with no error. There is no synthetic source of frames.
