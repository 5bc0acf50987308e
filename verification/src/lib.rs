//! The logic of Baxter's Screen Record: capture regions, buffers, encoder timing,
//! muxing, inter-process commands, telemetry and the recorder window, each with a
//! contract that Verus proves.
pub mod app_state;
pub mod buffer;
pub mod capture;
pub mod clock;
pub mod config;
pub mod controls;
pub mod encode;
pub mod events;
pub mod file_path;
pub mod hrt;
pub mod ipc;
pub mod json;
pub mod listener;
pub mod mux;
pub mod panels;
pub mod path;
pub mod portal;
pub mod preview;
pub mod record_space;
pub mod recording_file;
pub mod redact;
pub mod save_dialog;
pub mod smoke;
pub mod telemetry_pipe;
pub mod text;
pub mod ui_model;
pub mod ui_settings;
pub mod window;
