//! The configuration of the recorder, its defaults, its checks and its repair.
use vstd::prelude::*;
use vstd::string::*;

use crate::path::{absolute, join, joined, parent, parent_path};
use crate::text::{
    begins, chars_of, copy_opt, debug_string, debug_text, is_blank, is_white, lemma_trimmed_keeps,
    opt_text, starts_with, stripping_takes_off_the_ends_alone, trimmed, Edge,
};

verus! {

/// What the configuration takes from the process environment.
#[derive(Debug, Clone)]
pub struct Environment {
    /// The variable `HOME`.
    pub home: Option<String>,
    /// The variable `USERPROFILE`.
    pub user_profile: Option<String>,
    /// The variable `TEMP`.
    pub temp: Option<String>,
    /// The directory for temporary files.
    pub temp_dir: String,
}

/// A rectangle of the screen, by two opposite corners in pixels.
#[derive(Debug, Clone, Copy, PartialEq, Eq, Structural)]
pub struct CaptureRegion {
    pub x1: i32,
    pub y1: i32,
    pub x2: i32,
    pub y2: i32,
}

/// `v` moved into `0..=hi`.
pub open spec fn clamped(v: int, hi: int) -> int {
    if v < 0 {
        0
    } else if v > hi {
        hi
    } else {
        v
    }
}

/// `n`, or one less where `n` is odd.
pub open spec fn even_down(n: int) -> int {
    n - n % 2
}

pub open spec fn lesser(a: int, b: int) -> int {
    if a <= b {
        a
    } else {
        b
    }
}

pub open spec fn greater(a: int, b: int) -> int {
    if a <= b {
        b
    } else {
        a
    }
}

impl CaptureRegion {
    /// The part of the region inside a frame, as left edge, top edge, width and height.
    /// The corners count in either order; the size is rounded down to even numbers; what is
    /// smaller than two by two pixels is nothing.
    pub open spec fn clipped(self, frame_width: u32, frame_height: u32) -> Option<
        (u32, u32, u32, u32),
    > {
        let fw = frame_width as int;
        let fh = frame_height as int;
        let left = clamped(lesser(self.x1 as int, self.x2 as int), fw);
        let right = clamped(greater(self.x1 as int, self.x2 as int), fw);
        let top = clamped(lesser(self.y1 as int, self.y2 as int), fh);
        let bottom = clamped(greater(self.y1 as int, self.y2 as int), fh);
        let w = even_down(right - left);
        let h = even_down(bottom - top);
        if w < 2 || h < 2 {
            None
        } else {
            Some((left as u32, top as u32, w as u32, h as u32))
        }
    }

    /// What is recorded of the region: its part inside the frame.
    #[verifier::opaque]
    pub open spec fn resolved(self, frame_width: u32, frame_height: u32) -> Option<
        (u32, u32, u32, u32),
    > {
        self.clipped(frame_width, frame_height)
    }

    pub fn width(&self) -> (r: i32)
        requires
            i32::MIN <= self.x2 - self.x1 <= i32::MAX,
        ensures
            r == self.x2 - self.x1,
    {
        self.x2 - self.x1
    }

    pub fn height(&self) -> (r: i32)
        requires
            i32::MIN <= self.y2 - self.y1 <= i32::MAX,
        ensures
            r == self.y2 - self.y1,
    {
        self.y2 - self.y1
    }

    /// Do the corners span a positive width and height?
    pub fn is_valid(&self) -> (r: bool)
        requires
            i32::MIN <= self.x2 - self.x1 <= i32::MAX,
            self.x2 > self.x1 ==> i32::MIN <= self.y2 - self.y1 <= i32::MAX,
        ensures
            r == (self.x2 > self.x1 && self.y2 > self.y1),
    {
        self.width() > 0 && self.height() > 0
    }

    /// Resolves this region against a frame, returning `(x, y, width, height)` in pixels,
    /// or `None` if nothing usable is left.
    ///
    /// H.264's 4:2:0 chroma subsampling cannot represent an odd dimension, so the size is
    /// snapped down to even numbers here, where the region is entered.
    pub fn resolve(&self, frame_width: u32, frame_height: u32) -> (r: Option<(u32, u32, u32, u32)>)
        ensures
            r == self.resolved(frame_width, frame_height),
            r == self.clipped(frame_width, frame_height),
    {
        proof {
            reveal(CaptureRegion::resolved);
        }
        if frame_width < 2 || frame_height < 2 {
            return None;
        }
        let (left, right) = span(self.x1, self.x2, frame_width);
        let (top, bottom) = span(self.y1, self.y2, frame_height);
        let w: u32 = (right - left) / 2 * 2;
        let h: u32 = (bottom - top) / 2 * 2;
        if w < 2 || h < 2 {
            return None;
        }
        Some((left, top, w, h))
    }
}

/// The two coordinates in order, each moved into `0..=hi`.
fn span(a: i32, b: i32, hi: u32) -> (r: (u32, u32))
    ensures
        r.0 == clamped(lesser(a as int, b as int), hi as int),
        r.1 == clamped(greater(a as int, b as int), hi as int),
        r.0 <= r.1 <= hi,
{
    if a <= b {
        (clamp_to(a, hi), clamp_to(b, hi))
    } else {
        (clamp_to(b, hi), clamp_to(a, hi))
    }
}

fn clamp_to(v: i32, hi: u32) -> (r: u32)
    ensures
        r == clamped(v as int, hi as int),
{
    if v < 0 {
        0
    } else if v as u32 > hi {
        hi
    } else {
        v as u32
    }
}

/// A resolved region lies inside the frame, and its width and height are even and at
/// least two.
pub proof fn resolved_region_lies_inside_the_frame(
    r: CaptureRegion,
    frame_width: u32,
    frame_height: u32,
)
    ensures
        r.resolved(frame_width, frame_height) matches Some((x, y, w, h)) ==> {
            &&& x + w <= frame_width
            &&& y + h <= frame_height
            &&& w >= 2 && w % 2 == 0
            &&& h >= 2 && h % 2 == 0
        },
{
    reveal(CaptureRegion::resolved);
}

/// The columns that a region records of a frame are those of the frame between its corners, all
/// of them but the last of an odd number; so are the rows. Nothing is recorded exactly where there
/// are not two of each.
pub proof fn a_region_records_what_lies_between_its_corners(
    r: CaptureRegion,
    frame_width: u32,
    frame_height: u32,
    px: int,
    py: int,
)
    requires
        0 <= px < frame_width,
        0 <= py < frame_height,
    ensures
        match r.resolved(frame_width, frame_height) {
            Some((x, y, w, h)) => {
                let across = (r.x1 <= px < r.x2) || (r.x2 <= px < r.x1);
                let down = (r.y1 <= py < r.y2) || (r.y2 <= py < r.y1);
                &&& x <= px < x + w ==> across
                &&& across ==> x <= px <= x + w
                &&& y <= py < y + h ==> down
                &&& down ==> y <= py <= y + h
                &&& x + w <= frame_width && y + h <= frame_height
                &&& w >= 2 && w % 2 == 0 && h >= 2 && h % 2 == 0
            },
            None => {
                let wide = px + 1 < frame_width && ((r.x1 <= px && px + 1 < r.x2) || (r.x2 <= px
                    && px + 1 < r.x1));
                let high = py + 1 < frame_height && ((r.y1 <= py && py + 1 < r.y2) || (r.y2 <= py
                    && py + 1 < r.y1));
                !(wide && high)
            },
        },
{
    reveal(CaptureRegion::resolved);
}

/// Either pair of opposite corners, in either order, names the same rectangle.
pub proof fn corners_count_in_any_order(r: CaptureRegion, frame_width: u32, frame_height: u32)
    ensures
        (CaptureRegion { x1: r.x2, y1: r.y2, x2: r.x1, y2: r.y1 }).resolved(
            frame_width,
            frame_height,
        ) == r.resolved(frame_width, frame_height),
        (CaptureRegion { x1: r.x2, y1: r.y1, x2: r.x1, y2: r.y2 }).resolved(
            frame_width,
            frame_height,
        ) == r.resolved(frame_width, frame_height),
{
    reveal(CaptureRegion::resolved);
}

/// Resolving a resolved region again changes nothing.
pub proof fn resolving_twice_changes_nothing(r: CaptureRegion, frame_width: u32, frame_height: u32)
    ensures
        r.resolved(frame_width, frame_height) matches Some((x, y, w, h)) ==> {
            &&& x + w <= i32::MAX
            &&& y + h <= i32::MAX
            &&& (CaptureRegion {
                x1: x as i32,
                y1: y as i32,
                x2: (x + w) as i32,
                y2: (y + h) as i32,
            }).resolved(frame_width, frame_height) == Some((x, y, w, h))
        },
{
    reveal(CaptureRegion::resolved);
}

/// A region that covers the whole frame resolves to the frame, rounded down to even numbers.
pub proof fn covering_region_records_the_frame(
    r: CaptureRegion,
    frame_width: u32,
    frame_height: u32,
)
    requires
        frame_width >= 2,
        frame_height >= 2,
        lesser(r.x1 as int, r.x2 as int) <= 0,
        lesser(r.y1 as int, r.y2 as int) <= 0,
        greater(r.x1 as int, r.x2 as int) >= frame_width,
        greater(r.y1 as int, r.y2 as int) >= frame_height,
    ensures
        r.resolved(frame_width, frame_height) == Some(
            (
                0u32,
                0u32,
                even_down(frame_width as int) as u32,
                even_down(frame_height as int) as u32,
            ),
        ),
{
    reveal(CaptureRegion::resolved);
}

#[derive(Debug, Clone)]
pub struct CaptureConfig {
    pub fps: u32,
    pub region: Option<CaptureRegion>,
    pub monitor: Option<String>,
}

impl Default for CaptureConfig {
    fn default() -> (r: Self)
        ensures
            r.fps == 30,
            r.region is None,
            r.monitor is None,
    {
        CaptureConfig { fps: 30, region: None, monitor: None }
    }
}

#[derive(Debug, Clone, Copy, PartialEq, Eq, Structural)]
pub enum VideoCodec {
    H264,
    H265,
}

#[derive(Debug, Clone, Copy, PartialEq, Eq, Structural)]
pub enum EncoderPreset {
    Fast,
    Balanced,
    Quality,
}

impl EncoderPreset {
    /// The x264 preset that this tier stands for.
    pub open spec fn x264(self) -> Seq<char> {
        match self {
            EncoderPreset::Fast => "ultrafast"@,
            EncoderPreset::Balanced => "superfast"@,
            EncoderPreset::Quality => "veryfast"@,
        }
    }

    /// The x264 preset name this tier maps to. `Balanced` is the fastest tier with headroom
    /// over 30 fps at 1080p; `Quality` trades frame rate for picture.
    pub fn x264_name(&self) -> (r: &'static str)
        ensures
            r@ == self.x264(),
    {
        match self {
            EncoderPreset::Fast => "ultrafast",
            EncoderPreset::Balanced => "superfast",
            EncoderPreset::Quality => "veryfast",
        }
    }
}

#[derive(Debug, Clone)]
pub struct EncoderConfig {
    pub encoder_name: Option<String>,
    pub codec: VideoCodec,
    pub preset: EncoderPreset,
    pub bitrate_kbps: u32,
}

impl Default for EncoderConfig {
    fn default() -> (r: Self)
        ensures
            r.encoder_name is None,
            r.codec == VideoCodec::H264,
            r.preset == EncoderPreset::Balanced,
            r.bitrate_kbps == 8000,
    {
        EncoderConfig {
            encoder_name: None,
            codec: VideoCodec::H264,
            preset: EncoderPreset::Balanced,
            bitrate_kbps: 8000,
        }
    }
}

#[derive(Debug, Clone, Copy, PartialEq, Eq, Structural)]
pub enum ContainerFormat {
    Mkv,
    Mp4,
}

#[derive(Debug, Clone)]
pub struct OutputConfig {
    pub output_folder: String,
    pub container: ContainerFormat,
    pub auto_remux_to_mp4: bool,
    pub file_name_pattern: String,
    pub max_duration_hours: u32,
}

/// The home directory: `HOME`, else `USERPROFILE`.
pub open spec fn home_path(env: Environment) -> Option<Seq<char>> {
    match (opt_text(env.home), opt_text(env.user_profile)) {
        (Some(h), _) => Some(h),
        (None, u) => u,
    }
}

/// The home directory: `HOME`, else `USERPROFILE`.
pub fn home_dir(env: &Environment) -> (r: Option<String>)
    ensures
        opt_text(r) == home_path(*env),
{
    match &env.home {
        Some(h) => Some(h.clone()),
        None => copy_opt(&env.user_profile),
    }
}

/// Where recordings go unless the configuration says otherwise: `Videos/BSR Recordings`
/// in the home directory, or `BSR Recordings` in the directory for temporary files.
pub open spec fn default_folder(env: Environment) -> Seq<char> {
    match home_path(env) {
        Some(h) => joined(joined(h, "Videos"@), "BSR Recordings"@),
        None => joined(env.temp_dir@, "BSR Recordings"@),
    }
}

/// The default output folder.
pub fn default_output_folder(env: &Environment) -> (r: String)
    ensures
        r@ == default_folder(*env),
{
    match home_dir(env) {
        Some(h) => {
            let videos = join(h.as_str(), "Videos");
            join(videos.as_str(), "BSR Recordings")
        },
        None => join(env.temp_dir.as_str(), "BSR Recordings"),
    }
}

/// An ASCII letter.
pub open spec fn is_letter(c: char) -> bool {
    0x41 <= c as u32 <= 0x5a || 0x61 <= c as u32 <= 0x7a
}

/// A path is foreign to Unix if it is blank, names a drive, or uses backslashes.
pub open spec fn foreign(p: Seq<char>) -> bool {
    ||| trimmed(p).len() == 0
    ||| p.len() >= 2 && is_letter(p[0]) && p[1] == ':'
    ||| p.contains('\\')
}

/// Is this path unusable on Unix?
///
/// FFmpeg reads a leading `C:` as a protocol scheme, so a path written on Windows would
/// fail only after the recording has been made.
pub fn is_foreign_path(path: &str) -> (r: bool)
    ensures
        r == foreign(path@),
{
    if is_blank(path) {
        return true;
    }
    let v = chars_of(path);
    if v.len() >= 2 && v[1] == ':' {
        let u: u32 = v[0] as u32;
        if (0x41 <= u && u <= 0x5a) || (0x61 <= u && u <= 0x7a) {
            return true;
        }
    }
    crate::text::has_char(path, '\\')
}

/// The directory below which the default output folder lies.
pub open spec fn default_base(env: Environment) -> Seq<char> {
    match home_path(env) {
        Some(h) => h,
        None => env.temp_dir@,
    }
}

/// A plain name below a usable directory makes a usable path.
pub proof fn lemma_joined_stays_usable(base: Seq<char>, part: Seq<char>)
    requires
        !foreign(base),
        !part.contains('\\'),
        part.len() > 0,
        part[0] == 'V' || part[0] == 'B',
    ensures
        !foreign(joined(base, part)),
        absolute(base) ==> absolute(joined(base, part)),
{
    let j = joined(base, part);
    assert(base.len() > 0) by {
        if base.len() == 0 {
            assert(trimmed(base).len() == 0);
        }
    }
    let k = j.len() - part.len();
    assert(j[k] == part[0]);
    lemma_trimmed_keeps(j, k);
    if j.contains('\\') {
        let i = choose|i: int| 0 <= i < j.len() && j[i] == '\\';
        if i >= k {
            assert(part[i - k] == '\\');
        } else if i < base.len() {
            assert(base[i] == '\\');
        }
    }
}

/// Where the base directory is usable on this platform, so is the default output folder;
/// it is absolute where the base is.
pub proof fn default_folder_is_usable(env: Environment)
    requires
        !foreign(default_base(env)),
    ensures
        !foreign(default_folder(env)),
        absolute(default_base(env)) ==> absolute(default_folder(env)),
{
    reveal_strlit("Videos");
    reveal_strlit("BSR Recordings");
    let base = default_base(env);
    if home_path(env) is Some {
        lemma_joined_stays_usable(base, "Videos"@);
        lemma_joined_stays_usable(joined(base, "Videos"@), "BSR Recordings"@);
    } else {
        lemma_joined_stays_usable(base, "BSR Recordings"@);
    }
}

impl OutputConfig {
    /// The defaults for a process with the environment `env`.
    pub fn default_in(env: &Environment) -> (r: Self)
        ensures
            r.output_folder@ == default_folder(*env),
            r.container == ContainerFormat::Mp4,
            !r.auto_remux_to_mp4,
            r.file_name_pattern@ == "BSR_{date}_{time}"@,
            r.max_duration_hours == 5,
    {
        OutputConfig {
            output_folder: default_output_folder(env),
            container: ContainerFormat::Mp4,
            auto_remux_to_mp4: false,
            file_name_pattern: String::from_str("BSR_{date}_{time}"),
            max_duration_hours: 5,
        }
    }
}

#[derive(Debug, Clone)]
pub struct HotkeyConfig {
    pub start_recording: String,
    pub stop_recording: String,
    pub toggle_stealth: String,
    pub rescue: String,
}

impl Default for HotkeyConfig {
    fn default() -> (r: Self)
        ensures
            r.start_recording@ == "Ctrl+Shift+R"@,
            r.stop_recording@ == "Ctrl+Shift+S"@,
            r.toggle_stealth@ == "Ctrl+Shift+T"@,
            r.rescue@ == "Ctrl+Shift+Escape"@,
    {
        HotkeyConfig {
            start_recording: String::from_str("Ctrl+Shift+R"),
            stop_recording: String::from_str("Ctrl+Shift+S"),
            toggle_stealth: String::from_str("Ctrl+Shift+T"),
            rescue: String::from_str("Ctrl+Shift+Escape"),
        }
    }
}

#[derive(Debug, Clone)]
pub struct StealthConfig {
    pub enabled: bool,
    pub full_screen: bool,
    pub region: Option<CaptureRegion>,
}

impl Default for StealthConfig {
    fn default() -> (r: Self)
        ensures
            !r.enabled,
            !r.full_screen,
            r.region is None,
    {
        StealthConfig { enabled: false, full_screen: false, region: None }
    }
}

/// The link to the temperature daemon. A temperature is held as the bit pattern of the
/// double that the configuration file gives.
#[derive(Debug, Clone)]
pub struct HrtConfig {
    pub enabled: bool,
    pub pipe_path: String,
    pub throttle_temp_c_bits: u64,
    pub auto_stop_temp_c_bits: u64,
    pub e_stop_enabled: bool,
}

/// The bit pattern of the double 85.
pub const THROTTLE_TEMP_C_BITS: u64 = 0x4055_4000_0000_0000;

/// The bit pattern of the double 95.
pub const AUTO_STOP_TEMP_C_BITS: u64 = 0x4057_c000_0000_0000;

impl Default for HrtConfig {
    fn default() -> (r: Self)
        ensures
            r.enabled,
            r.pipe_path@ == "\\\\.\\pipe\\hot-rod-tuner"@,
            r.throttle_temp_c_bits == THROTTLE_TEMP_C_BITS,
            r.auto_stop_temp_c_bits == AUTO_STOP_TEMP_C_BITS,
            r.e_stop_enabled,
    {
        HrtConfig {
            enabled: true,
            pipe_path: String::from_str("\\\\.\\pipe\\hot-rod-tuner"),
            throttle_temp_c_bits: THROTTLE_TEMP_C_BITS,
            auto_stop_temp_c_bits: AUTO_STOP_TEMP_C_BITS,
            e_stop_enabled: true,
        }
    }
}

#[derive(Debug, Clone)]
pub struct UiConfig {
    pub theme: String,
}

impl Default for UiConfig {
    fn default() -> (r: Self)
        ensures
            r.theme@ == "charcoal"@,
    {
        UiConfig { theme: String::from_str("charcoal") }
    }
}

#[derive(Debug, Clone)]
pub struct LoggingConfig {
    pub level: String,
    pub log_to_file: bool,
    pub max_files: usize,
    pub max_file_size_mb: usize,
}

impl Default for LoggingConfig {
    fn default() -> (r: Self)
        ensures
            r.level@ == "info"@,
            r.log_to_file,
            r.max_files == 5,
            r.max_file_size_mb == 10,
    {
        LoggingConfig {
            level: String::from_str("info"),
            log_to_file: true,
            max_files: 5,
            max_file_size_mb: 10,
        }
    }
}

#[derive(Debug, Clone)]
pub struct AdvancedConfig {
    pub ffmpeg_path: String,
    pub temp_dir: String,
    /// The number of worker threads; zero leaves it to the machine.
    pub worker_threads: usize,
    pub buffer_size_mb: usize,
    pub enable_telemetry: bool,
    pub enable_diagnostics: bool,
}

/// `\bsr` behind the variable `TEMP`, or behind `C:\Temp` where it is unset.
pub open spec fn default_work_dir(env: Environment) -> Seq<char> {
    match opt_text(env.temp) {
        Some(t) => t + "\\bsr"@,
        None => "C:\\Temp"@ + "\\bsr"@,
    }
}

impl AdvancedConfig {
    /// The defaults for a process with the environment `env`.
    pub fn default_in(env: &Environment) -> (r: Self)
        ensures
            r.ffmpeg_path@ == "ffmpeg"@,
            r.temp_dir@ == default_work_dir(*env),
            r.worker_threads == 0,
            r.buffer_size_mb == 64,
            r.enable_telemetry,
            r.enable_diagnostics,
    {
        let base = match &env.temp {
            Some(t) => t.clone(),
            None => String::from_str("C:\\Temp"),
        };
        AdvancedConfig {
            ffmpeg_path: String::from_str("ffmpeg"),
            temp_dir: base.concat("\\bsr"),
            worker_threads: 0,
            buffer_size_mb: 64,
            enable_telemetry: true,
            enable_diagnostics: true,
        }
    }
}

#[derive(Debug, Clone)]
pub struct BsrConfig {
    pub capture: CaptureConfig,
    pub encoder: EncoderConfig,
    pub output: OutputConfig,
    pub hotkeys: HotkeyConfig,
    pub stealth: StealthConfig,
    pub hrt: HrtConfig,
    pub ui: UiConfig,
    pub logging: LoggingConfig,
    pub advanced: AdvancedConfig,
}

impl BsrConfig {
    /// Every section of the configuration holds its default.
    pub open spec fn is_default_in(self, env: Environment) -> bool {
        &&& self.capture.fps == 30 && self.capture.region is None && self.capture.monitor is None
        &&& self.encoder.encoder_name is None && self.encoder.codec == VideoCodec::H264
            && self.encoder.preset == EncoderPreset::Balanced && self.encoder.bitrate_kbps == 8000
        &&& self.output.output_folder@ == default_folder(env) && self.output.container
            == ContainerFormat::Mp4 && !self.output.auto_remux_to_mp4
            && self.output.file_name_pattern@ == "BSR_{date}_{time}"@
            && self.output.max_duration_hours == 5
        &&& self.hotkeys.start_recording@ == "Ctrl+Shift+R"@ && self.hotkeys.stop_recording@
            == "Ctrl+Shift+S"@ && self.hotkeys.toggle_stealth@ == "Ctrl+Shift+T"@
            && self.hotkeys.rescue@ == "Ctrl+Shift+Escape"@
        &&& !self.stealth.enabled && !self.stealth.full_screen && self.stealth.region is None
        &&& self.hrt.enabled && self.hrt.pipe_path@ == "\\\\.\\pipe\\hot-rod-tuner"@
            && self.hrt.throttle_temp_c_bits == THROTTLE_TEMP_C_BITS
            && self.hrt.auto_stop_temp_c_bits == AUTO_STOP_TEMP_C_BITS && self.hrt.e_stop_enabled
        &&& self.ui.theme@ == "charcoal"@
        &&& self.logging.level@ == "info"@ && self.logging.log_to_file && self.logging.max_files
            == 5 && self.logging.max_file_size_mb == 10
        &&& self.advanced.ffmpeg_path@ == "ffmpeg"@ && self.advanced.temp_dir@ == default_work_dir(
            env,
        ) && self.advanced.worker_threads == 0 && self.advanced.buffer_size_mb == 64
            && self.advanced.enable_telemetry && self.advanced.enable_diagnostics
    }

    /// The defaults for a process with the environment `env`.
    pub fn default_in(env: &Environment) -> (r: Self)
        ensures
            r.is_default_in(*env),
    {
        BsrConfig {
            capture: CaptureConfig::default(),
            encoder: EncoderConfig::default(),
            output: OutputConfig::default_in(env),
            hotkeys: HotkeyConfig::default(),
            stealth: StealthConfig::default(),
            hrt: HrtConfig::default(),
            ui: UiConfig::default(),
            logging: LoggingConfig::default(),
            advanced: AdvancedConfig::default_in(env),
        }
    }

    /// Replaces an output folder that cannot work on this platform by the default one, and
    /// says so. The rest of the configuration is left alone.
    pub fn repair_for_this_platform(&mut self, env: &Environment) -> (notes: Vec<String>)
        ensures
            final(self).output.output_folder@ == repaired_folder(
                old(self).output.output_folder@,
                *env,
            ),
            if foreign(old(self).output.output_folder@) {
                &&& notes@.len() == 1
                &&& notes@[0]@ == repair_line(
                    debug_text(old(self).output.output_folder@),
                    debug_text(default_folder(*env)),
                )
                &&& *final(self) == (BsrConfig {
                    output: OutputConfig {
                        output_folder: final(self).output.output_folder,
                        ..old(self).output
                    },
                    ..*old(self)
                })
            } else {
                &&& notes@.len() == 0
                &&& *final(self) == *old(self)
            },
    {
        let mut notes: Vec<String> = Vec::new();
        if is_foreign_path(self.output.output_folder.as_str()) {
            let fallback = default_output_folder(env);
            let folder = debug_string(self.output.output_folder.as_str());
            let replacement = debug_string(fallback.as_str());
            notes.push(repair_note(folder.as_str(), replacement.as_str()));
            self.output.output_folder = fallback;
        }
        notes
    }
}

/// What is said about a repair, with the two folders in quotes.
pub open spec fn repair_line(folder: Seq<char>, replacement: Seq<char>) -> Seq<char> {
    "output folder "@ + folder + " is not usable on this platform; using "@ + replacement
}

/// What is said about a repair, with the two folders in quotes.
pub fn repair_note(folder: &str, replacement: &str) -> (r: String)
    ensures
        r@ == repair_line(folder@, replacement@),
{
    let mut note = String::from_str("output folder ");
    note.append(folder);
    note.append(" is not usable on this platform; using ");
    note.append(replacement);
    note
}

/// The output folder that a repair leaves behind.
pub open spec fn repaired_folder(folder: Seq<char>, env: Environment) -> Seq<char> {
    if foreign(folder) {
        default_folder(env)
    } else {
        folder
    }
}

/// After a repair the output folder is usable, and a second repair finds nothing to do.
pub proof fn repair_leaves_a_usable_folder(folder: Seq<char>, env: Environment)
    requires
        !foreign(default_base(env)),
    ensures
        !foreign(repaired_folder(folder, env)),
        repaired_folder(repaired_folder(folder, env), env) == repaired_folder(folder, env),
{
    default_folder_is_usable(env);
}

/// What went wrong with a configuration.
#[derive(Debug, Clone)]
pub enum ConfigError {
    Load(String),
    Save(String),
    Validation(String),
}

impl ConfigError {
    /// The text that is shown for the error.
    pub open spec fn shown(self) -> Seq<char> {
        match self {
            ConfigError::Load(e) => "Failed to load config: "@ + e@,
            ConfigError::Save(e) => "Failed to save config: "@ + e@,
            ConfigError::Validation(e) => "Validation error: "@ + e@,
        }
    }

    /// The text that is shown for the error.
    pub fn message(&self) -> (r: String)
        ensures
            r@ == self.shown(),
    {
        match self {
            ConfigError::Load(e) => String::from_str("Failed to load config: ").concat(e.as_str()),
            ConfigError::Save(e) => String::from_str("Failed to save config: ").concat(e.as_str()),
            ConfigError::Validation(e) => String::from_str("Validation error: ").concat(e.as_str()),
        }
    }
}

/// The complaints about a configuration, in order.
pub open spec fn complaints(config: BsrConfig) -> Seq<Seq<char>> {
    let fps = if config.capture.fps < 10 || config.capture.fps > 120 {
        seq!["FPS must be between 10 and 120"@]
    } else {
        Seq::empty()
    };
    let bitrate = if config.encoder.bitrate_kbps < 1000 || config.encoder.bitrate_kbps > 100_000 {
        seq!["Bitrate must be between 1000 and 100000 kbps"@]
    } else {
        Seq::empty()
    };
    let folder = if !begins(config.output.output_folder@, "C:/"@) && !begins(
        config.output.output_folder@,
        "D:/"@,
    ) {
        seq!["Output folder must be on C:/ or D:/"@]
    } else {
        Seq::empty()
    };
    fps + bitrate + folder
}

/// Checks a configuration. Every error is a `Validation`.
pub fn validate_config(config: &BsrConfig) -> (errors: Vec<ConfigError>)
    ensures
        errors@.len() == complaints(*config).len(),
        forall|i: int|
            0 <= i < errors@.len() ==> (#[trigger] errors@[i] matches ConfigError::Validation(e)
                && e@ == complaints(*config)[i]),
{
    let mut errors: Vec<ConfigError> = Vec::new();
    if config.capture.fps < 10 || config.capture.fps > 120 {
        errors.push(ConfigError::Validation(String::from_str("FPS must be between 10 and 120")));
    }
    if config.encoder.bitrate_kbps < 1000 || config.encoder.bitrate_kbps > 100_000 {
        errors.push(
            ConfigError::Validation(
                String::from_str("Bitrate must be between 1000 and 100000 kbps"),
            ),
        );
    }
    let folder = config.output.output_folder.as_str();
    if !starts_with(folder, "C:/") && !starts_with(folder, "D:/") {
        errors.push(
            ConfigError::Validation(String::from_str("Output folder must be on C:/ or D:/")),
        );
    }
    errors
}

/// The configuration file beside the executable.
pub open spec fn packaged_config(exe_dir: Seq<char>) -> Seq<char> {
    joined(joined(exe_dir, "config"@), "bsr-config.toml"@)
}

/// The directory of the configuration file beside the executable, and that file.
pub fn packaged_config_paths(exe_dir: &str) -> (r: (String, String))
    ensures
        r.0@ == joined(exe_dir@, "config"@),
        r.1@ == packaged_config(exe_dir@),
{
    let dir = join(exe_dir, "config");
    let file = join(dir.as_str(), "bsr-config.toml");
    (dir, file)
}

/// Where the configuration file is: beside the executable if the file or its directory
/// exists there, else in the current directory.
pub fn get_config_path(
    exe_dir: Option<String>,
    file_exists: bool,
    dir_exists: bool,
) -> (r: Result<String, ConfigError>)
    ensures
        r matches Ok(p) && p@ == match exe_dir {
            Some(d) if file_exists || dir_exists => packaged_config(d@),
            _ => "bsr-config.toml"@,
        },
{
    if let Some(d) = exe_dir {
        if file_exists || dir_exists {
            let (_, file) = packaged_config_paths(d.as_str());
            return Ok(file);
        }
    }
    Ok(String::from_str("bsr-config.toml"))
}

/// What is to be done so that a configuration file exists.
#[derive(Debug, Clone)]
pub enum ConfigAction {
    /// The file is there.
    Keep,
    /// Create the directory, where the path has one, and save the defaults.
    Create { directory: Option<String> },
}

/// Decides how to make sure that the configuration file exists.
pub fn ensure_config_exists(config_path: &str, exists: bool) -> (r: ConfigAction)
    ensures
        match r {
            ConfigAction::Keep => exists,
            ConfigAction::Create { directory } => !exists && opt_text(directory) == parent_path(
                config_path@,
            ),
        },
{
    if exists {
        ConfigAction::Keep
    } else {
        ConfigAction::Create { directory: parent(config_path) }
    }
}

/// A configuration is sound exactly where its frame rate lies between 10 and 120, its bitrate
/// between 1000 and 100000, and its folder on one of the two drives; there is one complaint for
/// each that does not, in this order.
pub proof fn a_sound_configuration_has_no_complaints(config: BsrConfig)
    ensures
        ({
            let folder = config.output.output_folder@;
            let rate = 10 <= config.capture.fps <= 120;
            let bits = 1000 <= config.encoder.bitrate_kbps <= 100_000;
            let drive = folder.len() >= 3 && (folder[0] == 'C' || folder[0] == 'D') && folder[1]
                == ':' && folder[2] == '/';
            let c = complaints(config);
            let second: int = if rate { 0 } else { 1 };
            let third = if bits { second } else { second + 1 };
            &&& c.len() == (if drive { third } else { third + 1 })
            &&& !rate ==> c[0] == "FPS must be between 10 and 120"@
            &&& !bits ==> c[second] == "Bitrate must be between 1000 and 100000 kbps"@
            &&& !drive ==> c[third] == "Output folder must be on C:/ or D:/"@
        }),
{
    reveal_strlit("C:/");
    reveal_strlit("D:/");
    let folder = config.output.output_folder@;
    if folder.len() >= 3 {
        let front = folder.subrange(0, 3);
        assert(front[0] == folder[0] && front[1] == folder[1] && front[2] == folder[2]);
        if folder[1] == ':' && folder[2] == '/' {
            if folder[0] == 'C' {
                assert(front =~= "C:/"@);
            }
            if folder[0] == 'D' {
                assert(front =~= "D:/"@);
            }
        }
    }
}

/// A path is foreign to Unix exactly where it is blank, has a backslash in it, or begins with a
/// letter and a colon.
pub proof fn a_foreign_path_is_one_of_windows(p: Seq<char>, i: int)
    ensures
        0 <= i < p.len() && p[i] == '\\' ==> foreign(p),
        p.len() >= 2 && p[1] == ':' && (65 <= p[0] as u32 <= 90 || 97 <= p[0] as u32 <= 122)
            ==> foreign(p),
        (forall|k: int| 0 <= k < p.len() ==> is_white(#[trigger] p[k])) ==> foreign(p),
        foreign(p) && 0 <= i < p.len() && !is_white(p[i]) && !(p.len() >= 2 && p[1] == ':' && (65
            <= p[0] as u32 <= 90 || 97 <= p[0] as u32 <= 122)) ==> (exists|k: int|
            0 <= k < p.len() && #[trigger] p[k] == '\\'),
{
    if forall|k: int| 0 <= k < p.len() ==> is_white(#[trigger] p[k]) {
        stripping_takes_off_the_ends_alone(p, Edge::White);
        let t = trimmed(p);
        if t.len() > 0 {
            let (from, to) = choose|from: int, to: int|
                0 <= from <= to <= p.len() && t == #[trigger] p.subrange(from, to);
            assert(t[0] == p[from]);
        }
    }
    if 0 <= i < p.len() && !is_white(p[i]) {
        lemma_trimmed_keeps(p, i);
    }
    if p.contains('\\') {
        let k = choose|k: int| 0 <= k < p.len() && p[k] == '\\';
        assert(0 <= k < p.len() && p[k] == '\\');
    }
}

/// Recordings go into `Videos/BSR Recordings` in the home directory, which is what `HOME` names or
/// else `USERPROFILE`; without one, into `BSR Recordings` in the directory for temporary files. A
/// usable folder is left alone by a repair, and a foreign one becomes that one.
pub proof fn a_foreign_folder_gives_way_to_the_default(folder: Seq<char>, env: Environment)
    ensures
        env.home matches Some(h) ==> home_path(env) == Some(h@),
        env.home is None ==> home_path(env) == opt_text(env.user_profile),
        home_path(env) matches Some(h) ==> (h.len() > 0 && h.last() != '/' ==> default_folder(env)
            == h + "/Videos/BSR Recordings"@),
        home_path(env) is None && env.temp_dir@.len() > 0 && env.temp_dir@.last() != '/'
            ==> default_folder(env) == env.temp_dir@ + "/BSR Recordings"@,
        foreign(folder) ==> repaired_folder(folder, env) == default_folder(env),
        !foreign(folder) ==> repaired_folder(folder, env) == folder,
{
    reveal_strlit("Videos");
    reveal_strlit("BSR Recordings");
    reveal_strlit("/Videos/BSR Recordings");
    reveal_strlit("/BSR Recordings");
    match home_path(env) {
        Some(h) => {
            if h.len() > 0 && h.last() != '/' {
                assert(joined(h, "Videos"@).last() == 's');
                assert(default_folder(env) =~= h + "/Videos/BSR Recordings"@);
            }
        },
        None => {
            let t = env.temp_dir@;
            if t.len() > 0 && t.last() != '/' {
                assert(default_folder(env) =~= t + "/BSR Recordings"@);
            }
        },
    }
}

/// The packaged configuration lies in `config/bsr-config.toml` beside the executable.
pub proof fn the_packaged_configuration_lies_beside_the_executable(exe_dir: Seq<char>)
    requires
        exe_dir.len() > 0,
        exe_dir.last() != '/',
    ensures
        packaged_config(exe_dir) == exe_dir + "/config/bsr-config.toml"@,
{
    reveal_strlit("config");
    reveal_strlit("bsr-config.toml");
    reveal_strlit("/config/bsr-config.toml");
    assert(joined(exe_dir, "config"@).last() == 'g');
    assert(packaged_config(exe_dir) =~= exe_dir + "/config/bsr-config.toml"@);
}

} // verus!
