//! The settings of the recorder window, above all the record space.
use vstd::prelude::*;
use vstd::string::*;

use crate::capture::{is_crop, CaptureFrame};
use crate::clock::Span;
use crate::config::{
    default_base, foreign, home_dir, home_path, lemma_joined_stays_usable, CaptureRegion,
    Environment,
};
use crate::encode::EncoderConfig;
use crate::ipc::{FileNamingStrategy, MuxerConfig};
use crate::path::{absolute, join, joined};
use crate::text::{
    a_size_reads_back_as_it_was_written, a_text_without_a_cross_names_no_size, dec, parse_size_pair,
    size_pair,
};

verus! {

#[derive(Debug, Clone, Copy, PartialEq, Eq, Structural)]
pub enum FileNamingStrategyUi {
    Simple,
    TimestampedFile,
    TimestampedFolder,
}

/// Which corner of the record space a click is about to place.
#[derive(Debug, Clone, Copy, PartialEq, Eq, Structural)]
pub enum Corner {
    TopLeft,
    TopRight,
    BottomLeft,
    BottomRight,
}

impl Corner {
    pub open spec fn name(self) -> Seq<char> {
        match self {
            Corner::TopLeft => "top-left"@,
            Corner::TopRight => "top-right"@,
            Corner::BottomLeft => "bottom-left"@,
            Corner::BottomRight => "bottom-right"@,
        }
    }

    pub fn label(self) -> (r: &'static str)
        ensures
            r@ == self.name(),
    {
        match self {
            Corner::TopLeft => "top-left",
            Corner::TopRight => "top-right",
            Corner::BottomLeft => "bottom-left",
            Corner::BottomRight => "bottom-right",
        }
    }
}

/// The settings. The record space is held as insets: how many pixels each edge is pulled
/// inward. All zero records the full screen.
#[derive(Debug, Clone, PartialEq, Eq)]
pub struct UiSettings {
    pub resolution: String,
    pub fps: u32,
    pub output_folder: String,
    pub file_naming_strategy: FileNamingStrategyUi,
    pub crop_left: u32,
    pub crop_top: u32,
    pub crop_right: u32,
    pub crop_bottom: u32,
    /// Keep the window itself out of the recording.
    pub minimize_while_recording: bool,
    /// x264 preset that the encoder runs with.
    pub preset: String,
    /// Target bitrate in kbit/s.
    pub bitrate_kbps: u32,
}

/// Where recordings are written by default: `Videos/BSR` in the home directory, or `BSR` in
/// the directory for temporary files.
pub open spec fn recordings_folder(env: Environment) -> Seq<char> {
    match home_path(env) {
        Some(h) => joined(joined(h, "Videos"@), "BSR"@),
        None => joined(env.temp_dir@, "BSR"@),
    }
}

/// Where recordings are written by default.
pub fn default_output_folder(env: &Environment) -> (r: String)
    ensures
        r@ == recordings_folder(*env),
{
    match home_dir(env) {
        Some(h) => {
            let videos = join(h.as_str(), "Videos");
            join(videos.as_str(), "BSR")
        },
        None => join(env.temp_dir.as_str(), "BSR"),
    }
}

/// Where the base directory is usable on this platform, so is the folder for recordings; it is
/// absolute where the base is.
pub proof fn recordings_folder_is_usable(env: Environment)
    requires
        !foreign(default_base(env)),
    ensures
        !foreign(recordings_folder(env)),
        absolute(default_base(env)) ==> absolute(recordings_folder(env)),
{
    reveal_strlit("Videos");
    reveal_strlit("BSR");
    let base = default_base(env);
    if home_path(env) is Some {
        lemma_joined_stays_usable(base, "Videos"@);
        lemma_joined_stays_usable(joined(base, "Videos"@), "BSR"@);
    } else {
        lemma_joined_stays_usable(base, "BSR"@);
    }
}

/// This is the encoder configuration that a recording of this size runs with.
pub open spec fn encodes_with(
    settings: UiSettings,
    width: u32,
    height: u32,
    r: EncoderConfig,
) -> bool {
    &&& r.codec@ == "h264"@
    &&& r.preset == settings.preset
    &&& r.bitrate_kbps == settings.bitrate_kbps
    &&& r.width == width
    &&& r.height == height
    &&& r.fps == settings.fps
}

/// The encoder configuration that a recording of this size runs with.
pub fn encoder_config_for(settings: &UiSettings, width: u32, height: u32) -> (r: EncoderConfig)
    ensures
        encodes_with(*settings, width, height, r),
{
    EncoderConfig {
        codec: String::from_str("h264"),
        preset: settings.preset.clone(),
        bitrate_kbps: settings.bitrate_kbps,
        width,
        height,
        fps: settings.fps,
    }
}

/// A coordinate as a region holds it: one that is out of reach becomes the nearest that is not.
pub open spec fn pixel(v: int) -> i32 {
    if v > i32::MAX {
        i32::MAX
    } else if v < i32::MIN {
        i32::MIN
    } else {
        v as i32
    }
}

fn to_pixel(v: i64) -> (r: i32)
    ensures
        r == pixel(v as int),
{
    if v > i32::MAX as i64 {
        i32::MAX
    } else if v < i32::MIN as i64 {
        i32::MIN
    } else {
        v as i32
    }
}

/// The region between four edges: left, top, right, bottom.
pub open spec fn region_between(e: (int, int, int, int)) -> CaptureRegion {
    CaptureRegion { x1: pixel(e.0), y1: pixel(e.1), x2: pixel(e.2), y2: pixel(e.3) }
}

/// The insets that leave a rectangle of the screen, given by left edge, top edge, width and
/// height; none where there is no rectangle.
pub open spec fn insets_of(rect: Option<(u32, u32, u32, u32)>, screen: (u32, u32)) -> (
    u32,
    u32,
    u32,
    u32,
) {
    match rect {
        Some((x, y, w, h)) => (
            x,
            y,
            (screen.0 - (x + w)) as u32,
            (screen.1 - (y + h)) as u32,
        ),
        None => (0, 0, 0, 0),
    }
}

impl UiSettings {
    /// Everything at its default for a process with the environment `env`.
    pub open spec fn is_default_in(self, env: Environment) -> bool {
        &&& self.resolution@ == "1920x1080"@
        &&& self.fps == 60
        &&& self.output_folder@ == recordings_folder(env)
        &&& self.file_naming_strategy == FileNamingStrategyUi::Simple
        &&& self.crop_left == 0 && self.crop_top == 0 && self.crop_right == 0 && self.crop_bottom
            == 0
        &&& self.minimize_while_recording
        &&& self.preset@ == "fast"@
        &&& self.bitrate_kbps == 8000
    }

    /// The defaults for a process with the environment `env`.
    pub fn default_in(env: &Environment) -> (r: Self)
        ensures
            r.is_default_in(*env),
            r.screen() == (1920u32, 1080u32),
    {
        let encoder = EncoderConfig::default();
        let r = UiSettings {
            resolution: String::from_str("1920x1080"),
            fps: 60,
            output_folder: default_output_folder(env),
            file_naming_strategy: FileNamingStrategyUi::Simple,
            crop_left: 0,
            crop_top: 0,
            crop_right: 0,
            crop_bottom: 0,
            minimize_while_recording: true,
            preset: encoder.preset,
            bitrate_kbps: encoder.bitrate_kbps,
        };
        proof {
            lemma_default_resolution();
        }
        r
    }

    /// The size of the screen: that of the setting, or 1920 by 1080 where it names none.
    pub open spec fn screen(self) -> (u32, u32) {
        match size_pair(self.resolution@) {
            Some(size) => size,
            None => (1920, 1080),
        }
    }

    /// The full screen size, parsed from the `WIDTHxHEIGHT` setting.
    pub fn screen_size(&self) -> (r: (u32, u32))
        ensures
            r == self.screen(),
    {
        match parse_size_pair(self.resolution.as_str()) {
            Some(size) => size,
            None => (1920, 1080),
        }
    }

    /// Is any edge pulled inward?
    pub open spec fn has_insets(self) -> bool {
        self.crop_left != 0 || self.crop_top != 0 || self.crop_right != 0 || self.crop_bottom != 0
    }

    /// The edges that the insets leave: left, top, right, bottom.
    pub open spec fn edges(self) -> (int, int, int, int) {
        (
            self.crop_left as int,
            self.crop_top as int,
            self.screen().0 - self.crop_right,
            self.screen().1 - self.crop_bottom,
        )
    }

    /// The region that the insets leave; none where they leave the full screen or nothing.
    pub open spec fn region(self) -> Option<CaptureRegion> {
        let r = region_between(self.edges());
        if !self.has_insets() || r.x1 >= r.x2 || r.y1 >= r.y2 {
            None
        } else {
            Some(r)
        }
    }

    /// The crop insets as an absolute region, or `None` for "record everything".
    ///
    /// Opposing trims that meet or cross leave nothing. That is decided here: a region with
    /// its corners exchanged would be taken for the mirrored rectangle.
    pub fn to_capture_region(&self) -> (r: Option<CaptureRegion>)
        ensures
            r == self.region(),
    {
        if !self.has_crop_insets() {
            return None;
        }
        let (w, h) = self.screen_size();
        let region = CaptureRegion {
            x1: to_pixel(self.crop_left as i64),
            y1: to_pixel(self.crop_top as i64),
            x2: to_pixel(w as i64 - self.crop_right as i64),
            y2: to_pixel(h as i64 - self.crop_bottom as i64),
        };
        if region.x1 >= region.x2 || region.y1 >= region.y2 {
            return None;
        }
        Some(region)
    }

    /// The insets: left, top, right, bottom.
    pub open spec fn insets(self) -> (u32, u32, u32, u32) {
        (self.crop_left, self.crop_top, self.crop_right, self.crop_bottom)
    }

    /// The settings with a region adopted as insets; `None` restores the full screen.
    pub open spec fn with_region(self, region: Option<CaptureRegion>) -> UiSettings {
        let (w, h) = self.screen();
        let rect = match region {
            Some(r) => r.resolved(w, h),
            None => None,
        };
        match rect {
            Some((x, y, cw, ch)) => UiSettings {
                crop_left: x,
                crop_top: y,
                crop_right: (w - (x + cw)) as u32,
                crop_bottom: (h - (y + ch)) as u32,
                ..self
            },
            None => UiSettings { crop_left: 0, crop_top: 0, crop_right: 0, crop_bottom: 0, ..self },
        }
    }

    /// Adopts an absolute region as insets. `None` restores the full screen.
    ///
    /// What is stored is the region as it will be recorded: its corners in order, inside the
    /// screen, and an even number of pixels apart.
    pub fn set_capture_region(&mut self, region: Option<CaptureRegion>)
        ensures
            *final(self) == old(self).with_region(region),
            match region {
                Some(r) => final(self).insets() == insets_of(
                    r.clipped(old(self).screen().0, old(self).screen().1),
                    old(self).screen(),
                ),
                None => final(self).insets() == (0u32, 0u32, 0u32, 0u32),
            },
            final(self).screen() == old(self).screen(),
    {
        proof {
            reveal(CaptureRegion::resolved);
        }
        let (w, h) = self.screen_size();
        let rect = match region {
            Some(r) => r.resolve(w, h),
            None => None,
        };
        match rect {
            Some((x, y, cw, ch)) => {
                self.crop_left = x;
                self.crop_top = y;
                self.crop_right = w - (x + cw);
                self.crop_bottom = h - (y + ch);
            },
            None => {
                self.crop_left = 0;
                self.crop_top = 0;
                self.crop_right = 0;
                self.crop_bottom = 0;
            },
        }
    }

    /// The edges with one corner moved to a point: left, top, right, bottom.
    pub open spec fn edges_with_corner(self, corner: Corner, x: u32, y: u32) -> (
        int,
        int,
        int,
        int,
    ) {
        let (left, top, right, bottom) = self.edges();
        match corner {
            Corner::TopLeft => (x as int, y as int, right, bottom),
            Corner::TopRight => (left, y as int, x as int, bottom),
            Corner::BottomLeft => (x as int, top, right, y as int),
            Corner::BottomRight => (left, top, x as int, y as int),
        }
    }

    /// The region with one corner moved to a point.
    pub open spec fn region_with_corner(self, corner: Corner, x: u32, y: u32) -> CaptureRegion {
        region_between(self.edges_with_corner(corner, x, y))
    }

    /// A corner can be moved there: it stays on its own side, and something is left to record.
    #[verifier::opaque]
    pub open spec fn corner_fits(self, corner: Corner, x: u32, y: u32) -> bool {
        let (w, h) = self.screen();
        let (left, top, right, bottom) = self.edges_with_corner(corner, x, y);
        left < right && top < bottom && self.region_with_corner(corner, x, y).resolved(w, h) is Some
    }

    /// The settings with a corner moved there, where it can be.
    #[verifier::opaque]
    pub open spec fn with_corner(self, corner: Corner, x: u32, y: u32) -> UiSettings {
        if self.corner_fits(corner, x, y) {
            self.with_region(Some(self.region_with_corner(corner, x, y)))
        } else {
            self
        }
    }

    /// Moves one corner of the record space to a point on the screen, in physical pixels.
    ///
    /// Each corner drives the two edges that it touches. Returns `false` and changes nothing if
    /// the result would be unusable: dragging the top-left corner past the bottom-right must
    /// not throw away the other corner.
    pub fn set_corner(&mut self, corner: Corner, x: u32, y: u32) -> (r: bool)
        ensures
            r == old(self).corner_fits(corner, x, y),
            ({
                let (left, top, right, bottom) = old(self).edges_with_corner(corner, x, y);
                let rect = region_between((left, top, right, bottom)).clipped(
                    old(self).screen().0,
                    old(self).screen().1,
                );
                &&& r == (left < right && top < bottom && rect is Some)
                &&& r ==> final(self).insets() == insets_of(rect, old(self).screen())
            }),
            *final(self) == old(self).with_corner(corner, x, y),
            !r ==> *final(self) == *old(self),
            final(self).screen() == old(self).screen(),
    {
        let (w, h) = self.screen_size();
        proof {
            reveal(UiSettings::corner_fits);
            reveal(UiSettings::with_corner);
        }
        let mut x1: i64 = self.crop_left as i64;
        let mut y1: i64 = self.crop_top as i64;
        let mut x2: i64 = w as i64 - self.crop_right as i64;
        let mut y2: i64 = h as i64 - self.crop_bottom as i64;
        let px: i64 = x as i64;
        let py: i64 = y as i64;
        match corner {
            Corner::TopLeft => {
                x1 = px;
                y1 = py;
            },
            Corner::TopRight => {
                x2 = px;
                y1 = py;
            },
            Corner::BottomLeft => {
                x1 = px;
                y2 = py;
            },
            Corner::BottomRight => {
                x2 = px;
                y2 = py;
            },
        }
        if x1 >= x2 || y1 >= y2 {
            return false;
        }
        let candidate = CaptureRegion {
            x1: to_pixel(x1),
            y1: to_pixel(y1),
            x2: to_pixel(x2),
            y2: to_pixel(y2),
        };
        if candidate.resolve(w, h).is_none() {
            return false;
        }
        self.set_capture_region(Some(candidate));
        true
    }

    /// Has any trim been asked for, usable or not?
    pub fn has_crop_insets(&self) -> (r: bool)
        ensures
            r == self.has_insets(),
    {
        self.crop_left != 0 || self.crop_top != 0 || self.crop_right != 0 || self.crop_bottom != 0
    }

    /// The size of what is recorded.
    pub open spec fn recorded(self) -> (u32, u32) {
        let (w, h) = self.screen();
        match self.region() {
            Some(r) => match r.resolved(w, h) {
                Some((_, _, cw, ch)) => (cw, ch),
                None => (w, h),
            },
            None => (w, h),
        }
    }

    /// The dimensions that the recording will have, after cropping. Encoder and muxer are both
    /// built for this size.
    pub fn recording_size(&self) -> (r: (u32, u32))
        ensures
            r == self.recorded(),
            match self.region() {
                Some(region) => match region.clipped(self.screen().0, self.screen().1) {
                    Some((_, _, w, h)) => r == (w, h),
                    None => r == self.screen(),
                },
                None => r == self.screen(),
            },
    {
        let (w, h) = self.screen_size();
        match self.to_capture_region() {
            Some(region) => match region.resolve(w, h) {
                Some((_, _, cw, ch)) => (cw, ch),
                None => (w, h),
            },
            None => (w, h),
        }
    }

    /// This is the muxer configuration of a recording with these settings.
    pub open spec fn muxes_with(self, r: MuxerConfig) -> bool {
        &&& r.base_output_path == self.output_folder
        &&& match self.file_naming_strategy {
            FileNamingStrategyUi::Simple => r.file_naming_strategy matches FileNamingStrategy::Simple(
                name,
            ) && name@ == "recording.mp4"@,
            FileNamingStrategyUi::TimestampedFile => r.file_naming_strategy is TimestampedFile,
            FileNamingStrategyUi::TimestampedFolder => r.file_naming_strategy is TimestampedFolder,
        }
        &&& r.max_duration == (Span { secs: 18000, nanos: 0 })
        &&& r.fps == self.fps
        &&& (r.width, r.height) == self.recorded()
    }

    /// The muxer configuration of a recording with these settings.
    pub fn to_muxer_config(&self) -> (r: MuxerConfig)
        ensures
            self.muxes_with(r),
    {
        let strategy = match self.file_naming_strategy {
            FileNamingStrategyUi::Simple => FileNamingStrategy::Simple(
                String::from_str("recording.mp4"),
            ),
            FileNamingStrategyUi::TimestampedFile => FileNamingStrategy::TimestampedFile,
            FileNamingStrategyUi::TimestampedFolder => FileNamingStrategy::TimestampedFolder,
        };
        let (width, height) = self.recording_size();
        MuxerConfig {
            base_output_path: self.output_folder.clone(),
            file_naming_strategy: strategy,
            max_duration: Span::from_secs(18000),
            fps: self.fps,
            width,
            height,
        }
    }
}

proof fn lemma_default_resolution()
    ensures
        size_pair("1920x1080"@) == Some((1920u32, 1080u32)),
{
    reveal(size_pair);
    reveal_strlit("1920x1080");
    let s = "1920x1080"@;
    reveal_with_fuel(crate::text::cross_from, 6);
    assert(crate::text::cross_from(s, 0) == 4);
    let w = s.subrange(0, 4);
    let h = s.subrange(5, 9);
    assert(w =~= seq!['1', '9', '2', '0']);
    assert(h =~= seq!['1', '0', '8', '0']);
    assert(crate::text::trimmed(w) =~= w) by {
        reveal_with_fuel(crate::text::strip_front, 2);
        reveal_with_fuel(crate::text::strip_back, 2);
    }
    assert(crate::text::trimmed(h) =~= h) by {
        reveal_with_fuel(crate::text::strip_front, 2);
        reveal_with_fuel(crate::text::strip_back, 2);
    }
    assert(crate::text::digits_value(w) == 1920) by {
        reveal_with_fuel(crate::text::digits_value, 5);
        assert(w.drop_last() =~= seq!['1', '9', '2']);
        assert(w.drop_last().drop_last() =~= seq!['1', '9']);
        assert(w.drop_last().drop_last().drop_last() =~= seq!['1']);
        assert(w.drop_last().drop_last().drop_last().drop_last() =~= Seq::<char>::empty());
    }
    assert(crate::text::digits_value(h) == 1080) by {
        reveal_with_fuel(crate::text::digits_value, 5);
        assert(h.drop_last() =~= seq!['1', '0', '8']);
        assert(h.drop_last().drop_last() =~= seq!['1', '0']);
        assert(h.drop_last().drop_last().drop_last() =~= seq!['1']);
        assert(h.drop_last().drop_last().drop_last().drop_last() =~= Seq::<char>::empty());
    }
}

/// A region that is set is the region that is recorded: reading it back gives the same
/// rectangle of the screen, unless it is the full screen, which reads back as none.
pub proof fn a_record_space_reads_back_as_it_was_set(s: UiSettings, region: CaptureRegion)
    ensures
        match region.resolved(s.screen().0, s.screen().1) {
            Some((x, y, w, h)) => {
                let after = s.with_region(Some(region));
                &&& after.recorded() == (w, h)
                &&& if (x, y, w, h) == (0u32, 0u32, s.screen().0, s.screen().1) {
                    after.region() is None
                } else {
                    after.region() == Some(
                        CaptureRegion {
                            x1: x as i32,
                            y1: y as i32,
                            x2: (x + w) as i32,
                            y2: (y + h) as i32,
                        },
                    )
                }
            },
            None => s.with_region(Some(region)).region() is None && s.with_region(
                Some(region),
            ).recorded() == s.screen(),
        },
{
    reveal(CaptureRegion::resolved);
}

/// A region that needs no adjustment reads back exactly as it was given.
pub proof fn an_exact_record_space_does_not_drift(s: UiSettings, region: CaptureRegion)
    requires
        0 <= region.x1 < region.x2 <= s.screen().0,
        0 <= region.y1 < region.y2 <= s.screen().1,
        (region.x2 - region.x1) % 2 == 0,
        (region.y2 - region.y1) % 2 == 0,
        region.x1 != 0 || region.y1 != 0 || region.x2 != s.screen().0 || region.y2 != s.screen().1,
    ensures
        s.with_region(Some(region)).region() == Some(region),
        s.with_region(Some(region)).with_region(Some(region)) == s.with_region(Some(region)),
{
    reveal(CaptureRegion::resolved);
}

/// No region restores the full screen.
pub proof fn no_region_restores_the_full_screen(s: UiSettings)
    ensures
        !s.with_region(None).has_insets(),
        s.with_region(None).region() is None,
        s.with_region(None).recorded() == s.screen(),
{
}

/// Whatever the insets, the recording fits on the screen, and it is the full screen or has an
/// even size of at least two by two.
pub proof fn a_recording_fits_the_screen(s: UiSettings)
    ensures
        s.recorded().0 <= s.screen().0,
        s.recorded().1 <= s.screen().1,
        s.recorded() == s.screen() || (s.recorded().0 >= 2 && s.recorded().0 % 2 == 0
            && s.recorded().1 >= 2 && s.recorded().1 % 2 == 0),
{
    reveal(CaptureRegion::resolved);
}

/// Insets that meet or cross record the full screen, not nothing.
pub proof fn overlapping_insets_record_the_full_screen(s: UiSettings)
    requires
        s.crop_left + s.crop_right >= s.screen().0 || s.crop_top + s.crop_bottom >= s.screen().1,
    ensures
        s.region() is None,
        s.recorded() == s.screen(),
{
}

/// The size that the settings predict is the size of the frames that capture delivers from a
/// full screen, so the encoder and the container, built for the predicted size, fit them.
pub proof fn the_predicted_size_is_the_captured_size(
    s: UiSettings,
    frame: CaptureFrame,
    out: CaptureFrame,
)
    requires
        frame.width == s.screen().0,
        frame.height == s.screen().1,
        frame.data@.len() >= frame.width * 4 * frame.height,
        match s.region() {
            Some(region) => is_crop(out, frame, region),
            None => out == frame,
        },
    ensures
        (out.width, out.height) == s.recorded(),
{
}

/// Moving a corner moves only the two edges that it touches, if it stays an even number of
/// pixels from the opposite corner.
pub proof fn a_corner_moves_only_its_own_edges(s: UiSettings, corner: Corner, x: u32, y: u32)
    requires
        s.corner_fits(corner, x, y),
        s.crop_left < s.screen().0,
        s.crop_top < s.screen().1,
        s.crop_right <= s.screen().0,
        s.crop_bottom <= s.screen().1,
        x <= s.screen().0 <= i32::MAX,
        y <= s.screen().1 <= i32::MAX,
        (s.region_with_corner(corner, x, y).x2 - s.region_with_corner(corner, x, y).x1) % 2 == 0,
        (s.region_with_corner(corner, x, y).y2 - s.region_with_corner(corner, x, y).y1) % 2 == 0,
    ensures
        ({
            let after = s.with_corner(corner, x, y);
            let left = corner is TopLeft || corner is BottomLeft;
            let top = corner is TopLeft || corner is TopRight;
            &&& after.crop_left == (if left { x } else { s.crop_left })
            &&& after.crop_right == (if left { s.crop_right } else { (s.screen().0 - x) as u32 })
            &&& after.crop_top == (if top { y } else { s.crop_top })
            &&& after.crop_bottom == (if top { s.crop_bottom } else { (s.screen().1 - y) as u32 })
        }),
{
    reveal(CaptureRegion::resolved);
    reveal(UiSettings::corner_fits);
    reveal(UiSettings::with_corner);
}

/// A corner that is moved onto or past its opposite is refused, however far, and the settings
/// stay as they are.
pub proof fn a_corner_past_its_opposite_is_refused(s: UiSettings, corner: Corner, x: u32, y: u32)
    requires
        match corner {
            Corner::TopLeft => x >= s.edges().2 || y >= s.edges().3,
            Corner::TopRight => x <= s.edges().0 || y >= s.edges().3,
            Corner::BottomLeft => x >= s.edges().2 || y <= s.edges().1,
            Corner::BottomRight => x <= s.edges().0 || y <= s.edges().1,
        },
    ensures
        !s.corner_fits(corner, x, y),
        s.with_corner(corner, x, y) == s,
{
    reveal(UiSettings::corner_fits);
    reveal(UiSettings::with_corner);
}

/// What the insets leave of the screen is what is recorded, one pixel less each way where that is
/// odd. Without insets, and where they leave fewer than two pixels either way, that is the full
/// screen.
pub proof fn the_insets_leave_what_is_recorded(s: UiSettings)
    requires
        s.screen().0 <= i32::MAX,
        s.screen().1 <= i32::MAX,
    ensures
        ({
            let across = s.screen().0 - s.crop_left - s.crop_right;
            let down = s.screen().1 - s.crop_top - s.crop_bottom;
            let none = s.crop_left + s.crop_top + s.crop_right + s.crop_bottom == 0;
            &&& s.has_insets() == !none
            &&& match s.region() {
                Some(r) => {
                    &&& !none && across > 0 && down > 0
                    &&& r.x1 == s.crop_left && r.y1 == s.crop_top
                    &&& r.x2 == s.screen().0 - s.crop_right
                    &&& r.y2 == s.screen().1 - s.crop_bottom
                },
                None => none || across <= 0 || down <= 0,
            }
            &&& if none || across < 2 || down < 2 {
                s.recorded() == s.screen()
            } else {
                &&& s.recorded().0 == across - across % 2
                &&& s.recorded().1 == down - down % 2
            }
        }),
{
    reveal(CaptureRegion::resolved);
}

/// A region that is adopted is what the insets then leave: its left and upper edges, the nearest
/// points of the screen where they lie outside, and from there the pixels up to the other two, one
/// less where that is odd. A region of fewer than two pixels either way leaves the full screen.
/// Nothing but the insets changes.
pub proof fn an_adopted_region_becomes_the_insets(s: UiSettings, region: CaptureRegion)
    ensures
        ({
            let (sw, sh) = (s.screen().0 as int, s.screen().1 as int);
            let (x1, x2) = (region.x1 as int, region.x2 as int);
            let (y1, y2) = (region.y1 as int, region.y2 as int);
            let (l, r) = if x1 <= x2 { (x1, x2) } else { (x2, x1) };
            let (t, b) = if y1 <= y2 { (y1, y2) } else { (y2, y1) };
            let left = if l < 0 { 0 } else if l > sw { sw } else { l };
            let right = if r < 0 { 0 } else if r > sw { sw } else { r };
            let top = if t < 0 { 0 } else if t > sh { sh } else { t };
            let bottom = if b < 0 { 0 } else if b > sh { sh } else { b };
            let after = s.with_region(Some(region));
            &&& after == (UiSettings {
                crop_left: after.crop_left,
                crop_top: after.crop_top,
                crop_right: after.crop_right,
                crop_bottom: after.crop_bottom,
                ..s
            })
            &&& if right - left >= 2 && bottom - top >= 2 {
                &&& after.crop_left == left && after.crop_top == top
                &&& after.crop_right == sw - right + (right - left) % 2
                &&& after.crop_bottom == sh - bottom + (bottom - top) % 2
            } else {
                after.crop_left + after.crop_top + after.crop_right + after.crop_bottom == 0
            }
        }),
{
    reveal(CaptureRegion::resolved);
}

/// A corner that is moved takes its two edges along and leaves the other two, up to one pixel on
/// the right and below where what is left would be odd. It is moved exactly where at least two
/// pixels are left each way; else everything stays.
pub proof fn a_moved_corner_takes_its_edges_along(s: UiSettings, corner: Corner, x: u32, y: u32)
    requires
        s.crop_left <= s.screen().0 <= i32::MAX,
        s.crop_top <= s.screen().1 <= i32::MAX,
        s.crop_right <= s.screen().0,
        s.crop_bottom <= s.screen().1,
        x <= s.screen().0,
        y <= s.screen().1,
    ensures
        ({
            let (sw, sh) = (s.screen().0 as int, s.screen().1 as int);
            let at_left = corner is TopLeft || corner is BottomLeft;
            let at_top = corner is TopLeft || corner is TopRight;
            let left = if at_left { x as int } else { s.crop_left as int };
            let right = if at_left { sw - s.crop_right } else { x as int };
            let top = if at_top { y as int } else { s.crop_top as int };
            let bottom = if at_top { sh - s.crop_bottom } else { y as int };
            let after = s.with_corner(corner, x, y);
            &&& s.corner_fits(corner, x, y) == (right - left >= 2 && bottom - top >= 2)
            &&& !s.corner_fits(corner, x, y) ==> after == s
            &&& s.corner_fits(corner, x, y) ==> after == (UiSettings {
                crop_left: left as u32,
                crop_top: top as u32,
                crop_right: (sw - right + (right - left) % 2) as u32,
                crop_bottom: (sh - bottom + (bottom - top) % 2) as u32,
                ..s
            })
        }),
{
    reveal(CaptureRegion::resolved);
    reveal(UiSettings::corner_fits);
    reveal(UiSettings::with_corner);
}

/// The encoder and the muxer of a recording run with what the settings say, for the same size and
/// at the same rate; the file goes into the output folder, for five hours at most.
pub proof fn encoder_and_muxer_run_with_the_settings(
    s: UiSettings,
    encoder: EncoderConfig,
    muxer: MuxerConfig,
)
    requires
        encodes_with(s, s.recorded().0, s.recorded().1, encoder),
        s.muxes_with(muxer),
    ensures
        encoder.width == muxer.width && encoder.height == muxer.height,
        (muxer.width, muxer.height) == s.recorded(),
        encoder.fps == s.fps && muxer.fps == s.fps,
        encoder.bitrate_kbps == s.bitrate_kbps,
        encoder.preset@ == s.preset@,
        muxer.base_output_path@ == s.output_folder@,
        muxer.max_duration.secs * 1_000_000_000 + muxer.max_duration.nanos == 5 * 3600
            * 1_000_000_000,
        s.file_naming_strategy is TimestampedFile <==> muxer.file_naming_strategy is TimestampedFile,
        s.file_naming_strategy is TimestampedFolder <==> muxer.file_naming_strategy
            is TimestampedFolder,
{
}

/// The screen has the size that the setting writes, and 1920 by 1080 where it writes none.
pub proof fn the_screen_has_the_size_of_the_setting(s: UiSettings, w: u32, h: u32)
    ensures
        s.resolution@ == dec(w as nat) + seq!['x'] + dec(h as nat) ==> s.screen() == (w, h),
        (forall|i: int|
            0 <= i < s.resolution@.len() ==> #[trigger] s.resolution@[i] != 'x' && s.resolution@[i]
                != 'X') ==> s.screen() == (1920u32, 1080u32),
{
    a_size_reads_back_as_it_was_written(w, h);
    if forall|i: int|
        0 <= i < s.resolution@.len() ==> #[trigger] s.resolution@[i] != 'x' && s.resolution@[i]
            != 'X' {
        a_text_without_a_cross_names_no_size(s.resolution@);
    }
}

} // verus!
