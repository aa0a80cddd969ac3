//! The description of one media-editing job.
//!
//! Fractional settings are held in thousandths of their unit (`1500` is 1.5),
//! times and durations in thousandths of a second.
use vstd::prelude::*;

verus! {

/// Color and sharpness adjustments; each magnitude in thousandths.
#[derive(Clone, Copy, Debug)]
pub struct FilterSettings {
    pub brightness: i32,
    pub contrast: i32,
    pub saturation: i32,
    pub blur: i32,
    pub sharpen: i32,
    pub gamma: i32,
    pub hue: i32,
    pub vignette: bool,
    /// 0 to 1000, scaling a quarter turn into the vignette's angle.
    pub vignette_strength: i32,
}

/// Audio adjustments; gains, levels and durations in thousandths.
#[derive(Clone, Copy, Debug)]
pub struct AudioFilterSettings {
    pub normalize: bool,
    pub target_lufs: i32,
    pub eq_enabled: bool,
    pub bass_gain: i32,
    pub mid_gain: i32,
    pub treble_gain: i32,
    pub noise_reduction: bool,
    /// 0 to 100 000 (a percentage in thousandths).
    pub noise_reduction_strength: i32,
    pub compressor_enabled: bool,
    pub compressor_threshold: i32,
    pub compressor_ratio: i32,
    pub fade_in_duration: i32,
    pub fade_out_duration: i32,
}

/// Geometric and temporal video transforms; fade durations in thousandths of
/// a second, crop insets in pixels.
#[derive(Clone, Copy, Debug)]
pub struct VideoTransformSettings {
    pub rotation: u16,
    pub crop_enabled: bool,
    pub crop_top: u32,
    pub crop_bottom: u32,
    pub crop_left: u32,
    pub crop_right: u32,
    pub flip_horizontal: bool,
    pub flip_vertical: bool,
    pub deinterlace: bool,
    pub denoise: bool,
    pub denoise_strength: u32,
    pub fade_in_duration: i32,
    pub fade_out_duration: i32,
}

/// Text drawn over the video; an empty position means the default offset 10.
#[derive(Clone, Debug)]
pub struct TextOverlay {
    pub content: String,
    pub font_size: u32,
    pub color: String,
    pub x: String,
    pub y: String,
}

/// An image composited over the video; an empty position means 0, the
/// opacity is in thousandths (1000 is opaque).
#[derive(Clone, Debug)]
pub struct ImageOverlay {
    pub path: String,
    pub x: String,
    pub y: String,
    pub opacity: i32,
}

#[derive(Clone, Debug)]
pub struct OverlaySettings {
    pub text: Option<TextOverlay>,
    pub image: Option<ImageOverlay>,
}

/// What a probe of a media file found; the duration in thousandths of a second.
#[derive(Clone, Debug)]
pub struct MediaInfo {
    pub duration: u64,
    pub width: Option<u32>,
    pub height: Option<u32>,
    pub codec: Option<String>,
    pub audio_codec: Option<String>,
    pub format: Option<String>,
    pub bitrate: Option<u64>,
}

/// One job: input and output, encoding choices, the trim window (thousandths
/// of a second within the source) and the filters to apply. `audio_volume` and
/// `playback_speed` are multipliers in thousandths.
#[derive(Clone, Debug)]
pub struct ConvertOptions {
    pub input: String,
    pub output: String,
    pub video_codec: Option<String>,
    pub audio_codec: Option<String>,
    pub crf: Option<u8>,
    pub preset: Option<String>,
    pub start_time: Option<u64>,
    pub end_time: Option<u64>,
    pub width: Option<u32>,
    pub height: Option<u32>,
    pub audio_only: bool,
    pub subtitle_path: Option<String>,
    pub merge_files: Option<Vec<String>>,
    pub filters: Option<FilterSettings>,
    pub overlays: Option<OverlaySettings>,
    pub audio_volume: Option<i32>,
    pub playback_speed: Option<i32>,
    pub export_gif: Option<bool>,
    pub extract_thumbnail: Option<bool>,
    pub hw_accel: Option<bool>,
    pub audio_filters: Option<AudioFilterSettings>,
    pub video_transform: Option<VideoTransformSettings>,
}

} // verus!
