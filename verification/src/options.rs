//! Options of the video and GIF encoders.
use vstd::prelude::*;
use crate::codec::{EncoderPreset, HwAccel, VideoCodec};

verus! {

/// Video encoding options for export.
///
/// The frame rate is held as the decimal text handed to `ffmpeg`
/// (`-framerate` and the `fps=` filter), e.g. `"30"` or `"29.97"`.
#[derive(Debug, Clone)]
pub struct VideoEncodeOptions {
    pub width: u32,
    pub height: u32,
    pub fps: String,
    pub codec: VideoCodec,
    pub bit_rate: u64,
    pub crf: u8,
    pub preset: EncoderPreset,
    pub hwaccel: HwAccel,
    pub pixel_format: String,
    pub extra_args: Vec<String>,
}

impl Default for VideoEncodeOptions {
    fn default() -> (o: Self)
        ensures
            o.width == 1920,
            o.height == 1080,
            o.fps@ == "30"@,
            o.codec == VideoCodec::H264,
            o.bit_rate == 5_000_000,
            o.crf == 23,
            o.preset == EncoderPreset::Medium,
            o.hwaccel == HwAccel::Disabled,
            o.pixel_format@ == "yuv420p"@,
            o.extra_args@.len() == 0,
    {
        Self {
            width: 1920,
            height: 1080,
            fps: "30".to_string(),
            codec: VideoCodec::H264,
            bit_rate: 5_000_000,
            crf: 23,
            preset: EncoderPreset::Medium,
            hwaccel: HwAccel::Disabled,
            pixel_format: "yuv420p".to_string(),
            extra_args: Vec::new(),
        }
    }
}

/// GIF encoding options for export.
///
/// The frame rate is held as the decimal text handed to `ffmpeg`.
#[derive(Debug, Clone)]
pub struct GifEncodeOptions {
    pub width: u32,
    pub height: u32,
    pub fps: String,
    pub quality: String,
    pub dither: bool,
    pub loop_animation: bool,
    pub max_colors: u16,
}

impl Default for GifEncodeOptions {
    fn default() -> (o: Self)
        ensures
            o.width == 854,
            o.height == 480,
            o.fps@ == "24"@,
            o.quality@ == "standard"@,
            o.dither,
            o.loop_animation,
            o.max_colors == 256,
    {
        Self {
            width: 854,
            height: 480,
            fps: "24".to_string(),
            quality: "standard".to_string(),
            dither: true,
            loop_animation: true,
            max_colors: 256,
        }
    }
}

} // verus!
