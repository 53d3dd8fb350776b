//! Video codecs, encoder presets and hardware acceleration back ends, with
//! the names under which `ffmpeg` knows them.
use vstd::prelude::*;

verus! {

/// Video encoding format
#[derive(Debug, Clone, Copy, PartialEq, Eq, Structural)]
pub enum VideoCodec {
    H264,
    H265,
    VP9,
    AV1,
    ProRes,
    DNxHD,
}

/// Hardware acceleration back end handed to `ffmpeg -hwaccel`.
#[derive(Debug, Clone, Copy, PartialEq, Eq, Structural)]
pub enum HwAccel {
    Disabled,
    Cuda,
    Qsv,
    Vaapi,
    Amf,
}

/// The short codec name.
pub open spec fn codec_name_spec(c: VideoCodec) -> Seq<char> {
    match c {
        VideoCodec::H264 => "h264"@,
        VideoCodec::H265 => "h265"@,
        VideoCodec::VP9 => "vp9"@,
        VideoCodec::AV1 => "av1"@,
        VideoCodec::ProRes => "prores"@,
        VideoCodec::DNxHD => "dnxhd"@,
    }
}

impl VideoCodec {
    pub fn as_str(&self) -> (s: &'static str)
        ensures
            s@ == codec_name_spec(*self),
    {
        match self {
            VideoCodec::H264 => "h264",
            VideoCodec::H265 => "h265",
            VideoCodec::VP9 => "vp9",
            VideoCodec::AV1 => "av1",
            VideoCodec::ProRes => "prores",
            VideoCodec::DNxHD => "dnxhd",
        }
    }
}


/// Container file extension conventionally used for a codec.
pub open spec fn codec_extension_spec(c: VideoCodec) -> Seq<char> {
    match c {
        VideoCodec::H264 => "mp4"@,
        VideoCodec::H265 => "mp4"@,
        VideoCodec::VP9 => "webm"@,
        VideoCodec::AV1 => "mp4"@,
        VideoCodec::ProRes => "mov"@,
        VideoCodec::DNxHD => "mxf"@,
    }
}

/// The `ffmpeg` encoder that produces a codec, given the hardware
/// acceleration in use (software encoders where none applies).
pub open spec fn encoder_name_spec(c: VideoCodec, hwaccel: Option<HwAccel>) -> Seq<char> {
    match c {
        VideoCodec::H264 => match hwaccel {
            Some(HwAccel::Cuda) => "h264_nvenc"@,
            Some(HwAccel::Qsv) => "h264_qsv"@,
            Some(HwAccel::Vaapi) => "h264_vaapi"@,
            Some(HwAccel::Amf) => "h264_amf"@,
            _ => "libx264"@,
        },
        VideoCodec::H265 => match hwaccel {
            Some(HwAccel::Cuda) => "hevc_nvenc"@,
            Some(HwAccel::Qsv) => "hevc_qsv"@,
            Some(HwAccel::Vaapi) => "hevc_vaapi"@,
            Some(HwAccel::Amf) => "hevc_amf"@,
            _ => "libx265"@,
        },
        VideoCodec::VP9 => "libvpx-vp9"@,
        VideoCodec::AV1 => "libaom-av1"@,
        VideoCodec::ProRes => "prores_ks"@,
        VideoCodec::DNxHD => "dnxhd"@,
    }
}

impl VideoCodec {
    pub fn file_extension(&self) -> (s: &'static str)
        ensures
            s@ == codec_extension_spec(*self),
    {
        match self {
            VideoCodec::H264 | VideoCodec::H265 => "mp4",
            VideoCodec::VP9 => "webm",
            VideoCodec::AV1 => "mp4",
            VideoCodec::ProRes => "mov",
            VideoCodec::DNxHD => "mxf",
        }
    }

    pub fn ffmpeg_codec_name(&self, hwaccel: Option<HwAccel>) -> (s: &'static str)
        ensures
            s@ == encoder_name_spec(*self, hwaccel),
    {
        match self {
            VideoCodec::H264 => match hwaccel {
                Some(HwAccel::Cuda) => "h264_nvenc",
                Some(HwAccel::Qsv) => "h264_qsv",
                Some(HwAccel::Vaapi) => "h264_vaapi",
                Some(HwAccel::Amf) => "h264_amf",
                _ => "libx264",
            },
            VideoCodec::H265 => match hwaccel {
                Some(HwAccel::Cuda) => "hevc_nvenc",
                Some(HwAccel::Qsv) => "hevc_qsv",
                Some(HwAccel::Vaapi) => "hevc_vaapi",
                Some(HwAccel::Amf) => "hevc_amf",
                _ => "libx265",
            },
            VideoCodec::VP9 => "libvpx-vp9",
            VideoCodec::AV1 => "libaom-av1",
            VideoCodec::ProRes => "prores_ks",
            VideoCodec::DNxHD => "dnxhd",
        }
    }
}

/// Hardware acceleration only changes the encoder of H.264 and H.265;
/// every other codec is encoded by the same encoder whatever is asked for.
pub proof fn lemma_hwaccel_only_changes_h26x(c: VideoCodec, a: Option<HwAccel>, b: Option<HwAccel>)
    requires
        c != VideoCodec::H264,
        c != VideoCodec::H265,
    ensures
        encoder_name_spec(c, a) == encoder_name_spec(c, b),
{
}

/// Asking for no acceleration, or for the disabled back end, selects the
/// software encoder of every codec.
pub proof fn lemma_disabled_acceleration_is_software(c: VideoCodec)
    ensures
        encoder_name_spec(c, Some(HwAccel::Disabled)) == encoder_name_spec(c, None),
{
}

/// The name of a hardware acceleration back end as `ffmpeg -hwaccel` takes it.
pub open spec fn hwaccel_name_spec(h: HwAccel) -> Seq<char> {
    match h {
        HwAccel::Disabled => "none"@,
        HwAccel::Cuda => "cuda"@,
        HwAccel::Qsv => "qsv"@,
        HwAccel::Vaapi => "vaapi"@,
        HwAccel::Amf => "amf"@,
    }
}

impl HwAccel {
    pub fn as_str(&self) -> (s: &'static str)
        ensures
            s@ == hwaccel_name_spec(*self),
    {
        match self {
            HwAccel::Disabled => "none",
            HwAccel::Cuda => "cuda",
            HwAccel::Qsv => "qsv",
            HwAccel::Vaapi => "vaapi",
            HwAccel::Amf => "amf",
        }
    }
}

/// Encoder preset for speed vs compression trade-off
#[derive(Debug, Clone, Copy, PartialEq, Eq, Structural)]
pub enum EncoderPreset {
    UltraFast,
    SuperFast,
    VeryFast,
    Faster,
    Fast,
    Medium,
    Slow,
    Slower,
    VerySlow,
    Placebo,
}

/// The preset's name as `ffmpeg -preset` takes it.
pub open spec fn preset_name_spec(p: EncoderPreset) -> Seq<char> {
    match p {
        EncoderPreset::UltraFast => "ultrafast"@,
        EncoderPreset::SuperFast => "superfast"@,
        EncoderPreset::VeryFast => "veryfast"@,
        EncoderPreset::Faster => "faster"@,
        EncoderPreset::Fast => "fast"@,
        EncoderPreset::Medium => "medium"@,
        EncoderPreset::Slow => "slow"@,
        EncoderPreset::Slower => "slower"@,
        EncoderPreset::VerySlow => "veryslow"@,
        EncoderPreset::Placebo => "placebo"@,
    }
}

impl EncoderPreset {
    pub fn as_str(&self) -> (s: &'static str)
        ensures
            s@ == preset_name_spec(*self),
    {
        match self {
            EncoderPreset::UltraFast => "ultrafast",
            EncoderPreset::SuperFast => "superfast",
            EncoderPreset::VeryFast => "veryfast",
            EncoderPreset::Faster => "faster",
            EncoderPreset::Fast => "fast",
            EncoderPreset::Medium => "medium",
            EncoderPreset::Slow => "slow",
            EncoderPreset::Slower => "slower",
            EncoderPreset::VerySlow => "veryslow",
            EncoderPreset::Placebo => "placebo",
        }
    }
}

impl Default for EncoderPreset {
    fn default() -> (p: Self)
        ensures
            p == EncoderPreset::Medium,
    {
        EncoderPreset::Medium
    }
}

} // verus!
