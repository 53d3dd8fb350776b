use ffmpegx::{EncoderPreset, GifEncodeOptions, HwAccel, VideoCodec, VideoEncodeOptions};

#[test]
fn codec_short_names() {
    assert_eq!(VideoCodec::H264.as_str(), "h264");
    assert_eq!(VideoCodec::H265.as_str(), "h265");
    assert_eq!(VideoCodec::VP9.as_str(), "vp9");
    assert_eq!(VideoCodec::AV1.as_str(), "av1");
    assert_eq!(VideoCodec::ProRes.as_str(), "prores");
    assert_eq!(VideoCodec::DNxHD.as_str(), "dnxhd");
}

#[test]
fn codec_file_extensions() {
    assert_eq!(VideoCodec::H264.file_extension(), "mp4");
    assert_eq!(VideoCodec::H265.file_extension(), "mp4");
    assert_eq!(VideoCodec::VP9.file_extension(), "webm");
    assert_eq!(VideoCodec::AV1.file_extension(), "mp4");
    assert_eq!(VideoCodec::ProRes.file_extension(), "mov");
    assert_eq!(VideoCodec::DNxHD.file_extension(), "mxf");
}

#[test]
fn encoder_names_follow_acceleration() {
    assert_eq!(VideoCodec::H264.ffmpeg_codec_name(None), "libx264");
    assert_eq!(VideoCodec::H264.ffmpeg_codec_name(Some(HwAccel::Disabled)), "libx264");
    assert_eq!(VideoCodec::H264.ffmpeg_codec_name(Some(HwAccel::Cuda)), "h264_nvenc");
    assert_eq!(VideoCodec::H264.ffmpeg_codec_name(Some(HwAccel::Qsv)), "h264_qsv");
    assert_eq!(VideoCodec::H264.ffmpeg_codec_name(Some(HwAccel::Vaapi)), "h264_vaapi");
    assert_eq!(VideoCodec::H264.ffmpeg_codec_name(Some(HwAccel::Amf)), "h264_amf");
    assert_eq!(VideoCodec::H265.ffmpeg_codec_name(None), "libx265");
    assert_eq!(VideoCodec::H265.ffmpeg_codec_name(Some(HwAccel::Cuda)), "hevc_nvenc");
    assert_eq!(VideoCodec::H265.ffmpeg_codec_name(Some(HwAccel::Qsv)), "hevc_qsv");
    assert_eq!(VideoCodec::H265.ffmpeg_codec_name(Some(HwAccel::Vaapi)), "hevc_vaapi");
    assert_eq!(VideoCodec::H265.ffmpeg_codec_name(Some(HwAccel::Amf)), "hevc_amf");
}

#[test]
fn acceleration_leaves_other_codecs_alone() {
    for h in [None, Some(HwAccel::Disabled), Some(HwAccel::Cuda), Some(HwAccel::Qsv), Some(HwAccel::Vaapi), Some(HwAccel::Amf)] {
        assert_eq!(VideoCodec::VP9.ffmpeg_codec_name(h), "libvpx-vp9");
        assert_eq!(VideoCodec::AV1.ffmpeg_codec_name(h), "libaom-av1");
        assert_eq!(VideoCodec::ProRes.ffmpeg_codec_name(h), "prores_ks");
        assert_eq!(VideoCodec::DNxHD.ffmpeg_codec_name(h), "dnxhd");
    }
}

#[test]
fn hwaccel_names() {
    assert_eq!(HwAccel::Disabled.as_str(), "none");
    assert_eq!(HwAccel::Cuda.as_str(), "cuda");
    assert_eq!(HwAccel::Qsv.as_str(), "qsv");
    assert_eq!(HwAccel::Vaapi.as_str(), "vaapi");
    assert_eq!(HwAccel::Amf.as_str(), "amf");
}

#[test]
fn preset_names_and_default() {
    let all = [
        (EncoderPreset::UltraFast, "ultrafast"),
        (EncoderPreset::SuperFast, "superfast"),
        (EncoderPreset::VeryFast, "veryfast"),
        (EncoderPreset::Faster, "faster"),
        (EncoderPreset::Fast, "fast"),
        (EncoderPreset::Medium, "medium"),
        (EncoderPreset::Slow, "slow"),
        (EncoderPreset::Slower, "slower"),
        (EncoderPreset::VerySlow, "veryslow"),
        (EncoderPreset::Placebo, "placebo"),
    ];
    for (p, name) in all {
        assert_eq!(p.as_str(), name);
    }
    assert_eq!(EncoderPreset::default(), EncoderPreset::Medium);
}

#[test]
fn video_options_default() {
    let o = VideoEncodeOptions::default();
    assert_eq!(o.width, 1920);
    assert_eq!(o.height, 1080);
    assert_eq!(o.fps, "30");
    assert_eq!(o.codec, VideoCodec::H264);
    assert_eq!(o.bit_rate, 5_000_000);
    assert_eq!(o.crf, 23);
    assert_eq!(o.preset, EncoderPreset::Medium);
    assert_eq!(o.hwaccel, HwAccel::Disabled);
    assert_eq!(o.pixel_format, "yuv420p");
    assert!(o.extra_args.is_empty());
}

#[test]
fn gif_options_default() {
    let o = GifEncodeOptions::default();
    assert_eq!(o.width, 854);
    assert_eq!(o.height, 480);
    assert_eq!(o.fps, "24");
    assert_eq!(o.quality, "standard");
    assert!(o.dither);
    assert!(o.loop_animation);
    assert_eq!(o.max_colors, 256);
}

#[test]
fn config_defaults() {
    assert_eq!(ffmpegx::DEFAULT_AUDIO_SAMPLING_RATE, 44100);
    assert_eq!(ffmpegx::GIF_MAX_FRAMES, 300);
}
