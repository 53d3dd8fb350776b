use ffmpegx::args::{
    audio_codec_args, gif_args, gif_filter, merge_audio_args, merge_pcm_args, palette_args,
    palette_filter, pcm_encode_args, video_args, video_filter,
};
use ffmpegx::text::decimal_string;
use ffmpegx::{EncoderPreset, GifEncodeOptions, HwAccel, VideoCodec, VideoEncodeOptions};

fn strs(v: &[&str]) -> Vec<String> {
    v.iter().map(|s| s.to_string()).collect()
}

#[test]
fn decimal_texts() {
    assert_eq!(decimal_string(0), "0");
    assert_eq!(decimal_string(7), "7");
    assert_eq!(decimal_string(10), "10");
    assert_eq!(decimal_string(44100), "44100");
    assert_eq!(decimal_string(u64::MAX), u64::MAX.to_string());
}

#[test]
fn default_video_arguments() {
    let o = VideoEncodeOptions::default();
    assert_eq!(video_filter(&o), "scale=1920:1080:flags=lanczos,format=yuv420p");
    assert_eq!(
        video_args("/f/%06d.png", "/out/v.mp4", &o),
        strs(&[
            "-framerate", "30", "-i", "/f/%06d.png", "-vf",
            "scale=1920:1080:flags=lanczos,format=yuv420p", "-c:v", "libx264", "-preset",
            "medium", "-crf", "23", "-b:v", "5000000", "-y", "/out/v.mp4",
        ])
    );
}

#[test]
fn accelerated_video_arguments_with_extras() {
    let mut o = VideoEncodeOptions::default();
    o.hwaccel = HwAccel::Cuda;
    o.codec = VideoCodec::H265;
    o.bit_rate = 0;
    o.preset = EncoderPreset::Fast;
    o.crf = 18;
    o.fps = "29.97".to_string();
    o.extra_args = strs(&["-tune", "film"]);
    assert_eq!(
        video_args("in", "out.mp4", &o),
        strs(&[
            "-hwaccel", "cuda", "-framerate", "29.97", "-i", "in", "-vf",
            "scale=1920:1080:flags=lanczos,format=yuv420p", "-c:v", "hevc_nvenc", "-preset",
            "fast", "-crf", "18", "-tune", "film", "-y", "out.mp4",
        ])
    );
}

#[test]
fn prores_arguments() {
    let mut o = VideoEncodeOptions::default();
    o.codec = VideoCodec::ProRes;
    o.width = 640;
    o.height = 360;
    assert_eq!(
        video_args("in", "out.mov", &o),
        strs(&[
            "-framerate", "30", "-i", "in", "-vf", "scale=640:360:flags=lanczos,format=yuv420p",
            "-c:v", "prores_ks", "-profile:v", "3", "-b:v", "5000000", "-y", "out.mov",
        ])
    );
}

#[test]
fn dnxhd_profiles_follow_bit_rate() {
    let mut o = VideoEncodeOptions::default();
    o.codec = VideoCodec::DNxHD;
    let profile = |o: &VideoEncodeOptions| video_args("in", "out.mxf", o)[9].clone();
    o.bit_rate = 100_000_000;
    assert_eq!(profile(&o), "dnxhr_hqx");
    o.bit_rate = 99_999_999;
    assert_eq!(profile(&o), "dnxhr_hq");
    o.bit_rate = 50_000_000;
    assert_eq!(profile(&o), "dnxhr_hq");
    o.bit_rate = 49_999_999;
    assert_eq!(profile(&o), "dnxhd");
    o.bit_rate = 0;
    assert_eq!(profile(&o), "dnxhd");
    assert_eq!(
        video_args("in", "out.mxf", &o),
        strs(&[
            "-framerate", "30", "-i", "in", "-vf", "scale=1920:1080:flags=lanczos,format=yuv420p",
            "-c:v", "dnxhd", "-profile:v", "dnxhd", "-y", "out.mxf",
        ])
    );
}

#[test]
fn gif_filters() {
    let mut o = GifEncodeOptions::default();
    assert_eq!(palette_filter(&o), "fps=24,scale=854:480:flags=lanczos,palettegen=stats_mode=diff");
    assert_eq!(
        gif_filter(&o),
        "[0:v]fps=24,scale=854:480:flags=lanczos[scaled];[scaled][1:v]paletteuse=dither=bayer:bayer_scale=5:diff_mode=rectangle"
    );
    o.max_colors = 128;
    o.dither = false;
    assert_eq!(
        palette_filter(&o),
        "fps=24,scale=854:480:flags=lanczos,palettegen=max_colors=128:stats_mode=diff"
    );
    assert_eq!(
        gif_filter(&o),
        "[0:v]fps=24,scale=854:480:flags=lanczos[scaled];[scaled][1:v]paletteuse=dither=none"
    );
}

#[test]
fn gif_arguments() {
    let mut o = GifEncodeOptions::default();
    assert_eq!(
        palette_args("in", "a.palette.png", &o),
        strs(&[
            "-framerate", "24", "-i", "in", "-vf",
            "fps=24,scale=854:480:flags=lanczos,palettegen=stats_mode=diff", "-y", "a.palette.png",
        ])
    );
    let g = gif_args("in", "a.palette.png", "a.gif", &o);
    assert_eq!(g.len(), 12);
    assert_eq!(g[4..6], strs(&["-i", "a.palette.png"])[..]);
    assert_eq!(g[8..], strs(&["-loop", "0", "-y", "a.gif"])[..]);
    o.loop_animation = false;
    let g = gif_args("in", "a.palette.png", "a.gif", &o);
    assert_eq!(g[9], "-1");
}

#[test]
fn audio_codec_table() {
    assert_eq!(audio_codec_args("mp3", 0), strs(&["-acodec", "libmp3lame", "-b:a", "192k"]));
    assert_eq!(audio_codec_args("mp3", 320_000), strs(&["-acodec", "libmp3lame", "-b:a", "320k"]));
    assert_eq!(audio_codec_args("aac", 0), strs(&["-acodec", "aac", "-b:a", "192k"]));
    assert_eq!(audio_codec_args("wav", 128_000), strs(&["-acodec", "pcm_s16le"]));
    assert_eq!(audio_codec_args("flac", 0), strs(&["-acodec", "flac", "-compression_level", "8"]));
    assert_eq!(audio_codec_args("opus", 0), strs(&["-acodec", "libopus", "-b:a", "128k"]));
    assert_eq!(audio_codec_args("opus", 96_000), strs(&["-acodec", "libopus", "-b:a", "96k"]));
    assert_eq!(audio_codec_args("ogg", 0), strs(&["-acodec", "aac", "-b:a", "192k"]));
    assert_eq!(audio_codec_args("MP3", 0), strs(&["-acodec", "aac", "-b:a", "192k"]));
    assert_eq!(audio_codec_args("aac", 500), strs(&["-acodec", "aac", "-b:a", "0k"]));
}

#[test]
fn pcm_encode_arguments() {
    assert_eq!(
        pcm_encode_args("/a/in.pcm", "/a/out.mp3", "mp3", 44100, 2, 192_000),
        strs(&[
            "-y", "-f", "f32le", "-ar", "44100", "-ac", "2", "-i", "/a/in.pcm", "-acodec",
            "libmp3lame", "-b:a", "192k", "/a/out.mp3",
        ])
    );
}

#[test]
fn merge_arguments() {
    assert_eq!(
        merge_audio_args("v.mp4", "a.aac", "o.mp4"),
        strs(&[
            "-y", "-i", "v.mp4", "-i", "a.aac", "-c:v", "copy", "-c:a", "aac", "-map", "0:v:0",
            "-map", "1:a:0", "-shortest", "o.mp4",
        ])
    );
    assert_eq!(
        merge_pcm_args("v.mp4", "a.pcm", "o.mp4", "opus", 48000, 1, 0),
        strs(&[
            "-y", "-i", "v.mp4", "-f", "f32le", "-ar", "48000", "-ac", "1", "-i", "a.pcm", "-c:v",
            "copy", "-c:a", "libopus", "-b:a", "128k", "-map", "0:v:0", "-map", "1:a:0",
            "-shortest", "o.mp4",
        ])
    );
    assert_eq!(
        merge_pcm_args("v.mp4", "a.pcm", "o.mp4", "wav", 48000, 2, 256_000),
        strs(&[
            "-y", "-i", "v.mp4", "-f", "f32le", "-ar", "48000", "-ac", "2", "-i", "a.pcm", "-c:v",
            "copy", "-c:a", "pcm_s16le", "-map", "0:v:0", "-map", "1:a:0", "-shortest", "o.mp4",
        ])
    );
    // Below 1 kbit/s the merge passes no bit rate at all.
    assert_eq!(merge_pcm_args("v", "a", "o", "aac", 1, 1, 999)[15], "-map");
}

#[test]
fn audio_tables_agree_on_concrete_formats() {
    for (f, b) in [("mp3", 0u32), ("aac", 256_000), ("wav", 0), ("flac", 0), ("opus", 64_000), ("x", 0)] {
        let enc = audio_codec_args(f, b);
        let merge = merge_pcm_args("v", "a", "o", f, 1, 1, b);
        assert_eq!(enc[1], merge[14]);
        if enc.len() == 4 && enc[2] == "-b:a" {
            assert_eq!(merge[15], "-b:a");
            assert_eq!(merge[16], enc[3]);
        } else {
            assert_eq!(merge[15], "-map");
        }
    }
}
