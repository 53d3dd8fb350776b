//! The argument lists handed to `ffmpeg` (everything after the program
//! name) for each kind of encoding and merging job.
use vstd::prelude::*;
use vstd::string::*;
use crate::codec::{
    encoder_name_spec, hwaccel_name_spec, preset_name_spec, HwAccel, VideoCodec,
};
use crate::options::{GifEncodeOptions, VideoEncodeOptions};
use crate::text::{
    append_decimal, decimal, decimal_string, ends_with, lemma_ends_with_appended,
    lemma_starts_with_prefix, owned, push_arg, push_str, same_text, starts_with, texts,
};

verus! {

broadcast use vstd::string::group_string_axioms;

// ---------------------------------------------------------------------------
// Video
// ---------------------------------------------------------------------------

/// `-hwaccel <name>` when a hardware back end is selected.
pub open spec fn hwaccel_args_spec(h: HwAccel) -> Seq<Seq<char>> {
    if h != HwAccel::Disabled {
        seq!["-hwaccel"@, hwaccel_name_spec(h)]
    } else {
        seq![]
    }
}

/// The `-vf` filter of a video encode: scale with Lanczos, then convert to
/// the pixel format.
pub open spec fn video_filter_spec(o: VideoEncodeOptions) -> Seq<char> {
    "scale="@ + decimal(o.width as nat) + ":"@ + decimal(o.height as nat) + ":flags=lanczos"@ + ","@
        + "format="@ + o.pixel_format@
}

/// `-b:v <bit rate>` when a bit rate is set.
pub open spec fn bitrate_args_spec(bit_rate: u64) -> Seq<Seq<char>> {
    if bit_rate > 0 {
        seq!["-b:v"@, decimal(bit_rate as nat)]
    } else {
        seq![]
    }
}

/// The DNxHD/DNxHR quality level chosen for a bit rate in kbit/s:
/// 2 from 100 000 kbit/s, 1 from 50 000 kbit/s, 0 below.
pub open spec fn dnxhd_level(bitrate_k: nat) -> nat {
    if bitrate_k >= 100_000 {
        2
    } else if bitrate_k >= 50_000 {
        1
    } else {
        0
    }
}

/// The DNxHD/DNxHR profile chosen for a bit rate in kbit/s.
pub open spec fn dnxhd_profile_spec(bitrate_k: nat) -> Seq<char> {
    if dnxhd_level(bitrate_k) == 2 {
        "dnxhr_hqx"@
    } else if dnxhd_level(bitrate_k) == 1 {
        "dnxhr_hq"@
    } else {
        "dnxhd"@
    }
}

/// The codec-specific rate-control arguments.
pub open spec fn codec_args_spec(o: VideoEncodeOptions) -> Seq<Seq<char>> {
    match o.codec {
        VideoCodec::ProRes => seq!["-profile:v"@, "3"@] + bitrate_args_spec(o.bit_rate),
        VideoCodec::DNxHD => seq!["-profile:v"@, dnxhd_profile_spec((o.bit_rate / 1000) as nat)]
            + bitrate_args_spec(o.bit_rate),
        _ => seq!["-preset"@, preset_name_spec(o.preset), "-crf"@, decimal(o.crf as nat)]
            + bitrate_args_spec(o.bit_rate),
    }
}

/// Arguments that encode the frames matched by `input` into the video file
/// `output`, overwriting it.
pub open spec fn video_args_spec(input: Seq<char>, output: Seq<char>, o: VideoEncodeOptions) -> Seq<
    Seq<char>,
> {
    hwaccel_args_spec(o.hwaccel) + seq![
        "-framerate"@,
        o.fps@,
        "-i"@,
        input,
        "-vf"@,
        video_filter_spec(o),
        "-c:v"@,
        encoder_name_spec(o.codec, Some(o.hwaccel)),
    ] + codec_args_spec(o) + texts(o.extra_args@) + seq!["-y"@, output]
}

fn dnxhd_profile(bitrate_k: u64) -> (s: &'static str)
    ensures
        s@ == dnxhd_profile_spec(bitrate_k as nat),
{
    if bitrate_k >= 100_000 {
        "dnxhr_hqx"
    } else if bitrate_k >= 50_000 {
        "dnxhr_hq"
    } else {
        "dnxhd"
    }
}

fn push_bitrate_args(args: &mut Vec<String>, bit_rate: u64)
    ensures
        texts(final(args)@) == texts(old(args)@) + bitrate_args_spec(bit_rate),
{
    if bit_rate > 0 {
        push_str(args, "-b:v");
        push_arg(args, decimal_string(bit_rate));
    }
    assert(texts(args@) =~= texts(old(args)@) + bitrate_args_spec(bit_rate));
}

/// The `-vf` filter of a video encode.
pub fn video_filter(o: &VideoEncodeOptions) -> (s: String)
    ensures
        s@ == video_filter_spec(*o),
{
    let mut s = owned("scale=");
    append_decimal(&mut s, o.width as u64);
    s.append(":");
    append_decimal(&mut s, o.height as u64);
    s.append(":flags=lanczos");
    s.append(",");
    s.append("format=");
    s.append(o.pixel_format.as_str());
    s
}

/// Arguments that encode the frames matched by `input` into `output`.
pub fn video_args(input: &str, output: &str, o: &VideoEncodeOptions) -> (args: Vec<String>)
    ensures
        texts(args@) == video_args_spec(input@, output@, *o),
{
    let mut args: Vec<String> = Vec::new();
    if o.hwaccel != HwAccel::Disabled {
        push_str(&mut args, "-hwaccel");
        push_str(&mut args, o.hwaccel.as_str());
    }
    assert(texts(args@) =~= hwaccel_args_spec(o.hwaccel));
    let ghost start = texts(args@);
    push_str(&mut args, "-framerate");
    push_str(&mut args, o.fps.as_str());
    push_str(&mut args, "-i");
    push_str(&mut args, input);
    push_str(&mut args, "-vf");
    push_arg(&mut args, video_filter(o));
    push_str(&mut args, "-c:v");
    push_str(&mut args, o.codec.ffmpeg_codec_name(Some(o.hwaccel)));
    let ghost head = texts(args@);
    match o.codec {
        VideoCodec::ProRes => {
            push_str(&mut args, "-profile:v");
            push_str(&mut args, "3");
        },
        VideoCodec::DNxHD => {
            push_str(&mut args, "-profile:v");
            push_str(&mut args, dnxhd_profile(o.bit_rate / 1000));
        },
        _ => {
            push_str(&mut args, "-preset");
            push_str(&mut args, o.preset.as_str());
            push_str(&mut args, "-crf");
            push_arg(&mut args, decimal_string(o.crf as u64));
        },
    }
    push_bitrate_args(&mut args, o.bit_rate);
    assert(texts(args@) =~= head + codec_args_spec(*o));
    let ghost before_extra = texts(args@);
    let n = o.extra_args.len();
    let mut i: usize = 0;
    while i < n
        invariant
            n == o.extra_args@.len(),
            i <= n,
            texts(args@) == before_extra + texts(o.extra_args@.take(i as int)),
        decreases n - i,
    {
        push_arg(&mut args, o.extra_args[i].clone());
        assert(texts(o.extra_args@.take(i + 1)) =~= texts(o.extra_args@.take(i as int)).push(
            o.extra_args@[i as int]@,
        ));
        assert(texts(args@) =~= before_extra + texts(o.extra_args@.take(i + 1)));
        i = i + 1;
    }
    assert(o.extra_args@.take(n as int) =~= o.extra_args@);
    push_str(&mut args, "-y");
    push_str(&mut args, output);
    assert(texts(args@) =~= video_args_spec(input@, output@, *o));
    args
}

/// A higher bit rate never selects a lower DNxHD/DNxHR profile
/// (`dnxhd` < `dnxhr_hq` < `dnxhr_hqx`).
pub proof fn lemma_dnxhd_profile_monotone(a: u64, b: u64)
    requires
        a <= b,
    ensures
        dnxhd_level((a / 1000) as nat) <= dnxhd_level((b / 1000) as nat),
{
    assert(a / 1000 <= b / 1000) by (nonlinear_arith)
        requires
            a <= b,
    ;
}

// ---------------------------------------------------------------------------
// GIF
// ---------------------------------------------------------------------------

/// The common head of both GIF filters: frame rate, then Lanczos scaling.
pub open spec fn gif_scale_spec(o: GifEncodeOptions) -> Seq<char> {
    "fps="@ + o.fps@ + ",scale="@ + decimal(o.width as nat) + ":"@ + decimal(o.height as nat)
        + ":flags=lanczos"@
}

/// The filter that generates the palette: it limits the palette's size
/// only when fewer than 256 colours are asked for.
pub open spec fn palette_filter_spec(o: GifEncodeOptions) -> Seq<char> {
    gif_scale_spec(o) + ","@ + if o.max_colors < 256 {
        "palettegen=max_colors="@ + decimal(o.max_colors as nat) + ":stats_mode=diff"@
    } else {
        "palettegen=stats_mode=diff"@
    }
}

/// Arguments that write the palette of the frames matched by `input`.
pub open spec fn palette_args_spec(input: Seq<char>, palette: Seq<char>, o: GifEncodeOptions) -> Seq<
    Seq<char>,
> {
    seq![
        "-framerate"@,
        o.fps@,
        "-i"@,
        input,
        "-vf"@,
        palette_filter_spec(o),
        "-y"@,
        palette,
    ]
}

/// The filter graph that scales the frames and applies the palette, with
/// Bayer dithering or none.
pub open spec fn gif_filter_spec(o: GifEncodeOptions) -> Seq<char> {
    "[0:v]"@ + gif_scale_spec(o) + "[scaled];[scaled][1:v]"@ + if o.dither {
        "paletteuse=dither=bayer:bayer_scale=5:diff_mode=rectangle"@
    } else {
        "paletteuse=dither=none"@
    }
}

/// Arguments that encode the frames matched by `input` into the GIF
/// `output` with the palette; `-loop 0` loops forever, `-loop -1` plays once.
pub open spec fn gif_args_spec(
    input: Seq<char>,
    palette: Seq<char>,
    output: Seq<char>,
    o: GifEncodeOptions,
) -> Seq<Seq<char>> {
    seq![
        "-framerate"@,
        o.fps@,
        "-i"@,
        input,
        "-i"@,
        palette,
        "-filter_complex"@,
        gif_filter_spec(o),
        "-loop"@,
        if o.loop_animation {
            "0"@
        } else {
            "-1"@
        },
        "-y"@,
        output,
    ]
}

fn append_gif_scale(s: &mut String, o: &GifEncodeOptions)
    ensures
        final(s)@ == old(s)@ + gif_scale_spec(*o),
{
    s.append("fps=");
    s.append(o.fps.as_str());
    s.append(",scale=");
    append_decimal(s, o.width as u64);
    s.append(":");
    append_decimal(s, o.height as u64);
    s.append(":flags=lanczos");
    assert(s@ =~= old(s)@ + gif_scale_spec(*o));
}

/// The palette generation filter.
pub fn palette_filter(o: &GifEncodeOptions) -> (s: String)
    ensures
        s@ == palette_filter_spec(*o),
{
    let mut s = String::new();
    append_gif_scale(&mut s, o);
    s.append(",");
    if o.max_colors < 256 {
        s.append("palettegen=max_colors=");
        append_decimal(&mut s, o.max_colors as u64);
        s.append(":stats_mode=diff");
    } else {
        s.append("palettegen=stats_mode=diff");
    }
    assert(s@ =~= palette_filter_spec(*o));
    s
}

/// The palette application filter graph.
pub fn gif_filter(o: &GifEncodeOptions) -> (s: String)
    ensures
        s@ == gif_filter_spec(*o),
{
    let mut s = owned("[0:v]");
    append_gif_scale(&mut s, o);
    s.append("[scaled];[scaled][1:v]");
    if o.dither {
        s.append("paletteuse=dither=bayer:bayer_scale=5:diff_mode=rectangle");
    } else {
        s.append("paletteuse=dither=none");
    }
    assert(s@ =~= gif_filter_spec(*o));
    s
}

/// Arguments that write the palette.
pub fn palette_args(input: &str, palette: &str, o: &GifEncodeOptions) -> (args: Vec<String>)
    ensures
        texts(args@) == palette_args_spec(input@, palette@, *o),
{
    let mut args: Vec<String> = Vec::new();
    push_str(&mut args, "-framerate");
    push_str(&mut args, o.fps.as_str());
    push_str(&mut args, "-i");
    push_str(&mut args, input);
    push_str(&mut args, "-vf");
    push_arg(&mut args, palette_filter(o));
    push_str(&mut args, "-y");
    push_str(&mut args, palette);
    assert(texts(args@) =~= palette_args_spec(input@, palette@, *o));
    args
}

/// Arguments that encode the GIF with the palette.
pub fn gif_args(input: &str, palette: &str, output: &str, o: &GifEncodeOptions) -> (args: Vec<
    String,
>)
    ensures
        texts(args@) == gif_args_spec(input@, palette@, output@, *o),
{
    let mut args: Vec<String> = Vec::new();
    push_str(&mut args, "-framerate");
    push_str(&mut args, o.fps.as_str());
    push_str(&mut args, "-i");
    push_str(&mut args, input);
    push_str(&mut args, "-i");
    push_str(&mut args, palette);
    push_str(&mut args, "-filter_complex");
    push_arg(&mut args, gif_filter(o));
    push_str(&mut args, "-loop");
    if o.loop_animation {
        push_str(&mut args, "0");
    } else {
        push_str(&mut args, "-1");
    }
    push_str(&mut args, "-y");
    push_str(&mut args, output);
    assert(texts(args@) =~= gif_args_spec(input@, palette@, output@, *o));
    args
}

// ---------------------------------------------------------------------------
// Audio
// ---------------------------------------------------------------------------

/// The audio bit rate in kbit/s: the given rate (bit/s) divided by 1000
/// when it is set, the format's default otherwise.
pub open spec fn bitrate_k_spec(bitrate: u32, default_k: nat) -> nat {
    if bitrate > 0 {
        (bitrate / 1000) as nat
    } else {
        default_k
    }
}

/// A bit rate in kbit/s as `ffmpeg -b:a` takes it, e.g. `192k`.
pub open spec fn kbit_text(k: nat) -> Seq<char> {
    decimal(k) + "k"@
}

/// The encoder arguments for an audio format (`aac`, `mp3`, `flac`, `wav`,
/// `opus`; anything else is encoded as AAC).
pub open spec fn audio_codec_args_spec(format: Seq<char>, bitrate: u32) -> Seq<Seq<char>> {
    if format == "mp3"@ {
        seq!["-acodec"@, "libmp3lame"@, "-b:a"@, kbit_text(bitrate_k_spec(bitrate, 192))]
    } else if format == "aac"@ {
        seq!["-acodec"@, "aac"@, "-b:a"@, kbit_text(bitrate_k_spec(bitrate, 192))]
    } else if format == "wav"@ {
        seq!["-acodec"@, "pcm_s16le"@]
    } else if format == "flac"@ {
        seq!["-acodec"@, "flac"@, "-compression_level"@, "8"@]
    } else if format == "opus"@ {
        seq!["-acodec"@, "libopus"@, "-b:a"@, kbit_text(bitrate_k_spec(bitrate, 128))]
    } else {
        seq!["-acodec"@, "aac"@, "-b:a"@, kbit_text(bitrate_k_spec(bitrate, 192))]
    }
}

/// The input description of raw PCM audio: 32-bit little-endian floats at
/// the given sample rate and channel count.
pub open spec fn pcm_input_args_spec(sample_rate: u32, channels: u16) -> Seq<Seq<char>> {
    seq!["-f"@, "f32le"@, "-ar"@, decimal(sample_rate as nat), "-ac"@, decimal(channels as nat)]
}

/// Arguments that encode the PCM file `input` into the audio file `output`.
pub open spec fn pcm_encode_args_spec(
    input: Seq<char>,
    output: Seq<char>,
    format: Seq<char>,
    sample_rate: u32,
    channels: u16,
    bitrate: u32,
) -> Seq<Seq<char>> {
    seq!["-y"@] + pcm_input_args_spec(sample_rate, channels) + seq!["-i"@, input]
        + audio_codec_args_spec(format, bitrate) + seq![output]
}

fn kbit_string(k: u32) -> (s: String)
    ensures
        s@ == kbit_text(k as nat),
{
    let mut s = decimal_string(k as u64);
    s.append("k");
    s
}

fn bitrate_k(bitrate: u32, default_k: u32) -> (k: u32)
    ensures
        k == bitrate_k_spec(bitrate, default_k as nat),
{
    if bitrate > 0 {
        bitrate / 1000
    } else {
        default_k
    }
}

/// The encoder arguments for an audio format.
pub fn audio_codec_args(format: &str, bitrate: u32) -> (args: Vec<String>)
    ensures
        texts(args@) == audio_codec_args_spec(format@, bitrate),
{
    let mut args: Vec<String> = Vec::new();
    push_str(&mut args, "-acodec");
    if same_text(format, "mp3") {
        push_str(&mut args, "libmp3lame");
        push_str(&mut args, "-b:a");
        push_arg(&mut args, kbit_string(bitrate_k(bitrate, 192)));
    } else if same_text(format, "aac") {
        push_str(&mut args, "aac");
        push_str(&mut args, "-b:a");
        push_arg(&mut args, kbit_string(bitrate_k(bitrate, 192)));
    } else if same_text(format, "wav") {
        push_str(&mut args, "pcm_s16le");
    } else if same_text(format, "flac") {
        push_str(&mut args, "flac");
        push_str(&mut args, "-compression_level");
        push_str(&mut args, "8");
    } else if same_text(format, "opus") {
        push_str(&mut args, "libopus");
        push_str(&mut args, "-b:a");
        push_arg(&mut args, kbit_string(bitrate_k(bitrate, 128)));
    } else {
        push_str(&mut args, "aac");
        push_str(&mut args, "-b:a");
        push_arg(&mut args, kbit_string(bitrate_k(bitrate, 192)));
    }
    assert(texts(args@) =~= audio_codec_args_spec(format@, bitrate));
    args
}

fn push_pcm_input_args(args: &mut Vec<String>, sample_rate: u32, channels: u16)
    ensures
        texts(final(args)@) == texts(old(args)@) + pcm_input_args_spec(sample_rate, channels),
{
    push_str(args, "-f");
    push_str(args, "f32le");
    push_str(args, "-ar");
    push_arg(args, decimal_string(sample_rate as u64));
    push_str(args, "-ac");
    push_arg(args, decimal_string(channels as u64));
    assert(texts(args@) =~= texts(old(args)@) + pcm_input_args_spec(sample_rate, channels));
}

/// Arguments that encode a PCM file into an audio file.
pub fn pcm_encode_args(
    input: &str,
    output: &str,
    format: &str,
    sample_rate: u32,
    channels: u16,
    bitrate: u32,
) -> (args: Vec<String>)
    ensures
        texts(args@) == pcm_encode_args_spec(input@, output@, format@, sample_rate, channels, bitrate),
{
    let mut args: Vec<String> = Vec::new();
    push_str(&mut args, "-y");
    push_pcm_input_args(&mut args, sample_rate, channels);
    push_str(&mut args, "-i");
    push_str(&mut args, input);
    let ghost head = texts(args@);
    let codec = audio_codec_args(format, bitrate);
    let n = codec.len();
    let mut i: usize = 0;
    while i < n
        invariant
            n == codec@.len(),
            i <= n,
            texts(args@) == head + texts(codec@.take(i as int)),
        decreases n - i,
    {
        push_arg(&mut args, codec[i].clone());
        assert(texts(codec@.take(i + 1)) =~= texts(codec@.take(i as int)).push(codec@[i as int]@));
        assert(texts(args@) =~= head + texts(codec@.take(i + 1)));
        i = i + 1;
    }
    assert(codec@.take(n as int) =~= codec@);
    push_str(&mut args, output);
    assert(texts(args@) =~= pcm_encode_args_spec(
        input@,
        output@,
        format@,
        sample_rate,
        channels,
        bitrate,
    ));
    args
}

/// Arguments that copy the first video stream of `video` and the first
/// audio stream of `audio` (re-encoded as AAC) into `output`, stopping with
/// the shorter stream.
pub open spec fn merge_audio_args_spec(video: Seq<char>, audio: Seq<char>, output: Seq<char>) -> Seq<
    Seq<char>,
> {
    seq![
        "-y"@,
        "-i"@,
        video,
        "-i"@,
        audio,
        "-c:v"@,
        "copy"@,
        "-c:a"@,
        "aac"@,
        "-map"@,
        "0:v:0"@,
        "-map"@,
        "1:a:0"@,
        "-shortest"@,
        output,
    ]
}

/// Arguments that merge an audio file into a video file.
pub fn merge_audio_args(video: &str, audio: &str, output: &str) -> (args: Vec<String>)
    ensures
        texts(args@) == merge_audio_args_spec(video@, audio@, output@),
{
    let mut args: Vec<String> = Vec::new();
    push_str(&mut args, "-y");
    push_str(&mut args, "-i");
    push_str(&mut args, video);
    push_str(&mut args, "-i");
    push_str(&mut args, audio);
    push_str(&mut args, "-c:v");
    push_str(&mut args, "copy");
    push_str(&mut args, "-c:a");
    push_str(&mut args, "aac");
    push_str(&mut args, "-map");
    push_str(&mut args, "0:v:0");
    push_str(&mut args, "-map");
    push_str(&mut args, "1:a:0");
    push_str(&mut args, "-shortest");
    push_str(&mut args, output);
    assert(texts(args@) =~= merge_audio_args_spec(video@, audio@, output@));
    args
}

/// The audio encoder and bit rate (kbit/s, 0 for none) used when PCM audio
/// is merged into a video.
pub open spec fn merge_codec_spec(format: Seq<char>, bitrate: u32) -> (Seq<char>, nat) {
    if format == "mp3"@ {
        ("libmp3lame"@, bitrate_k_spec(bitrate, 192))
    } else if format == "aac"@ {
        ("aac"@, bitrate_k_spec(bitrate, 192))
    } else if format == "wav"@ {
        ("pcm_s16le"@, 0)
    } else if format == "flac"@ {
        ("flac"@, 0)
    } else if format == "opus"@ {
        ("libopus"@, bitrate_k_spec(bitrate, 128))
    } else {
        ("aac"@, bitrate_k_spec(bitrate, 192))
    }
}

/// Arguments that merge the PCM file `pcm` into `video`, writing `output`.
pub open spec fn merge_pcm_args_spec(
    video: Seq<char>,
    pcm: Seq<char>,
    output: Seq<char>,
    format: Seq<char>,
    sample_rate: u32,
    channels: u16,
    bitrate: u32,
) -> Seq<Seq<char>> {
    let (codec, k) = merge_codec_spec(format, bitrate);
    seq!["-y"@, "-i"@, video] + pcm_input_args_spec(sample_rate, channels) + seq![
        "-i"@,
        pcm,
        "-c:v"@,
        "copy"@,
        "-c:a"@,
        codec,
    ] + (if k > 0 {
        seq!["-b:a"@, kbit_text(k)]
    } else {
        seq![]
    }) + seq!["-map"@, "0:v:0"@, "-map"@, "1:a:0"@, "-shortest"@, output]
}

fn merge_codec(format: &str, bitrate: u32) -> (r: (&'static str, u32))
    ensures
        r.0@ == merge_codec_spec(format@, bitrate).0,
        r.1 as nat == merge_codec_spec(format@, bitrate).1,
{
    if same_text(format, "mp3") {
        ("libmp3lame", bitrate_k(bitrate, 192))
    } else if same_text(format, "aac") {
        ("aac", bitrate_k(bitrate, 192))
    } else if same_text(format, "wav") {
        ("pcm_s16le", 0)
    } else if same_text(format, "flac") {
        ("flac", 0)
    } else if same_text(format, "opus") {
        ("libopus", bitrate_k(bitrate, 128))
    } else {
        ("aac", bitrate_k(bitrate, 192))
    }
}

/// Arguments that merge a PCM file into a video.
pub fn merge_pcm_args(
    video: &str,
    pcm: &str,
    output: &str,
    format: &str,
    sample_rate: u32,
    channels: u16,
    bitrate: u32,
) -> (args: Vec<String>)
    ensures
        texts(args@) == merge_pcm_args_spec(
            video@,
            pcm@,
            output@,
            format@,
            sample_rate,
            channels,
            bitrate,
        ),
{
    let (codec, k) = merge_codec(format, bitrate);
    let mut args: Vec<String> = Vec::new();
    push_str(&mut args, "-y");
    push_str(&mut args, "-i");
    push_str(&mut args, video);
    push_pcm_input_args(&mut args, sample_rate, channels);
    push_str(&mut args, "-i");
    push_str(&mut args, pcm);
    push_str(&mut args, "-c:v");
    push_str(&mut args, "copy");
    push_str(&mut args, "-c:a");
    push_str(&mut args, codec);
    if k > 0 {
        push_str(&mut args, "-b:a");
        push_arg(&mut args, kbit_string(k));
    }
    push_str(&mut args, "-map");
    push_str(&mut args, "0:v:0");
    push_str(&mut args, "-map");
    push_str(&mut args, "1:a:0");
    push_str(&mut args, "-shortest");
    push_str(&mut args, output);
    assert(texts(args@) =~= merge_pcm_args_spec(
        video@,
        pcm@,
        output@,
        format@,
        sample_rate,
        channels,
        bitrate,
    ));
    args
}

/// Encoding PCM audio and merging PCM audio into a video pick the same
/// encoder for every format, and, whenever the bit rate is unset or at
/// least 1 kbit/s, the same `-b:a` setting (none for `wav` and `flac`).
pub proof fn lemma_audio_tables_agree(format: Seq<char>, bitrate: u32)
    requires
        bitrate == 0 || bitrate >= 1000,
    ensures
        audio_codec_args_spec(format, bitrate)[1] == merge_codec_spec(format, bitrate).0,
        merge_codec_spec(format, bitrate).1 > 0 ==> audio_codec_args_spec(format, bitrate).len()
            == 4 && audio_codec_args_spec(format, bitrate)[2] == "-b:a"@ && audio_codec_args_spec(
            format,
            bitrate,
        )[3] == kbit_text(merge_codec_spec(format, bitrate).1),
        merge_codec_spec(format, bitrate).1 == 0 ==> !(audio_codec_args_spec(format, bitrate).len()
            == 4 && audio_codec_args_spec(format, bitrate)[2] == "-b:a"@),
{
    reveal_strlit("-b:a");
    reveal_strlit("-compression_level");
    assert("-b:a"@[1] != "-compression_level"@[1]);
    assert(bitrate >= 1000 ==> bitrate / 1000 > 0) by (nonlinear_arith);
}

/// The end of the palette-use filter: Bayer dithering when dithering is
/// asked for, none otherwise.
pub open spec fn paletteuse_suffix(dither: bool) -> Seq<char> {
    if dither {
        "paletteuse=dither=bayer:bayer_scale=5:diff_mode=rectangle"@
    } else {
        "paletteuse=dither=none"@
    }
}

/// The filters of a video encode scale to the asked size and convert to
/// exactly the asked pixel format.
pub proof fn lemma_video_filter_shape(o: VideoEncodeOptions)
    ensures
        starts_with(
            video_filter_spec(o),
            "scale="@ + decimal(o.width as nat) + ":"@ + decimal(o.height as nat),
        ),
        ends_with(video_filter_spec(o), "format="@ + o.pixel_format@),
{
    let head = "scale="@ + decimal(o.width as nat) + ":"@ + decimal(o.height as nat);
    let f = video_filter_spec(o);
    assert(f =~= head + (":flags=lanczos"@ + ","@ + ("format="@ + o.pixel_format@)));
    lemma_starts_with_prefix(head, ":flags=lanczos"@ + ","@ + ("format="@ + o.pixel_format@));
    assert(f =~= (head + ":flags=lanczos"@ + ","@) + ("format="@ + o.pixel_format@));
    lemma_ends_with_appended(head + ":flags=lanczos"@ + ","@, "format="@ + o.pixel_format@);
}

/// The arguments of a video encode: hardware decoding when asked, the
/// frames read at the asked rate, filtered to the asked size and pixel
/// format, encoded by the codec's encoder with its rate control (preset and
/// CRF, or the ProRes or DNxHD profile), the bit rate when one is set, the
/// extra arguments in order, and the output, overwritten, last.
pub proof fn lemma_video_args_shape(input: Seq<char>, output: Seq<char>, o: VideoEncodeOptions)
    ensures
        ({
            let a = video_args_spec(input, output, o);
            let h: int = if o.hwaccel != HwAccel::Disabled {
                2
            } else {
                0
            };
            let r: int = if o.codec == VideoCodec::ProRes || o.codec == VideoCodec::DNxHD {
                h + 10
            } else {
                h + 12
            };
            let x = texts(o.extra_args@);
            &&& h == 2 ==> a[0] == "-hwaccel"@ && a[1] == hwaccel_name_spec(o.hwaccel)
            &&& a[h] == "-framerate"@
            &&& a[h + 1] == o.fps@
            &&& a[h + 2] == "-i"@
            &&& a[h + 3] == input
            &&& a[h + 4] == "-vf"@
            &&& starts_with(
                a[h + 5],
                "scale="@ + decimal(o.width as nat) + ":"@ + decimal(o.height as nat),
            )
            &&& ends_with(a[h + 5], "format="@ + o.pixel_format@)
            &&& a[h + 6] == "-c:v"@
            &&& a[h + 7] == encoder_name_spec(o.codec, Some(o.hwaccel))
            &&& o.codec == VideoCodec::ProRes ==> a[h + 8] == "-profile:v"@ && a[h + 9] == "3"@
            &&& o.codec == VideoCodec::DNxHD ==> a[h + 8] == "-profile:v"@ && a[h + 9]
                == dnxhd_profile_spec((o.bit_rate / 1000) as nat)
            &&& o.codec != VideoCodec::ProRes && o.codec != VideoCodec::DNxHD ==> a[h + 8]
                == "-preset"@ && a[h + 9] == preset_name_spec(o.preset) && a[h + 10] == "-crf"@
                && a[h + 11] == decimal(o.crf as nat)
            &&& o.bit_rate > 0 ==> a[r] == "-b:v"@ && a[r + 1] == decimal(o.bit_rate as nat)
            &&& a.len() == r + (if o.bit_rate > 0 {
                2int
            } else {
                0int
            }) + x.len() + 2
            &&& a.subrange(a.len() - 2 - x.len(), a.len() - 2) == x
            &&& a[a.len() - 2] == "-y"@
            &&& a[a.len() - 1] == output
        }),
{
    lemma_video_filter_shape(o);
    let a = video_args_spec(input, output, o);
    let x = texts(o.extra_args@);
    assert(a.subrange(a.len() - 2 - x.len(), a.len() - 2) =~= x);
}

/// Hardware encoders are named after their back end: NVENC for CUDA, and
/// `_qsv`, `_vaapi`, `_amf` after the back end's own name; the software
/// encoders are x264 and x265.
pub proof fn lemma_encoder_names_follow_back_end(c: VideoCodec, h: HwAccel)
    requires
        c == VideoCodec::H264 || c == VideoCodec::H265,
    ensures
        h == HwAccel::Cuda ==> ends_with(encoder_name_spec(c, Some(h)), "_nvenc"@),
        h == HwAccel::Qsv || h == HwAccel::Vaapi || h == HwAccel::Amf ==> ends_with(
            encoder_name_spec(c, Some(h)),
            "_"@ + hwaccel_name_spec(h),
        ),
        h == HwAccel::Disabled ==> encoder_name_spec(c, Some(h)) == (if c == VideoCodec::H264 {
            "libx264"@
        } else {
            "libx265"@
        }),
{
    reveal_strlit("_nvenc");
    reveal_strlit("_");
    reveal_strlit("qsv");
    reveal_strlit("vaapi");
    reveal_strlit("amf");
    reveal_strlit("h264_nvenc");
    reveal_strlit("hevc_nvenc");
    reveal_strlit("h264_qsv");
    reveal_strlit("hevc_qsv");
    reveal_strlit("h264_vaapi");
    reveal_strlit("hevc_vaapi");
    reveal_strlit("h264_amf");
    reveal_strlit("hevc_amf");
    let e = encoder_name_spec(c, Some(h));
    if h == HwAccel::Cuda {
        assert(e.subrange(e.len() - 6, e.len() as int) =~= "_nvenc"@);
    } else if h == HwAccel::Qsv {
        assert(e.subrange(e.len() - 4, e.len() as int) =~= "_"@ + "qsv"@);
    } else if h == HwAccel::Vaapi {
        assert(e.subrange(e.len() - 6, e.len() as int) =~= "_"@ + "vaapi"@);
    } else if h == HwAccel::Amf {
        assert(e.subrange(e.len() - 4, e.len() as int) =~= "_"@ + "amf"@);
    }
}

/// The filter graph of a GIF encode starts from the asked frame rate and
/// ends with Bayer dithering exactly when dithering is asked for.
pub proof fn lemma_gif_filter_shape(o: GifEncodeOptions)
    ensures
        starts_with(gif_filter_spec(o), "[0:v]fps="@ + o.fps@),
        ends_with(gif_filter_spec(o), paletteuse_suffix(o.dither)),
        o.dither ==> ends_with(
            gif_filter_spec(o),
            "paletteuse=dither=bayer:bayer_scale=5:diff_mode=rectangle"@,
        ),
        !o.dither ==> ends_with(gif_filter_spec(o), "paletteuse=dither=none"@),
{
    let f = gif_filter_spec(o);
    let rest = gif_scale_spec(o).subrange(("fps="@ + o.fps@).len() as int, gif_scale_spec(o).len() as int);
    assert(gif_scale_spec(o) =~= "fps="@ + o.fps@ + rest);
    reveal_strlit("[0:v]");
    reveal_strlit("fps=");
    reveal_strlit("[0:v]fps=");
    assert("[0:v]"@ + "fps="@ =~= "[0:v]fps="@);
    let tail = rest + "[scaled];[scaled][1:v]"@ + paletteuse_suffix(o.dither);
    assert(f =~= ("[0:v]fps="@ + o.fps@) + tail);
    lemma_starts_with_prefix("[0:v]fps="@ + o.fps@, tail);
    let front = "[0:v]"@ + gif_scale_spec(o) + "[scaled];[scaled][1:v]"@;
    assert(f =~= front + paletteuse_suffix(o.dither));
    lemma_ends_with_appended(front, paletteuse_suffix(o.dither));
}

/// The palette filter limits the palette to the asked number of colours
/// exactly when fewer than 256 are asked for.
pub proof fn lemma_palette_filter_shape(o: GifEncodeOptions)
    ensures
        o.max_colors < 256 ==> ends_with(
            palette_filter_spec(o),
            "palettegen=max_colors="@ + decimal(o.max_colors as nat) + ":stats_mode=diff"@,
        ),
        o.max_colors >= 256 ==> ends_with(palette_filter_spec(o), "palettegen=stats_mode=diff"@),
{
    if o.max_colors < 256 {
        lemma_ends_with_appended(
            gif_scale_spec(o) + ","@,
            "palettegen=max_colors="@ + decimal(o.max_colors as nat) + ":stats_mode=diff"@,
        );
    } else {
        lemma_ends_with_appended(gif_scale_spec(o) + ","@, "palettegen=stats_mode=diff"@);
    }
}

/// The arguments of a GIF encode read the frames and the palette, apply the
/// palette with the asked dithering, loop as asked, and overwrite the
/// output, which comes last.
pub proof fn lemma_gif_args_shape(
    input: Seq<char>,
    palette: Seq<char>,
    output: Seq<char>,
    o: GifEncodeOptions,
)
    ensures
        ({
            let a = gif_args_spec(input, palette, output, o);
            &&& a.len() == 12
            &&& a[0] == "-framerate"@ && a[1] == o.fps@
            &&& a[2] == "-i"@ && a[3] == input
            &&& a[4] == "-i"@ && a[5] == palette
            &&& a[6] == "-filter_complex"@
            &&& starts_with(a[7], "[0:v]fps="@ + o.fps@)
            &&& o.dither ==> ends_with(
                a[7],
                "paletteuse=dither=bayer:bayer_scale=5:diff_mode=rectangle"@,
            )
            &&& !o.dither ==> ends_with(a[7], "paletteuse=dither=none"@)
            &&& a[8] == "-loop"@
            &&& a[9] == (if o.loop_animation {
                "0"@
            } else {
                "-1"@
            })
            &&& a[10] == "-y"@ && a[11] == output
        }),
{
    lemma_gif_filter_shape(o);
}

} // verus!
