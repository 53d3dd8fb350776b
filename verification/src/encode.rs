//! The encoding and merging jobs of an `ffmpeg` installation: for each, the
//! plan of checks, `ffmpeg` runs and file moves that carries it out.
use vstd::prelude::*;
use vstd::string::*;
use crate::args::{
    lemma_gif_args_shape, lemma_palette_filter_shape, lemma_video_args_shape,
    gif_args, gif_args_spec, merge_audio_args, merge_audio_args_spec,
    merge_pcm_args, merge_pcm_args_spec, palette_args, palette_args_spec, pcm_encode_args,
    pcm_encode_args_spec, video_args, video_args_spec,
};
use crate::codec::HwAccel;
use crate::frames::FrameSequence;
use crate::job::{
    happy_run, lemma_happy_path_succeeds, no_fail_steps, steps_view, ActionView, Cleanup,
    CleanupView, Job, JobView, Step, StepView,
};
use crate::options::{GifEncodeOptions, VideoEncodeOptions};
use crate::text::{
    decimal, ends_with, lemma_ends_with_appended, starts_with,
    debug_path, extension_of, lowercased, owned, parent_of, path_debug_text, path_extension,
    path_joined, path_parent, path_with_extension, paths_equal, same_path, same_text, to_lowercase,
    with_extension,
};

verus! {

broadcast use vstd::string::group_string_axioms;

/// An `ffmpeg` installation, named by the path of its executable.
#[derive(Debug)]
pub struct Ffmpeg {
    pub bin_path: String,
}

/// Creates the directory that holds `output`, where the path has one.
pub open spec fn parent_dir_steps(output: Seq<char>) -> Seq<StepView> {
    match path_parent(output) {
        Some(dir) => seq![StepView::EnsureDir { dir }],
        None => seq![],
    }
}

/// The plan of a video encode: no frames is an error; otherwise remove an
/// earlier output, create its directory, run `ffmpeg`, and check that the
/// output exists.
pub open spec fn video_plan(fs: FrameSequence, output: Seq<char>, o: VideoEncodeOptions) -> Seq<
    StepView,
> {
    if fs.frame_count == 0 {
        seq![StepView::Fail { error: "No frames to encode"@ }]
    } else {
        seq![StepView::RemoveIfPresent { path: output }] + parent_dir_steps(output) + seq![
            StepView::Run {
                args: video_args_spec(path_joined(fs.frames_dir@, fs.pattern@), output, o),
                spawn_error: "Failed to execute ffmpeg for video encoding: "@,
                failure_error: "FFmpeg video encoding failed: "@,
                cleanup: CleanupView::Keep,
            },
            StepView::RequireFile { path: output, error: "Output video file was not created"@ },
        ]
    }
}

/// The palette written beside a GIF while it is encoded.
pub open spec fn palette_path(output: Seq<char>) -> Seq<char> {
    path_with_extension(output, "palette.png"@)
}

/// The plan of a GIF encode: no frames is an error; otherwise create the
/// output's directory, remove an earlier output, generate the palette,
/// encode with it, remove it, and check that the GIF exists and is not
/// empty.
pub open spec fn gif_plan(fs: FrameSequence, output: Seq<char>, o: GifEncodeOptions) -> Seq<
    StepView,
> {
    let input = path_joined(fs.frames_dir@, fs.pattern@);
    let palette = palette_path(output);
    if fs.frame_count == 0 {
        seq![StepView::Fail { error: "No frames to encode"@ }]
    } else {
        parent_dir_steps(output) + seq![
            StepView::RemoveIfPresent { path: output },
            StepView::Run {
                args: palette_args_spec(input, palette, o),
                spawn_error: "Failed to generate GIF palette: "@,
                failure_error: "FFmpeg palette generation failed: "@,
                cleanup: CleanupView::Keep,
            },
            StepView::RequireFile {
                path: palette,
                error: "Palette file not created: "@ + path_debug_text(palette),
            },
            StepView::Run {
                args: gif_args_spec(input, palette, output, o),
                spawn_error: "Failed to encode GIF: "@,
                failure_error: "FFmpeg GIF encoding failed: "@,
                cleanup: CleanupView::Always(palette),
            },
            StepView::RequireFile { path: output, error: "Output GIF file was not created"@ },
            StepView::RequireNonEmpty {
                path: output,
                size_error: "Failed to get output file size: "@,
                empty_error: "Output GIF file is empty"@,
            },
        ]
    }
}

/// Whether an output is encoded as a GIF: when asked, or when its
/// extension is `gif` in any case.
pub open spec fn is_gif_output(output: Seq<char>, force_gif: bool) -> bool {
    force_gif || (path_extension(output) is Some && lowercased(path_extension(output)->0)
        == "gif"@)
}

/// The plan of an audio encode from raw PCM: the input must exist; create
/// the output's directory, run `ffmpeg`, check that the output exists.
pub open spec fn audio_plan(
    input: Seq<char>,
    output: Seq<char>,
    format: Seq<char>,
    sample_rate: u32,
    channels: u16,
    bitrate: u32,
    spawn_error: Seq<char>,
    failure_error: Seq<char>,
) -> Seq<StepView> {
    seq![
        StepView::RequireFile {
            path: input,
            error: "PCM file not found: "@ + path_debug_text(input),
        },
    ] + parent_dir_steps(output) + seq![
        StepView::Run {
            args: pcm_encode_args_spec(input, output, format, sample_rate, channels, bitrate),
            spawn_error,
            failure_error,
            cleanup: CleanupView::Keep,
        },
        StepView::RequireFile { path: output, error: "Encoded audio file was not created"@ },
    ]
}

/// The plan of merging an audio file into a video: both inputs must exist;
/// create the output's directory, run `ffmpeg`, check the output exists.
pub open spec fn merge_audio_plan(video: Seq<char>, audio: Seq<char>, output: Seq<char>) -> Seq<
    StepView,
> {
    seq![
        StepView::RequireFile {
            path: video,
            error: "Video file not found: "@ + path_debug_text(video),
        },
        StepView::RequireFile {
            path: audio,
            error: "Audio file not found: "@ + path_debug_text(audio),
        },
    ] + parent_dir_steps(output) + seq![
        StepView::Run {
            args: merge_audio_args_spec(video, audio, output),
            spawn_error: "Failed to execute ffmpeg for audio merge: "@,
            failure_error: "FFmpeg audio merge failed: "@,
            cleanup: CleanupView::Keep,
        },
        StepView::RequireFile { path: output, error: "Merged output file was not created"@ },
    ]
}

/// The temporary file written when PCM audio is merged into a video in place.
pub open spec fn merge_temp_path(output: Seq<char>) -> Seq<char> {
    path_with_extension(output, "tmp_merge.mp4"@)
}

/// The plan of merging PCM audio into a video: both inputs must exist;
/// create the output's directory; when the output is the video itself,
/// `ffmpeg` writes a temporary file (removed if it fails) that then replaces
/// the video; finally the output must exist.
pub open spec fn merge_pcm_plan(
    video: Seq<char>,
    pcm: Seq<char>,
    output: Seq<char>,
    format: Seq<char>,
    sample_rate: u32,
    channels: u16,
    bitrate: u32,
) -> Seq<StepView> {
    let checks = seq![
        StepView::RequireFile {
            path: video,
            error: "Video file not found: "@ + path_debug_text(video),
        },
        StepView::RequireFile { path: pcm, error: "PCM file not found: "@ + path_debug_text(pcm) },
    ] + parent_dir_steps(output);
    let done = StepView::RequireFile { path: output, error: "Output file was not created"@ };
    if paths_equal(output, video) {
        let temp = merge_temp_path(output);
        checks + seq![
            StepView::Run {
                args: merge_pcm_args_spec(video, pcm, temp, format, sample_rate, channels, bitrate),
                spawn_error: "Failed to execute ffmpeg for PCM merge: "@,
                failure_error: "FFmpeg PCM merge failed: "@,
                cleanup: CleanupView::OnFailure(temp),
            },
            StepView::Move {
                from: temp,
                to: output,
                error: "Failed to move temp file to output: "@,
            },
            done,
        ]
    } else {
        checks + seq![
            StepView::Run {
                args: merge_pcm_args_spec(video, pcm, output, format, sample_rate, channels, bitrate),
                spawn_error: "Failed to execute ffmpeg for PCM merge: "@,
                failure_error: "FFmpeg PCM merge failed: "@,
                cleanup: CleanupView::Keep,
            },
            done,
        ]
    }
}

fn push_step(steps: &mut Vec<Step>, s: Step)
    ensures
        steps_view(final(steps)@) == steps_view(old(steps)@).push(s@),
{
    let ghost sv = s@;
    steps.push(s);
    assert(steps_view(steps@) =~= steps_view(old(steps)@).push(sv));
}

fn push_parent_dir_step(steps: &mut Vec<Step>, output: &str)
    ensures
        steps_view(final(steps)@) == steps_view(old(steps)@) + parent_dir_steps(output@),
{
    match parent_of(output) {
        Some(dir) => push_step(steps, Step::EnsureDir { dir }),
        None => {},
    }
    assert(steps_view(steps@) =~= steps_view(old(steps)@) + parent_dir_steps(output@));
}

fn fail_step(error: &str) -> (s: Step)
    ensures
        s@ == (StepView::Fail { error: error@ }),
{
    Step::Fail { error: owned(error) }
}

fn require_step(path: &str, error: String) -> (s: Step)
    ensures
        s@ == (StepView::RequireFile { path: path@, error: error@ }),
{
    Step::RequireFile { path: owned(path), error }
}

fn run_step(args: Vec<String>, spawn_error: &str, failure_error: &str, cleanup: Cleanup) -> (s: Step)
    ensures
        s@ == (StepView::Run {
            args: crate::text::texts(args@),
            spawn_error: spawn_error@,
            failure_error: failure_error@,
            cleanup: cleanup@,
        }),
{
    Step::Run {
        args,
        spawn_error: owned(spawn_error),
        failure_error: owned(failure_error),
        cleanup,
    }
}

/// `prefix` followed by the `{:?}` form of the path.
fn with_debug_path(prefix: &str, p: &str) -> (s: String)
    ensures
        s@ == prefix@ + path_debug_text(p@),
{
    owned(prefix).concat(debug_path(p).as_str())
}

impl Ffmpeg {
    /// Encode a frame sequence to video or GIF based on file extension
    /// (`gif` in any case), or to GIF whenever `force_gif` is set.
    pub fn encode_frames(
        &self,
        frame_sequence: &FrameSequence,
        output_path: &str,
        video_options: &VideoEncodeOptions,
        gif_options: &GifEncodeOptions,
        force_gif: bool,
    ) -> (job: Job)
        ensures
            is_gif_output(output_path@, force_gif) ==> job@ == JobView::start(
                self.bin_path@,
                gif_plan(*frame_sequence, output_path@, *gif_options),
            ),
            !is_gif_output(output_path@, force_gif) ==> job@ == JobView::start(
                self.bin_path@,
                video_plan(*frame_sequence, output_path@, *video_options),
            ),
    {
        let is_gif = force_gif || match extension_of(output_path) {
            Some(ext) => {
                let lower = to_lowercase(ext.as_str());
                same_text(lower.as_str(), "gif")
            },
            None => false,
        };
        if is_gif {
            self.encode_frames_to_gif(frame_sequence, output_path, gif_options)
        } else {
            self.encode_frames_to_video(frame_sequence, output_path, video_options)
        }
    }

    /// Encode a frame sequence to a video file
    pub fn encode_frames_to_video(
        &self,
        frame_sequence: &FrameSequence,
        output_path: &str,
        options: &VideoEncodeOptions,
    ) -> (job: Job)
        ensures
            job@ == JobView::start(
                self.bin_path@,
                video_plan(*frame_sequence, output_path@, *options),
            ),
    {
        let mut steps: Vec<Step> = Vec::new();
        if frame_sequence.frame_count == 0 {
            push_step(&mut steps, fail_step("No frames to encode"));
        } else {
            push_step(&mut steps, Step::RemoveIfPresent { path: owned(output_path) });
            push_parent_dir_step(&mut steps, output_path);
            let input = frame_sequence.get_input_pattern();
            let args = video_args(input.as_str(), output_path, options);
            push_step(
                &mut steps,
                run_step(
                    args,
                    "Failed to execute ffmpeg for video encoding: ",
                    "FFmpeg video encoding failed: ",
                    Cleanup::Keep,
                ),
            );
            push_step(
                &mut steps,
                require_step(output_path, owned("Output video file was not created")),
            );
        }
        assert(steps_view(steps@) =~= video_plan(*frame_sequence, output_path@, *options));
        Job::new(self.bin_path.clone(), steps)
    }

    /// Encode a frame sequence to an animated GIF
    pub fn encode_frames_to_gif(
        &self,
        frame_sequence: &FrameSequence,
        output_path: &str,
        options: &GifEncodeOptions,
    ) -> (job: Job)
        ensures
            job@ == JobView::start(
                self.bin_path@,
                gif_plan(*frame_sequence, output_path@, *options),
            ),
    {
        let mut steps: Vec<Step> = Vec::new();
        if frame_sequence.frame_count == 0 {
            push_step(&mut steps, fail_step("No frames to encode"));
        } else {
            push_parent_dir_step(&mut steps, output_path);
            push_step(&mut steps, Step::RemoveIfPresent { path: owned(output_path) });
            proof {
                reveal_strlit("palette.png");
            }
            let palette = with_extension(output_path, "palette.png");
            let input = frame_sequence.get_input_pattern();
            let pargs = palette_args(input.as_str(), palette.as_str(), options);
            push_step(
                &mut steps,
                run_step(
                    pargs,
                    "Failed to generate GIF palette: ",
                    "FFmpeg palette generation failed: ",
                    Cleanup::Keep,
                ),
            );
            push_step(
                &mut steps,
                require_step(
                    palette.as_str(),
                    with_debug_path("Palette file not created: ", palette.as_str()),
                ),
            );
            let gargs = gif_args(input.as_str(), palette.as_str(), output_path, options);
            push_step(
                &mut steps,
                run_step(
                    gargs,
                    "Failed to encode GIF: ",
                    "FFmpeg GIF encoding failed: ",
                    Cleanup::Always(palette.clone()),
                ),
            );
            push_step(
                &mut steps,
                require_step(output_path, owned("Output GIF file was not created")),
            );
            push_step(
                &mut steps,
                Step::RequireNonEmpty {
                    path: owned(output_path),
                    size_error: owned("Failed to get output file size: "),
                    empty_error: owned("Output GIF file is empty"),
                },
            );
        }
        assert(steps_view(steps@) =~= gif_plan(*frame_sequence, output_path@, *options));
        Job::new(self.bin_path.clone(), steps)
    }

    fn audio_job(
        &self,
        input_path: &str,
        output_path: &str,
        format: &str,
        sample_rate: u32,
        channels: u16,
        bitrate: u32,
        spawn_error: &str,
        failure_error: &str,
    ) -> (job: Job)
        ensures
            job@ == JobView::start(
                self.bin_path@,
                audio_plan(
                    input_path@,
                    output_path@,
                    format@,
                    sample_rate,
                    channels,
                    bitrate,
                    spawn_error@,
                    failure_error@,
                ),
            ),
    {
        let mut steps: Vec<Step> = Vec::new();
        push_step(
            &mut steps,
            require_step(input_path, with_debug_path("PCM file not found: ", input_path)),
        );
        push_parent_dir_step(&mut steps, output_path);
        let args = pcm_encode_args(input_path, output_path, format, sample_rate, channels, bitrate);
        push_step(&mut steps, run_step(args, spawn_error, failure_error, Cleanup::Keep));
        push_step(
            &mut steps,
            require_step(output_path, owned("Encoded audio file was not created")),
        );
        assert(steps_view(steps@) =~= audio_plan(
            input_path@,
            output_path@,
            format@,
            sample_rate,
            channels,
            bitrate,
            spawn_error@,
            failure_error@,
        ));
        Job::new(self.bin_path.clone(), steps)
    }

    /// Encodes PCM audio (32-bit little-endian floats) to the target format
    /// ("aac", "mp3", "flac", "wav", "opus"; anything else as AAC).
    pub fn encode_pcm_to_audio(
        &self,
        input_path: &str,
        output_path: &str,
        format: &str,
        sample_rate: u32,
        channels: u16,
        bitrate: u32,
    ) -> (job: Job)
        ensures
            job@ == JobView::start(
                self.bin_path@,
                audio_plan(
                    input_path@,
                    output_path@,
                    format@,
                    sample_rate,
                    channels,
                    bitrate,
                    "Failed to execute ffmpeg for PCM encoding: "@,
                    "FFmpeg PCM encoding failed: "@,
                ),
            ),
    {
        self.audio_job(
            input_path,
            output_path,
            format,
            sample_rate,
            channels,
            bitrate,
            "Failed to execute ffmpeg for PCM encoding: ",
            "FFmpeg PCM encoding failed: ",
        )
    }

    /// Encode PCM audio (32-bit little-endian floats) to the target audio
    /// format ("aac", "mp3", "flac", "wav", "opus"; anything else as AAC).
    pub fn encode_audio_to_format(
        &self,
        input_path: &str,
        output_path: &str,
        format: &str,
        sample_rate: u32,
        channels: u16,
        bitrate: u32,
    ) -> (job: Job)
        ensures
            job@ == JobView::start(
                self.bin_path@,
                audio_plan(
                    input_path@,
                    output_path@,
                    format@,
                    sample_rate,
                    channels,
                    bitrate,
                    "Failed to execute ffmpeg: "@,
                    "FFmpeg encoding failed: "@,
                ),
            ),
    {
        self.audio_job(
            input_path,
            output_path,
            format,
            sample_rate,
            channels,
            bitrate,
            "Failed to execute ffmpeg: ",
            "FFmpeg encoding failed: ",
        )
    }

    /// Merge audio stream into video file: the first video stream of
    /// `video_path` is copied, the first audio stream of `audio_path` is
    /// encoded as AAC, and the output ends with the shorter of the two.
    pub fn merge_audio_into_video(&self, video_path: &str, audio_path: &str, output_path: &str) -> (job:
        Job)
        ensures
            job@ == JobView::start(
                self.bin_path@,
                merge_audio_plan(video_path@, audio_path@, output_path@),
            ),
    {
        let mut steps: Vec<Step> = Vec::new();
        push_step(
            &mut steps,
            require_step(video_path, with_debug_path("Video file not found: ", video_path)),
        );
        push_step(
            &mut steps,
            require_step(audio_path, with_debug_path("Audio file not found: ", audio_path)),
        );
        push_parent_dir_step(&mut steps, output_path);
        let args = merge_audio_args(video_path, audio_path, output_path);
        push_step(
            &mut steps,
            run_step(
                args,
                "Failed to execute ffmpeg for audio merge: ",
                "FFmpeg audio merge failed: ",
                Cleanup::Keep,
            ),
        );
        push_step(
            &mut steps,
            require_step(output_path, owned("Merged output file was not created")),
        );
        assert(steps_view(steps@) =~= merge_audio_plan(video_path@, audio_path@, output_path@));
        Job::new(self.bin_path.clone(), steps)
    }

    /// Directly merge PCM audio (32-bit little-endian floats) into a video
    /// file, encoding it in the same run; when the output is the video
    /// itself, a temporary file is written first and then moved over it.
    pub fn merge_pcm_into_video(
        &self,
        video_path: &str,
        pcm_path: &str,
        output_path: &str,
        audio_format: &str,
        sample_rate: u32,
        channels: u16,
        bitrate: u32,
    ) -> (job: Job)
        ensures
            job@ == JobView::start(
                self.bin_path@,
                merge_pcm_plan(
                    video_path@,
                    pcm_path@,
                    output_path@,
                    audio_format@,
                    sample_rate,
                    channels,
                    bitrate,
                ),
            ),
    {
        let mut steps: Vec<Step> = Vec::new();
        push_step(
            &mut steps,
            require_step(video_path, with_debug_path("Video file not found: ", video_path)),
        );
        push_step(
            &mut steps,
            require_step(pcm_path, with_debug_path("PCM file not found: ", pcm_path)),
        );
        push_parent_dir_step(&mut steps, output_path);
        if same_path(output_path, video_path) {
            proof {
                reveal_strlit("tmp_merge.mp4");
            }
            let temp = with_extension(output_path, "tmp_merge.mp4");
            let args = merge_pcm_args(
                video_path,
                pcm_path,
                temp.as_str(),
                audio_format,
                sample_rate,
                channels,
                bitrate,
            );
            push_step(
                &mut steps,
                run_step(
                    args,
                    "Failed to execute ffmpeg for PCM merge: ",
                    "FFmpeg PCM merge failed: ",
                    Cleanup::OnFailure(temp.clone()),
                ),
            );
            push_step(
                &mut steps,
                Step::Move {
                    from: temp,
                    to: owned(output_path),
                    error: owned("Failed to move temp file to output: "),
                },
            );
        } else {
            let args = merge_pcm_args(
                video_path,
                pcm_path,
                output_path,
                audio_format,
                sample_rate,
                channels,
                bitrate,
            );
            push_step(
                &mut steps,
                run_step(
                    args,
                    "Failed to execute ffmpeg for PCM merge: ",
                    "FFmpeg PCM merge failed: ",
                    Cleanup::Keep,
                ),
            );
        }
        push_step(&mut steps, require_step(output_path, owned("Output file was not created")));
        assert(steps_view(steps@) =~= merge_pcm_plan(
            video_path@,
            pcm_path@,
            output_path@,
            audio_format@,
            sample_rate,
            channels,
            bitrate,
        ));
        Job::new(self.bin_path.clone(), steps)
    }
}

/// With frames to encode, a video or GIF job ends successfully when every
/// file it checks exists and every operation and `ffmpeg` run succeeds.
pub proof fn lemma_frame_jobs_succeed_on_happy_path(
    program: Seq<char>,
    fs: FrameSequence,
    output: Seq<char>,
    vo: VideoEncodeOptions,
    go: GifEncodeOptions,
)
    requires
        fs.frame_count > 0,
    ensures
        happy_run(
            JobView::start(program, video_plan(fs, output, vo)),
            2 * video_plan(fs, output, vo).len(),
        ).current_action() == ActionView::Finish(Ok(())),
        happy_run(
            JobView::start(program, gif_plan(fs, output, go)),
            2 * gif_plan(fs, output, go).len(),
        ).current_action() == ActionView::Finish(Ok(())),
{
    let v = video_plan(fs, output, vo);
    let g = gif_plan(fs, output, go);
    assert(no_fail_steps(v));
    assert(no_fail_steps(g));
    lemma_happy_path_succeeds(program, v);
    lemma_happy_path_succeeds(program, g);
}

/// Without frames, a video or GIF job asks for nothing and fails at once.
pub proof fn lemma_empty_sequence_fails(
    program: Seq<char>,
    fs: FrameSequence,
    output: Seq<char>,
    vo: VideoEncodeOptions,
    go: GifEncodeOptions,
)
    requires
        fs.frame_count == 0,
    ensures
        JobView::start(program, video_plan(fs, output, vo)).current_action() == ActionView::Finish(
            Err("No frames to encode"@),
        ),
        JobView::start(program, gif_plan(fs, output, go)).current_action() == ActionView::Finish(
            Err("No frames to encode"@),
        ),
{
}

/// Audio encoding, audio merging and PCM merging jobs end successfully when
/// every file they check exists and every operation and `ffmpeg` run
/// succeeds.
pub proof fn lemma_audio_jobs_succeed_on_happy_path(
    program: Seq<char>,
    input: Seq<char>,
    video: Seq<char>,
    output: Seq<char>,
    format: Seq<char>,
    sample_rate: u32,
    channels: u16,
    bitrate: u32,
    spawn_error: Seq<char>,
    failure_error: Seq<char>,
)
    ensures
        happy_run(
            JobView::start(
                program,
                audio_plan(
                    input,
                    output,
                    format,
                    sample_rate,
                    channels,
                    bitrate,
                    spawn_error,
                    failure_error,
                ),
            ),
            2 * audio_plan(
                input,
                output,
                format,
                sample_rate,
                channels,
                bitrate,
                spawn_error,
                failure_error,
            ).len(),
        ).current_action() == ActionView::Finish(Ok(())),
        happy_run(
            JobView::start(program, merge_audio_plan(video, input, output)),
            2 * merge_audio_plan(video, input, output).len(),
        ).current_action() == ActionView::Finish(Ok(())),
        happy_run(
            JobView::start(
                program,
                merge_pcm_plan(video, input, output, format, sample_rate, channels, bitrate),
            ),
            2 * merge_pcm_plan(video, input, output, format, sample_rate, channels, bitrate).len(),
        ).current_action() == ActionView::Finish(Ok(())),
{
    let a = audio_plan(
        input,
        output,
        format,
        sample_rate,
        channels,
        bitrate,
        spawn_error,
        failure_error,
    );
    let m = merge_audio_plan(video, input, output);
    let p = merge_pcm_plan(video, input, output, format, sample_rate, channels, bitrate);
    assert(no_fail_steps(a));
    assert(no_fail_steps(m));
    assert(no_fail_steps(p));
    lemma_happy_path_succeeds(program, a);
    lemma_happy_path_succeeds(program, m);
    lemma_happy_path_succeeds(program, p);
}

/// Merging PCM audio into a video in place never has `ffmpeg` write the
/// video it reads: it writes the temporary file, which then replaces the
/// video, and is removed if `ffmpeg` fails.
pub proof fn lemma_in_place_merge_uses_temp(
    video: Seq<char>,
    pcm: Seq<char>,
    output: Seq<char>,
    format: Seq<char>,
    sample_rate: u32,
    channels: u16,
    bitrate: u32,
)
    requires
        paths_equal(output, video),
    ensures
        ({
            let plan = merge_pcm_plan(video, pcm, output, format, sample_rate, channels, bitrate);
            let temp = merge_temp_path(output);
            let k = plan.len() - 3;
            &&& plan[k] matches StepView::Run { args, cleanup, .. } && args.last() == temp
                && cleanup == CleanupView::OnFailure(temp)
            &&& plan[k + 1] == (StepView::Move {
                from: temp,
                to: output,
                error: "Failed to move temp file to output: "@,
            })
        }),
{
}

/// The two PCM audio encoders run exactly the same `ffmpeg` command; only
/// the texts of their errors differ.
pub proof fn lemma_audio_encoders_run_same_command(
    input: Seq<char>,
    output: Seq<char>,
    format: Seq<char>,
    sample_rate: u32,
    channels: u16,
    bitrate: u32,
)
    ensures
        ({
            let a = audio_plan(
                input,
                output,
                format,
                sample_rate,
                channels,
                bitrate,
                "Failed to execute ffmpeg for PCM encoding: "@,
                "FFmpeg PCM encoding failed: "@,
            );
            let b = audio_plan(
                input,
                output,
                format,
                sample_rate,
                channels,
                bitrate,
                "Failed to execute ffmpeg: "@,
                "FFmpeg encoding failed: "@,
            );
            &&& a.len() == b.len()
            &&& forall|i: int|
                0 <= i < a.len() ==> match (#[trigger] a[i], b[i]) {
                    (StepView::Run { args: x, .. }, StepView::Run { args: y, .. }) => x == y,
                    (StepView::Run { .. }, _) => false,
                    (_, StepView::Run { .. }) => false,
                    (x, y) => x == y,
                }
        }),
{
}

/// The `ffmpeg` run of a video encode reads the frames of the sequence at
/// the asked rate, scales them to the asked size, converts them to exactly
/// the asked pixel format, and overwrites the output.
pub proof fn lemma_video_job_runs_on_options(fs: FrameSequence, output: Seq<char>, o: VideoEncodeOptions)
    requires
        fs.frame_count > 0,
    ensures
        ({
            let plan = video_plan(fs, output, o);
            let h: int = if o.hwaccel != HwAccel::Disabled {
                2
            } else {
                0
            };
            &&& plan.len() >= 3
            &&& plan[plan.len() - 2] matches StepView::Run { args, .. } && {
                &&& h + 8 <= args.len()
                &&& args[h] == "-framerate"@
                &&& args[h + 1] == o.fps@
                &&& args[h + 2] == "-i"@
                &&& args[h + 3] == path_joined(fs.frames_dir@, fs.pattern@)
                &&& args[h + 4] == "-vf"@
                &&& starts_with(
                    args[h + 5],
                    "scale="@ + decimal(o.width as nat) + ":"@ + decimal(o.height as nat),
                )
                &&& ends_with(args[h + 5], "format="@ + o.pixel_format@)
                &&& args[args.len() - 2] == "-y"@
                &&& args[args.len() - 1] == output
            }
        }),
{
    lemma_video_args_shape(path_joined(fs.frames_dir@, fs.pattern@), output, o);
}

/// The GIF encode of a GIF job reads the frames of the sequence and the
/// palette, applies the palette with Bayer dithering exactly when dithering
/// is asked for, loops as asked, overwrites the output, and always removes
/// the palette afterwards; the palette is generated before, limited to the
/// asked number of colours when fewer than 256 are asked for.
pub proof fn lemma_gif_job_runs_on_options(fs: FrameSequence, output: Seq<char>, o: GifEncodeOptions)
    requires
        fs.frame_count > 0,
    ensures
        ({
            let plan = gif_plan(fs, output, o);
            let input = path_joined(fs.frames_dir@, fs.pattern@);
            let palette = palette_path(output);
            &&& plan.len() >= 6
            &&& plan[plan.len() - 3] matches StepView::Run { args, cleanup, .. } && {
                &&& args.len() == 12
                &&& args[1] == o.fps@
                &&& args[3] == input
                &&& args[5] == palette
                &&& args[6] == "-filter_complex"@
                &&& o.dither ==> ends_with(
                    args[7],
                    "paletteuse=dither=bayer:bayer_scale=5:diff_mode=rectangle"@,
                )
                &&& !o.dither ==> ends_with(args[7], "paletteuse=dither=none"@)
                &&& args[9] == (if o.loop_animation {
                    "0"@
                } else {
                    "-1"@
                })
                &&& args[11] == output
                &&& cleanup == CleanupView::Always(palette)
            }
            &&& plan[plan.len() - 5] matches StepView::Run { args, .. } && {
                &&& args.len() == 8
                &&& args[1] == o.fps@
                &&& args[3] == input
                &&& args[4] == "-vf"@
                &&& o.max_colors < 256 ==> ends_with(
                    args[5],
                    "palettegen=max_colors="@ + decimal(o.max_colors as nat) + ":stats_mode=diff"@,
                )
                &&& o.max_colors >= 256 ==> ends_with(args[5], "palettegen=stats_mode=diff"@)
                &&& args[7] == palette
            }
        }),
{
    lemma_gif_args_shape(path_joined(fs.frames_dir@, fs.pattern@), palette_path(output), output, o);
    lemma_palette_filter_shape(o);
}

/// The bit rate, in kbit/s, that an audio encoder is asked for: the given
/// rate divided by 1000, or the default when no rate is given.
pub open spec fn asked_kbit(bitrate: u32, default_k: nat) -> Seq<char> {
    if bitrate > 0 {
        decimal((bitrate / 1000) as nat) + "k"@
    } else {
        decimal(default_k) + "k"@
    }
}

proof fn lemma_format_names_differ()
    ensures
        "mp3"@ != "aac"@,
        "mp3"@ != "wav"@,
        "mp3"@ != "flac"@,
        "mp3"@ != "opus"@,
        "aac"@ != "wav"@,
        "aac"@ != "flac"@,
        "aac"@ != "opus"@,
        "wav"@ != "flac"@,
        "wav"@ != "opus"@,
        "flac"@ != "opus"@,
{
    reveal_strlit("mp3");
    reveal_strlit("aac");
    reveal_strlit("wav");
    reveal_strlit("flac");
    reveal_strlit("opus");
    assert("mp3"@[0] != "aac"@[0]);
    assert("mp3"@[0] != "wav"@[0]);
    assert("mp3"@[0] != "flac"@[0]);
    assert("mp3"@[0] != "opus"@[0]);
    assert("aac"@[0] != "wav"@[0]);
    assert("aac"@[0] != "flac"@[0]);
    assert("aac"@[0] != "opus"@[0]);
    assert("wav"@[0] != "flac"@[0]);
    assert("wav"@[0] != "opus"@[0]);
    assert("flac"@[0] != "opus"@[0]);
}

/// The `ffmpeg` run of a PCM audio encode reads the input as 32-bit float
/// PCM at the caller's sample rate and channel count, encodes it with the
/// format's encoder at the caller's bit rate (or the format's default), and
/// writes the output, which comes last.
pub proof fn lemma_audio_job_runs_on_parameters(
    input: Seq<char>,
    output: Seq<char>,
    format: Seq<char>,
    sample_rate: u32,
    channels: u16,
    bitrate: u32,
    spawn_error: Seq<char>,
    failure_error: Seq<char>,
)
    ensures
        ({
            let plan = audio_plan(
                input,
                output,
                format,
                sample_rate,
                channels,
                bitrate,
                spawn_error,
                failure_error,
            );
            &&& plan.len() >= 3
            &&& plan[plan.len() - 2] matches StepView::Run { args, .. } && {
                &&& args.len() >= 12
                &&& args[1] == "-f"@ && args[2] == "f32le"@
                &&& args[3] == "-ar"@ && args[4] == decimal(sample_rate as nat)
                &&& args[5] == "-ac"@ && args[6] == decimal(channels as nat)
                &&& args[7] == "-i"@ && args[8] == input
                &&& args[9] == "-acodec"@
                &&& args[args.len() - 1] == output
                &&& format == "mp3"@ ==> args[10] == "libmp3lame"@ && args[11] == "-b:a"@
                    && args[12] == asked_kbit(bitrate, 192)
                &&& format == "aac"@ ==> args[10] == "aac"@ && args[11] == "-b:a"@ && args[12]
                    == asked_kbit(bitrate, 192)
                &&& format == "opus"@ ==> args[10] == "libopus"@ && args[11] == "-b:a"@
                    && args[12] == asked_kbit(bitrate, 128)
                &&& format == "wav"@ ==> args[10] == "pcm_s16le"@ && args.len() == 12
                &&& format == "flac"@ ==> args[10] == "flac"@ && args[11]
                    == "-compression_level"@ && args[12] == "8"@
                &&& (format != "mp3"@ && format != "aac"@ && format != "opus"@ && format
                    != "wav"@ && format != "flac"@) ==> args[10] == "aac"@ && args[11] == "-b:a"@
                    && args[12] == asked_kbit(bitrate, 192)
            }
        }),
{
    lemma_format_names_differ();
}

/// The `ffmpeg` run of a PCM merge copies the video, reads the PCM as 32-bit
/// floats at the caller's sample rate and channel count, encodes it with
/// the format's encoder at the caller's bit rate (or the format's default),
/// and writes the temporary file when merging in place, the output
/// otherwise.
pub proof fn lemma_merge_pcm_job_runs_on_parameters(
    video: Seq<char>,
    pcm: Seq<char>,
    output: Seq<char>,
    format: Seq<char>,
    sample_rate: u32,
    channels: u16,
    bitrate: u32,
)
    ensures
        ({
            let plan = merge_pcm_plan(video, pcm, output, format, sample_rate, channels, bitrate);
            let k: int = if paths_equal(output, video) {
                plan.len() - 3
            } else {
                plan.len() - 2
            };
            &&& 0 <= k < plan.len()
            &&& plan[k] matches StepView::Run { args, .. } && {
                &&& args.len() >= 21
                &&& args[1] == "-i"@ && args[2] == video
                &&& args[3] == "-f"@ && args[4] == "f32le"@
                &&& args[5] == "-ar"@ && args[6] == decimal(sample_rate as nat)
                &&& args[7] == "-ac"@ && args[8] == decimal(channels as nat)
                &&& args[9] == "-i"@ && args[10] == pcm
                &&& args[11] == "-c:v"@ && args[12] == "copy"@
                &&& args[13] == "-c:a"@
                &&& args[args.len() - 6] == "-map"@ && args[args.len() - 5] == "0:v:0"@
                &&& args[args.len() - 4] == "-map"@ && args[args.len() - 3] == "1:a:0"@
                &&& args[args.len() - 2] == "-shortest"@
                &&& args[args.len() - 1] == (if paths_equal(output, video) {
                    merge_temp_path(output)
                } else {
                    output
                })
                &&& format == "mp3"@ ==> args[14] == "libmp3lame"@
                &&& format == "aac"@ ==> args[14] == "aac"@
                &&& format == "opus"@ ==> args[14] == "libopus"@
                &&& format == "wav"@ ==> args[14] == "pcm_s16le"@ && args[15] == "-map"@
                &&& format == "flac"@ ==> args[14] == "flac"@ && args[15] == "-map"@
                &&& (format == "mp3"@ || format == "aac"@) && (bitrate == 0 || bitrate >= 1000)
                    ==> args[15] == "-b:a"@ && args[16] == asked_kbit(bitrate, 192)
                &&& format == "opus"@ && (bitrate == 0 || bitrate >= 1000) ==> args[15]
                    == "-b:a"@ && args[16] == asked_kbit(bitrate, 128)
            }
        }),
{
    lemma_format_names_differ();
    assert(bitrate >= 1000 ==> bitrate / 1000 > 0) by (nonlinear_arith);
}

/// The `ffmpeg` run of an audio merge reads the video and the audio file,
/// copies the video stream, encodes the audio as AAC and writes the output.
pub proof fn lemma_merge_audio_job_runs_on_files(video: Seq<char>, audio: Seq<char>, output: Seq<char>)
    ensures
        ({
            let plan = merge_audio_plan(video, audio, output);
            &&& plan.len() >= 4
            &&& plan[plan.len() - 2] matches StepView::Run { args, .. } && {
                &&& args.len() == 15
                &&& args[1] == "-i"@ && args[2] == video
                &&& args[3] == "-i"@ && args[4] == audio
                &&& args[5] == "-c:v"@ && args[6] == "copy"@
                &&& args[7] == "-c:a"@ && args[8] == "aac"@
                &&& args[9] == "-map"@ && args[10] == "0:v:0"@
                &&& args[11] == "-map"@ && args[12] == "1:a:0"@
                &&& args[13] == "-shortest"@
                &&& args[14] == output
            }
        }),
{
}

/// Every job checks its inputs before anything else, with errors that name
/// the missing file, and checks at the end that its output was written.
pub proof fn lemma_jobs_check_inputs_and_output(
    fs: FrameSequence,
    input: Seq<char>,
    video: Seq<char>,
    output: Seq<char>,
    format: Seq<char>,
    sample_rate: u32,
    channels: u16,
    bitrate: u32,
    spawn_error: Seq<char>,
    failure_error: Seq<char>,
    vo: VideoEncodeOptions,
    go: GifEncodeOptions,
)
    ensures
        ({
            let p = audio_plan(
                input,
                output,
                format,
                sample_rate,
                channels,
                bitrate,
                spawn_error,
                failure_error,
            );
            &&& p[0] matches StepView::RequireFile { path, error } && path == input && ends_with(
                error,
                path_debug_text(input),
            )
            &&& p.last() matches StepView::RequireFile { path, .. } && path == output
        }),
        ({
            let p = merge_audio_plan(video, input, output);
            &&& p[0] matches StepView::RequireFile { path, error } && path == video && ends_with(
                error,
                path_debug_text(video),
            )
            &&& p[1] matches StepView::RequireFile { path, error } && path == input && ends_with(
                error,
                path_debug_text(input),
            )
            &&& p.last() matches StepView::RequireFile { path, .. } && path == output
        }),
        ({
            let p = merge_pcm_plan(video, input, output, format, sample_rate, channels, bitrate);
            &&& p[0] matches StepView::RequireFile { path, error } && path == video && ends_with(
                error,
                path_debug_text(video),
            )
            &&& p[1] matches StepView::RequireFile { path, error } && path == input && ends_with(
                error,
                path_debug_text(input),
            )
            &&& p.last() matches StepView::RequireFile { path, .. } && path == output
        }),
        fs.frame_count > 0 ==> (video_plan(fs, output, vo).last() matches StepView::RequireFile {
            path,
            ..
        } && path == output),
        fs.frame_count > 0 ==> ({
            let p = gif_plan(fs, output, go);
            &&& p[p.len() - 4] matches StepView::RequireFile { path, error } && path
                == palette_path(output) && ends_with(error, path_debug_text(palette_path(output)))
            &&& p[p.len() - 2] matches StepView::RequireFile { path, .. } && path == output
            &&& p.last() matches StepView::RequireNonEmpty { path, .. } && path == output
        }),
{
    lemma_ends_with_appended("PCM file not found: "@, path_debug_text(input));
    lemma_ends_with_appended("Video file not found: "@, path_debug_text(video));
    lemma_ends_with_appended("Audio file not found: "@, path_debug_text(input));
    lemma_ends_with_appended("Palette file not created: "@, path_debug_text(palette_path(output)));
}

} // verus!
