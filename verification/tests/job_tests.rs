use ffmpegx::{
    Action, DirEntryInfo, Event, Ffmpeg, FrameSequence, GifEncodeOptions, Job, RunOutput,
    VideoEncodeOptions,
};

fn ffmpeg() -> Ffmpeg {
    Ffmpeg { bin_path: "/usr/bin/ffmpeg".to_string() }
}

fn frames() -> FrameSequence {
    FrameSequence::from_dir("/f", true, Some(vec![DirEntryInfo { path: "/f/000001.png".to_string(), is_file: true }])).unwrap()
}

fn expect_check(job: &Job, path: &str) {
    match job.action() {
        Action::CheckExists(p) => assert_eq!(p, path),
        a => panic!("expected a check of {}, got {:?}", path, a),
    }
}

fn expect_remove(job: &Job, path: &str) {
    match job.action() {
        Action::RemoveFile(p) => assert_eq!(p, path),
        a => panic!("expected removal of {}, got {:?}", path, a),
    }
}

fn expect_run(job: &Job) -> Vec<String> {
    match job.action() {
        Action::RunFfmpeg { program, args } => {
            assert_eq!(program, "/usr/bin/ffmpeg");
            args
        },
        a => panic!("expected an ffmpeg run, got {:?}", a),
    }
}

fn expect_finish(job: &Job) -> Result<(), String> {
    match job.action() {
        Action::Finish(r) => r,
        a => panic!("expected the end, got {:?}", a),
    }
}

fn give(job: &mut Job, e: Event) {
    assert!(job.accepts(&e));
    job.advance(e);
}

fn ran(success: bool, stderr: &[u8]) -> Event {
    Event::Ran(Ok(RunOutput { success, stderr: stderr.to_vec() }))
}

#[test]
fn video_job_happy_path() {
    let mut job = ffmpeg().encode_frames_to_video(&frames(), "/out/v.mp4", &VideoEncodeOptions::default());
    expect_check(&job, "/out/v.mp4");
    give(&mut job, Event::Exists(true));
    expect_remove(&job, "/out/v.mp4");
    give(&mut job, Event::Removed);
    expect_check(&job, "/out");
    give(&mut job, Event::Exists(false));
    match job.action() {
        Action::CreateDir(d) => assert_eq!(d, "/out"),
        a => panic!("{:?}", a),
    }
    give(&mut job, Event::DirCreated(Ok(())));
    let args = expect_run(&job);
    assert_eq!(args[3], "/f/%06d.png");
    assert_eq!(args[args.len() - 1], "/out/v.mp4");
    assert!(!job.accepts(&Event::Exists(true)));
    give(&mut job, ran(true, b""));
    expect_check(&job, "/out/v.mp4");
    give(&mut job, Event::Exists(true));
    assert!(job.is_finished());
    assert_eq!(expect_finish(&job), Ok(()));
    assert!(!job.accepts(&Event::Removed));
}

#[test]
fn video_job_without_frames_fails_at_once() {
    let fs = FrameSequence { frames_dir: "/f".to_string(), pattern: "%06d.png".to_string(), frame_count: 0 };
    let job = ffmpeg().encode_frames_to_video(&fs, "/out/v.mp4", &VideoEncodeOptions::default());
    assert_eq!(expect_finish(&job), Err("No frames to encode".to_string()));
    let job = ffmpeg().encode_frames_to_gif(&fs, "/out/v.gif", &GifEncodeOptions::default());
    assert_eq!(expect_finish(&job), Err("No frames to encode".to_string()));
}

#[test]
fn video_job_errors() {
    let o = VideoEncodeOptions::default();
    // Directory creation fails.
    let mut job = ffmpeg().encode_frames_to_video(&frames(), "/out/v.mp4", &o);
    give(&mut job, Event::Exists(false));
    give(&mut job, Event::Exists(false));
    give(&mut job, Event::DirCreated(Err("PermissionDenied".to_string())));
    assert_eq!(expect_finish(&job), Err("Failed to create output directory: PermissionDenied".to_string()));
    // ffmpeg cannot be started.
    let mut job = ffmpeg().encode_frames_to_video(&frames(), "/out/v.mp4", &o);
    give(&mut job, Event::Exists(false));
    give(&mut job, Event::Exists(true));
    give(&mut job, Event::Ran(Err("No such file or directory (os error 2)".to_string())));
    assert_eq!(
        expect_finish(&job),
        Err("Failed to execute ffmpeg for video encoding: No such file or directory (os error 2)".to_string())
    );
    // ffmpeg fails; its standard error is decoded leniently.
    let mut job = ffmpeg().encode_frames_to_video(&frames(), "/out/v.mp4", &o);
    give(&mut job, Event::Exists(false));
    give(&mut job, Event::Exists(true));
    give(&mut job, ran(false, b"bad \xff input"));
    assert_eq!(expect_finish(&job), Err("FFmpeg video encoding failed: bad \u{FFFD} input".to_string()));
    // The output never appears.
    let mut job = ffmpeg().encode_frames_to_video(&frames(), "/out/v.mp4", &o);
    give(&mut job, Event::Exists(false));
    give(&mut job, Event::Exists(true));
    give(&mut job, ran(true, b"noise"));
    give(&mut job, Event::Exists(false));
    assert_eq!(expect_finish(&job), Err("Output video file was not created".to_string()));
}

#[test]
fn output_without_directory_checks_the_empty_parent() {
    let mut job = ffmpeg().encode_frames_to_video(&frames(), "v.mp4", &VideoEncodeOptions::default());
    expect_check(&job, "v.mp4");
    give(&mut job, Event::Exists(false));
    expect_check(&job, "");
}

#[test]
fn gif_job_happy_path_removes_the_palette() {
    let mut job = ffmpeg().encode_frames_to_gif(&frames(), "/out/anim.gif", &GifEncodeOptions::default());
    expect_check(&job, "/out");
    give(&mut job, Event::Exists(true));
    expect_check(&job, "/out/anim.gif");
    give(&mut job, Event::Exists(false));
    let palette_run = expect_run(&job);
    assert_eq!(palette_run[palette_run.len() - 1], "/out/anim.palette.png");
    give(&mut job, ran(true, b""));
    expect_check(&job, "/out/anim.palette.png");
    give(&mut job, Event::Exists(true));
    let gif_run = expect_run(&job);
    assert_eq!(gif_run[5], "/out/anim.palette.png");
    assert_eq!(gif_run[gif_run.len() - 1], "/out/anim.gif");
    give(&mut job, ran(true, b""));
    expect_remove(&job, "/out/anim.palette.png");
    give(&mut job, Event::Removed);
    expect_check(&job, "/out/anim.gif");
    give(&mut job, Event::Exists(true));
    match job.action() {
        Action::FileSize(p) => assert_eq!(p, "/out/anim.gif"),
        a => panic!("{:?}", a),
    }
    give(&mut job, Event::Size(Ok(1024)));
    assert_eq!(expect_finish(&job), Ok(()));
}

#[test]
fn gif_job_errors() {
    let o = GifEncodeOptions::default();
    // The palette is not written.
    let mut job = ffmpeg().encode_frames_to_gif(&frames(), "/out/anim.gif", &o);
    give(&mut job, Event::Exists(true));
    give(&mut job, Event::Exists(false));
    give(&mut job, ran(true, b""));
    give(&mut job, Event::Exists(false));
    assert_eq!(expect_finish(&job), Err("Palette file not created: \"/out/anim.palette.png\"".to_string()));
    // Palette generation fails.
    let mut job = ffmpeg().encode_frames_to_gif(&frames(), "/out/anim.gif", &o);
    give(&mut job, Event::Exists(true));
    give(&mut job, Event::Exists(false));
    give(&mut job, ran(false, b"no frames"));
    assert_eq!(expect_finish(&job), Err("FFmpeg palette generation failed: no frames".to_string()));
    // Encoding fails: the palette is removed first.
    let mut job = ffmpeg().encode_frames_to_gif(&frames(), "/out/anim.gif", &o);
    give(&mut job, Event::Exists(true));
    give(&mut job, Event::Exists(false));
    give(&mut job, ran(true, b""));
    give(&mut job, Event::Exists(true));
    give(&mut job, ran(false, b"oops"));
    expect_remove(&job, "/out/anim.palette.png");
    give(&mut job, Event::Removed);
    assert_eq!(expect_finish(&job), Err("FFmpeg GIF encoding failed: oops".to_string()));
    // Encoding cannot start: the palette stays.
    let mut job = ffmpeg().encode_frames_to_gif(&frames(), "/out/anim.gif", &o);
    give(&mut job, Event::Exists(true));
    give(&mut job, Event::Exists(false));
    give(&mut job, ran(true, b""));
    give(&mut job, Event::Exists(true));
    give(&mut job, Event::Ran(Err("gone".to_string())));
    assert_eq!(expect_finish(&job), Err("Failed to encode GIF: gone".to_string()));
    // Empty output, and an unreadable size.
    for (answer, message) in [
        (Event::Size(Ok(0)), "Output GIF file is empty"),
        (Event::Size(Err("NotFound".to_string())), "Failed to get output file size: NotFound"),
    ] {
        let mut job = ffmpeg().encode_frames_to_gif(&frames(), "/out/anim.gif", &o);
        give(&mut job, Event::Exists(true));
        give(&mut job, Event::Exists(false));
        give(&mut job, ran(true, b""));
        give(&mut job, Event::Exists(true));
        give(&mut job, ran(true, b""));
        give(&mut job, Event::Removed);
        give(&mut job, Event::Exists(true));
        give(&mut job, answer);
        assert_eq!(expect_finish(&job), Err(message.to_string()));
    }
}

#[test]
fn encode_frames_picks_gif_by_extension() {
    let v = VideoEncodeOptions::default();
    let g = GifEncodeOptions::default();
    // A GIF job starts with the output's directory; a video job with the output.
    let job = ffmpeg().encode_frames(&frames(), "/out/anim.GIF", &v, &g, false);
    expect_check(&job, "/out");
    let job = ffmpeg().encode_frames(&frames(), "/out/clip.mp4", &v, &g, false);
    expect_check(&job, "/out/clip.mp4");
    let job = ffmpeg().encode_frames(&frames(), "/out/clip.mp4", &v, &g, true);
    expect_check(&job, "/out");
    let job = ffmpeg().encode_frames(&frames(), "/out/gif", &v, &g, false);
    expect_check(&job, "/out/gif");
}

#[test]
fn audio_jobs() {
    let mut job = ffmpeg().encode_pcm_to_audio("/a/in.pcm", "/b/out.flac", "flac", 44100, 2, 0);
    give(&mut job, Event::Exists(false));
    assert_eq!(expect_finish(&job), Err("PCM file not found: \"/a/in.pcm\"".to_string()));

    let mut job = ffmpeg().encode_pcm_to_audio("/a/in.pcm", "/b/out.flac", "flac", 44100, 2, 0);
    give(&mut job, Event::Exists(true));
    expect_check(&job, "/b");
    give(&mut job, Event::Exists(true));
    let args = expect_run(&job);
    assert_eq!(args[10..13], ["flac".to_string(), "-compression_level".to_string(), "8".to_string()][..]);
    give(&mut job, ran(false, b"x"));
    assert_eq!(expect_finish(&job), Err("FFmpeg PCM encoding failed: x".to_string()));

    let mut job = ffmpeg().encode_audio_to_format("/a/in.pcm", "/b/out.flac", "flac", 44100, 2, 0);
    give(&mut job, Event::Exists(true));
    give(&mut job, Event::Exists(true));
    assert_eq!(expect_run(&job), args);
    give(&mut job, Event::Ran(Err("e".to_string())));
    assert_eq!(expect_finish(&job), Err("Failed to execute ffmpeg: e".to_string()));

    let mut job = ffmpeg().encode_audio_to_format("/a/in.pcm", "/b/out.flac", "flac", 44100, 2, 0);
    give(&mut job, Event::Exists(true));
    give(&mut job, Event::Exists(true));
    give(&mut job, ran(true, b""));
    give(&mut job, Event::Exists(false));
    assert_eq!(expect_finish(&job), Err("Encoded audio file was not created".to_string()));
}

#[test]
fn merge_audio_job() {
    let mut job = ffmpeg().merge_audio_into_video("/v.mp4", "/a.aac", "/o/m.mp4");
    give(&mut job, Event::Exists(false));
    assert_eq!(expect_finish(&job), Err("Video file not found: \"/v.mp4\"".to_string()));
    let mut job = ffmpeg().merge_audio_into_video("/v.mp4", "/a.aac", "/o/m.mp4");
    give(&mut job, Event::Exists(true));
    expect_check(&job, "/a.aac");
    give(&mut job, Event::Exists(false));
    assert_eq!(expect_finish(&job), Err("Audio file not found: \"/a.aac\"".to_string()));
    let mut job = ffmpeg().merge_audio_into_video("/v.mp4", "/a.aac", "/o/m.mp4");
    give(&mut job, Event::Exists(true));
    give(&mut job, Event::Exists(true));
    give(&mut job, Event::Exists(true));
    give(&mut job, ran(true, b""));
    give(&mut job, Event::Exists(false));
    assert_eq!(expect_finish(&job), Err("Merged output file was not created".to_string()));
}

#[test]
fn in_place_pcm_merge_goes_through_a_temporary_file() {
    let mut job = ffmpeg().merge_pcm_into_video("/m/v.mp4", "/m/a.pcm", "/m/./v.mp4", "aac", 48000, 2, 0);
    give(&mut job, Event::Exists(true));
    give(&mut job, Event::Exists(true));
    expect_check(&job, "/m");
    give(&mut job, Event::Exists(true));
    let args = expect_run(&job);
    assert_eq!(args[args.len() - 1], "/m/./v.tmp_merge.mp4");
    give(&mut job, ran(true, b""));
    match job.action() {
        Action::Rename { from, to } => {
            assert_eq!(from, "/m/./v.tmp_merge.mp4");
            assert_eq!(to, "/m/./v.mp4");
        },
        a => panic!("{:?}", a),
    }
    give(&mut job, Event::Moved(Ok(())));
    expect_check(&job, "/m/./v.mp4");
    give(&mut job, Event::Exists(true));
    assert_eq!(expect_finish(&job), Ok(()));

    // A failed merge removes the temporary file.
    let mut job = ffmpeg().merge_pcm_into_video("/m/v.mp4", "/m/a.pcm", "/m/v.mp4", "aac", 48000, 2, 0);
    give(&mut job, Event::Exists(true));
    give(&mut job, Event::Exists(true));
    give(&mut job, Event::Exists(true));
    give(&mut job, ran(false, b"bad"));
    expect_remove(&job, "/m/v.tmp_merge.mp4");
    give(&mut job, Event::Removed);
    assert_eq!(expect_finish(&job), Err("FFmpeg PCM merge failed: bad".to_string()));

    // A failed move is reported.
    let mut job = ffmpeg().merge_pcm_into_video("/m/v.mp4", "/m/a.pcm", "/m/v.mp4", "aac", 48000, 2, 0);
    give(&mut job, Event::Exists(true));
    give(&mut job, Event::Exists(true));
    give(&mut job, Event::Exists(true));
    give(&mut job, ran(true, b""));
    give(&mut job, Event::Moved(Err("busy".to_string())));
    assert_eq!(expect_finish(&job), Err("Failed to move temp file to output: busy".to_string()));
}

#[test]
fn pcm_merge_to_another_file_writes_it_directly() {
    let mut job = ffmpeg().merge_pcm_into_video("/m/v.mp4", "/m/a.pcm", "/n/o.mp4", "mp3", 44100, 2, 0);
    give(&mut job, Event::Exists(true));
    expect_check(&job, "/m/a.pcm");
    give(&mut job, Event::Exists(false));
    assert_eq!(expect_finish(&job), Err("PCM file not found: \"/m/a.pcm\"".to_string()));

    let mut job = ffmpeg().merge_pcm_into_video("/m/v.mp4", "/m/a.pcm", "/n/o.mp4", "mp3", 44100, 2, 0);
    give(&mut job, Event::Exists(true));
    give(&mut job, Event::Exists(true));
    give(&mut job, Event::Exists(true));
    let args = expect_run(&job);
    assert_eq!(args[args.len() - 1], "/n/o.mp4");
    give(&mut job, Event::Ran(Err("x".to_string())));
    assert_eq!(expect_finish(&job), Err("Failed to execute ffmpeg for PCM merge: x".to_string()));

    let mut job = ffmpeg().merge_pcm_into_video("/m/v.mp4", "/m/a.pcm", "/n/o.mp4", "mp3", 44100, 2, 0);
    give(&mut job, Event::Exists(true));
    give(&mut job, Event::Exists(true));
    give(&mut job, Event::Exists(true));
    give(&mut job, ran(true, b""));
    give(&mut job, Event::Exists(false));
    assert_eq!(expect_finish(&job), Err("Output file was not created".to_string()));
}

#[test]
fn jobs_end_within_twice_their_steps() {
    // Every answer brings the job closer to its end.
    let mut job = ffmpeg().encode_frames_to_gif(&frames(), "/out/anim.gif", &GifEncodeOptions::default());
    let mut answers = 0;
    while !job.is_finished() {
        let e = match job.action() {
            Action::CheckExists(_) => Event::Exists(true),
            Action::RemoveFile(_) => Event::Removed,
            Action::CreateDir(_) => Event::DirCreated(Ok(())),
            Action::RunFfmpeg { .. } => ran(true, b""),
            Action::FileSize(_) => Event::Size(Ok(1)),
            Action::Rename { .. } => Event::Moved(Ok(())),
            Action::Finish(_) => unreachable!(),
        };
        give(&mut job, e);
        answers += 1;
    }
    assert!(answers <= 2 * 7);
    assert_eq!(expect_finish(&job), Ok(()));
}
