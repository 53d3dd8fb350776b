use ffmpegx::{DirEntryInfo, FrameSequence};

fn entry(path: &str, is_file: bool) -> DirEntryInfo {
    DirEntryInfo { path: path.to_string(), is_file }
}

#[test]
fn missing_directory_is_reported() {
    let r = FrameSequence::from_dir("/no/such/frames", false, None);
    assert_eq!(r.unwrap_err(), "Frames directory not found: \"/no/such/frames\"");
}

#[test]
fn directory_without_frames_is_reported() {
    let entries = vec![entry("/f/notes.txt", true), entry("/f/sub.png", false), entry("/f/README", true)];
    let r = FrameSequence::from_dir("/f", true, Some(entries));
    assert_eq!(r.unwrap_err(), "No frame files found in: \"/f\"");
}

#[test]
fn unreadable_listing_counts_as_empty() {
    let r = FrameSequence::from_dir("/f", true, None);
    assert_eq!(r.unwrap_err(), "No frame files found in: \"/f\"");
}

#[test]
fn frames_are_counted_in_any_case() {
    let entries = vec![
        entry("/f/000001.PNG", true),
        entry("/f/000002.Jpeg", true),
        entry("/f/000003.png", true),
        entry("/f/list.txt", true),
        entry("/f/dir.jpg", false),
    ];
    let fs = FrameSequence::from_dir("/f", true, Some(entries)).unwrap();
    assert_eq!(fs.frame_count, 3);
    assert_eq!(fs.pattern, "%06d.png");
    assert_eq!(fs.frames_dir, "/f");
}

#[test]
fn last_frame_kind_picks_the_pattern() {
    let entries = vec![entry("/f/000001.png", true), entry("/f/000002.JPG", true)];
    let fs = FrameSequence::from_dir("/f", true, Some(entries)).unwrap();
    assert_eq!(fs.frame_count, 2);
    assert_eq!(fs.pattern, "%06d.jpg");
}

#[test]
fn input_pattern_joins_directory_and_pattern() {
    let fs = FrameSequence { frames_dir: "/tmp/frames".to_string(), pattern: "%06d.png".to_string(), frame_count: 4 };
    assert_eq!(fs.get_input_pattern(), "/tmp/frames/%06d.png");
    let fs = FrameSequence { frames_dir: "/tmp/frames/".to_string(), pattern: "%06d.jpg".to_string(), frame_count: 4 };
    assert_eq!(fs.get_input_pattern(), "/tmp/frames/%06d.jpg");
}
