//! Frame sequences: a directory of numbered PNG or JPEG frames, found from
//! a listing of the directory.
use vstd::prelude::*;
use vstd::string::*;
use crate::text::{
    debug_path, extension_of, join_path, lowercased, owned, path_debug_text, path_extension,
    path_joined, same_text, to_lowercase,
};

verus! {

broadcast use vstd::string::group_string_axioms;

/// One entry of a directory listing: its path, and whether it is a regular
/// file.
#[derive(Debug)]
pub struct DirEntryInfo {
    pub path: String,
    pub is_file: bool,
}

/// Helper struct for frame sequence encoding
#[derive(Debug)]
pub struct FrameSequence {
    pub frames_dir: String,
    pub pattern: String,
    pub frame_count: u64,
}

/// Extensions (in lower case) of the files taken as frames.
pub open spec fn is_frame_extension(x: Seq<char>) -> bool {
    x == "png"@ || x == "jpg"@ || x == "jpeg"@
}

/// The lower-cased extension of an entry that is a frame file, if it is one.
pub open spec fn frame_extension(e: DirEntryInfo) -> Option<Seq<char>> {
    if e.is_file && path_extension(e.path@) is Some && is_frame_extension(
        lowercased(path_extension(e.path@)->0),
    ) {
        Some(lowercased(path_extension(e.path@)->0))
    } else {
        None
    }
}

/// Number of frame files among the entries.
pub open spec fn count_frames(es: Seq<DirEntryInfo>) -> nat
    decreases es.len(),
{
    if es.len() == 0 {
        0
    } else {
        count_frames(es.drop_last()) + if frame_extension(es.last()) is Some {
            1nat
        } else {
            0nat
        }
    }
}

/// The `ffmpeg` input pattern for the entries: a JPEG pattern when the last
/// frame file listed is a JPEG, the PNG pattern otherwise.
pub open spec fn frame_pattern(es: Seq<DirEntryInfo>) -> Seq<char>
    decreases es.len(),
{
    if es.len() == 0 {
        "%06d.png"@
    } else {
        match frame_extension(es.last()) {
            Some(x) => if x == "png"@ {
                "%06d.png"@
            } else {
                "%06d.jpg"@
            },
            None => frame_pattern(es.drop_last()),
        }
    }
}

/// The entries of an optional listing (a listing that could not be read
/// counts as empty).
pub open spec fn listed(entries: Option<Vec<DirEntryInfo>>) -> Seq<DirEntryInfo> {
    match entries {
        Some(v) => v@,
        None => Seq::empty(),
    }
}

/// The lower-cased extension of a frame file, or `None`.
fn frame_extension_of(e: &DirEntryInfo) -> (r: Option<String>)
    ensures
        match r {
            Some(x) => frame_extension(*e) == Some(x@),
            None => frame_extension(*e) is None,
        },
{
    if !e.is_file {
        return None;
    }
    match extension_of(e.path.as_str()) {
        Some(ext) => {
            let lower = to_lowercase(ext.as_str());
            if same_text(lower.as_str(), "png") || same_text(lower.as_str(), "jpg") || same_text(
                lower.as_str(),
                "jpeg",
            ) {
                Some(lower)
            } else {
                None
            }
        },
        None => None,
    }
}

impl FrameSequence {
    /// Create a new frame sequence from a directory containing PNG or JPEG
    /// frames, given whether the directory exists and its listing (`None`
    /// where it could not be read).
    pub fn from_dir(frames_dir: &str, dir_exists: bool, entries: Option<Vec<DirEntryInfo>>) -> (r:
        Result<Self, String>)
        ensures
            !dir_exists ==> (r matches Err(e) && e@ == "Frames directory not found: "@
                + path_debug_text(frames_dir@)),
            dir_exists && count_frames(listed(entries)) == 0 ==> (r matches Err(e) && e@
                == "No frame files found in: "@ + path_debug_text(frames_dir@)),
            dir_exists && count_frames(listed(entries)) > 0 ==> (r matches Ok(fs) && fs.frames_dir@
                == frames_dir@ && fs.pattern@ == frame_pattern(listed(entries)) && fs.frame_count
                == count_frames(listed(entries))),
    {
        if !dir_exists {
            let msg = owned("Frames directory not found: ").concat(debug_path(frames_dir).as_str());
            return Err(msg);
        }
        let ghost es = listed(entries);
        let mut frame_count: u64 = 0;
        let mut pattern = owned("%06d.png");
        if let Some(list) = &entries {
            let n = list.len();
            let mut i: usize = 0;
            while i < n
                invariant
                    n == list@.len(),
                    es == list@,
                    i <= n,
                    frame_count == count_frames(es.take(i as int)),
                    frame_count <= i,
                    pattern@ == frame_pattern(es.take(i as int)),
                decreases n - i,
            {
                proof {
                    assert(es.take(i + 1).drop_last() =~= es.take(i as int));
                    assert(es.take(i + 1).last() == es[i as int]);
                }
                match frame_extension_of(&list[i]) {
                    Some(x) => {
                        frame_count = frame_count + 1;
                        if same_text(x.as_str(), "png") {
                            pattern = owned("%06d.png");
                        } else {
                            pattern = owned("%06d.jpg");
                        }
                    },
                    None => {},
                }
                i = i + 1;
            }
            assert(es.take(n as int) =~= es);
        } else {
            assert(es.take(0) =~= es);
        }
        if frame_count == 0 {
            let msg = owned("No frame files found in: ").concat(debug_path(frames_dir).as_str());
            return Err(msg);
        }
        Ok(FrameSequence { frames_dir: owned(frames_dir), pattern, frame_count })
    }

    /// Get the frame input pattern for ffmpeg: the pattern joined to the
    /// frames directory.
    pub fn get_input_pattern(&self) -> (r: String)
        ensures
            r@ == path_joined(self.frames_dir@, self.pattern@),
    {
        join_path(self.frames_dir.as_str(), self.pattern.as_str())
    }
}

/// Only regular files whose extension is `png`, `jpg` or `jpeg` in any case
/// are frames, and such a file always is one.
pub proof fn lemma_frame_files(e: DirEntryInfo)
    ensures
        !e.is_file ==> frame_extension(e) is None,
        path_extension(e.path@) is None ==> frame_extension(e) is None,
        frame_extension(e) matches Some(x) ==> x == "png"@ || x == "jpg"@ || x == "jpeg"@,
        forall|x: Seq<char>|
            e.is_file && path_extension(e.path@) == Some(x) && (#[trigger] lowercased(x) == "png"@
                || lowercased(x) == "jpg"@ || lowercased(x) == "jpeg"@) ==> frame_extension(e)
                == Some(lowercased(x)),
{
}

/// Listing one more entry counts it when it is a frame file, and sets the
/// pattern to that of its kind (`%06d.jpg` for JPEG, `%06d.png` for PNG);
/// any other entry changes neither the count nor the pattern. An empty
/// listing has no frames and the PNG pattern.
pub proof fn lemma_frame_listing(es: Seq<DirEntryInfo>, e: DirEntryInfo)
    ensures
        count_frames(Seq::<DirEntryInfo>::empty()) == 0,
        frame_pattern(Seq::<DirEntryInfo>::empty()) == "%06d.png"@,
        frame_extension(e) is None ==> count_frames(es.push(e)) == count_frames(es)
            && frame_pattern(es.push(e)) == frame_pattern(es),
        frame_extension(e) is Some ==> count_frames(es.push(e)) == count_frames(es) + 1,
        frame_extension(e) == Some("png"@) ==> frame_pattern(es.push(e)) == "%06d.png"@,
        frame_extension(e) == Some("jpg"@) ==> frame_pattern(es.push(e)) == "%06d.jpg"@,
        frame_extension(e) == Some("jpeg"@) ==> frame_pattern(es.push(e)) == "%06d.jpg"@,
{
    assert(es.push(e).drop_last() =~= es);
    assert(es.push(e).last() == e);
    reveal_strlit("png");
    reveal_strlit("jpg");
    reveal_strlit("jpeg");
    assert("jpg"@[0] != "png"@[0]);
    assert("jpeg"@[0] != "png"@[0]);
}

} // verus!
