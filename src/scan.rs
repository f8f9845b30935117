//! The decisions of a scan: which files are media, which the cache lets the scan
//! skip, how each analyzed file is counted and what is done with it.

use vstd::prelude::*;
use crate::cache::skip_rule;
use crate::cache::modified_text;
use crate::files::FileManager;
use crate::metadata::{extension, extension_of, FileMetadata, TikTokPhotoDetector, TikTokVideoDetector};
use crate::scoring::{verdict_of, MediaKind, Verdict};
use crate::text::str_eq;

verus! {

/// The Unicode lower case of a text.
pub uninterp spec fn lower_of(s: Seq<char>) -> Seq<char>;

/// Relies on str::to_lowercase: the result depends on the characters alone.
#[verifier::external_body]
fn lowercase(s: &str) -> (r: String)
    ensures
        r@ == lower_of(s@),
{
    s.to_lowercase()
}

/// Extensions of the video files.
pub open spec fn video_extensions() -> Seq<Seq<char>> {
    seq!["mp4"@, "mov"@, "avi"@, "mkv"@, "flv"@, "webm"@]
}

/// Extensions of the media files a scan looks at.
pub open spec fn media_extensions() -> Seq<Seq<char>> {
    seq!["jpg"@, "jpeg"@, "png"@, "webp"@, "gif"@, "bmp"@] + video_extensions()
}

/// The lower-cased extension of a file name is one of `exts`.
pub open spec fn has_extension_in(name: Seq<char>, exts: Seq<Seq<char>>) -> bool {
    extension_of(name) matches Some(e) && exts.contains(lower_of(e))
}

/// Whether `s` is one of `list`.
fn listed(list: &Vec<&str>, s: &str) -> (r: bool)
    ensures
        r == list@.map_values(|x: &str| x@).contains(s@),
{
    let ghost texts = list@.map_values(|x: &str| x@);
    let mut i: usize = 0;
    while i < list.len()
        invariant
            i <= list.len(),
            texts == list@.map_values(|x: &str| x@),
            forall|j: int| 0 <= j < i ==> texts[j] != s@,
        decreases list.len() - i,
    {
        assert(texts[i as int] == list@[i as int]@);
        if str_eq(list[i], s) {
            assert(texts[i as int] == s@);
            return true;
        }
        i = i + 1;
    }
    false
}

/// Whether a lower-cased extension is that of a video.
pub fn is_video_extension(lowered: &str) -> (r: bool)
    ensures
        r == video_extensions().contains(lowered@),
{
    let list: Vec<&str> = vec!["mp4", "mov", "avi", "mkv", "flv", "webm"];
    assert(list@.map_values(|x: &str| x@) =~= video_extensions());
    listed(&list, lowered)
}

/// Whether a lower-cased extension is that of a media file.
pub fn is_media_extension(lowered: &str) -> (r: bool)
    ensures
        r == media_extensions().contains(lowered@),
{
    let list: Vec<&str> = vec![
        "jpg", "jpeg", "png", "webp", "gif", "bmp", "mp4", "mov", "avi", "mkv", "flv", "webm",
    ];
    assert(list@.map_values(|x: &str| x@) =~= media_extensions());
    listed(&list, lowered)
}

/// Whether a file name has the extension of a video.
pub fn is_video_name(name: &str) -> (r: bool)
    ensures
        r == has_extension_in(name@, video_extensions()),
{
    match extension(name) {
        Some(e) => is_video_extension(lowercase(e.as_str()).as_str()),
        None => false,
    }
}

/// Whether a file name has the extension of a media file.
pub fn is_media_name(name: &str) -> (r: bool)
    ensures
        r == has_extension_in(name@, media_extensions()),
{
    match extension(name) {
        Some(e) => is_media_extension(lowercase(e.as_str()).as_str()),
        None => false,
    }
}

/// The kind a file is scored as: a video by its extension, a photo otherwise.
pub open spec fn kind_of(name: Seq<char>) -> MediaKind {
    if has_extension_in(name, video_extensions()) {
        MediaKind::Video
    } else {
        MediaKind::Photo
    }
}

/// The kind a file is scored as.
pub fn media_kind_of(name: &str) -> (r: MediaKind)
    ensures
        r == kind_of(name@),
{
    if is_video_name(name) {
        MediaKind::Video
    } else {
        MediaKind::Photo
    }
}

/// The counters of one scan and the destinations of the files moved.
pub struct ScanResults {
    pub total_files: usize,
    pub confirmed_tiktok: usize,
    pub likely_tiktok: usize,
    pub possible_tiktok: usize,
    pub unlikely_tiktok: usize,
    pub skipped_cached: usize,
    pub moved_files: Vec<String>,
}

/// `after` counts one more file in the tier of `confidence`, and is otherwise `before`.
pub open spec fn counted(before: ScanResults, after: ScanResults, confidence: u32) -> bool {
    let v = verdict_of(confidence as int);
    &&& after.total_files == before.total_files
    &&& after.skipped_cached == before.skipped_cached
    &&& after.moved_files == before.moved_files
    &&& after.confirmed_tiktok == before.confirmed_tiktok + if v == Verdict::Confirmed { 1int } else { 0 }
    &&& after.likely_tiktok == before.likely_tiktok + if v == Verdict::Likely { 1int } else { 0 }
    &&& after.possible_tiktok == before.possible_tiktok + if v == Verdict::Possible { 1int } else { 0 }
    &&& after.unlikely_tiktok == before.unlikely_tiktok + if v == Verdict::Unlikely { 1int } else { 0 }
}

/// What is done with an analyzed file.
#[derive(Clone, Copy, Debug, PartialEq, Eq, Structural)]
pub enum FileAction {
    /// Move it into its tier folder.
    Move,
    /// Copy it into its tier folder, leaving the original in place.
    Copy,
    /// Record it in the cache as not a match.
    CacheNonMatch,
}

/// From 20 up a file is organized, by moving in apply mode and by copying in
/// preview mode; below 20 it is recorded as not a match.
pub open spec fn action_for(confidence: u32, move_files: bool) -> FileAction {
    if confidence >= 20 {
        if move_files {
            FileAction::Move
        } else {
            FileAction::Copy
        }
    } else {
        FileAction::CacheNonMatch
    }
}

impl ScanResults {
    /// Fresh counters for a scan of `total_files` files.
    pub fn new(total_files: usize) -> (r: Self)
        ensures
            r.total_files == total_files,
            r.confirmed_tiktok == 0,
            r.likely_tiktok == 0,
            r.possible_tiktok == 0,
            r.unlikely_tiktok == 0,
            r.skipped_cached == 0,
            r.moved_files@.len() == 0,
    {
        ScanResults {
            total_files,
            confirmed_tiktok: 0,
            likely_tiktok: 0,
            possible_tiktok: 0,
            unlikely_tiktok: 0,
            skipped_cached: 0,
            moved_files: Vec::new(),
        }
    }

    /// Counts an analyzed file in its tier and says what to do with it.
    pub fn record_outcome(&mut self, confidence: u32, move_files: bool) -> (r: FileAction)
        requires
            old(self).confirmed_tiktok < usize::MAX,
            old(self).likely_tiktok < usize::MAX,
            old(self).possible_tiktok < usize::MAX,
            old(self).unlikely_tiktok < usize::MAX,
        ensures
            counted(*old(self), *final(self), confidence),
            r == action_for(confidence, move_files),
    {
        if confidence >= 70 {
            self.confirmed_tiktok = self.confirmed_tiktok + 1;
        } else if confidence >= 40 {
            self.likely_tiktok = self.likely_tiktok + 1;
        } else if confidence >= 20 {
            self.possible_tiktok = self.possible_tiktok + 1;
        } else {
            self.unlikely_tiktok = self.unlikely_tiktok + 1;
        }
        if confidence >= 20 {
            if move_files {
                FileAction::Move
            } else {
                FileAction::Copy
            }
        } else {
            FileAction::CacheNonMatch
        }
    }

    /// The files found in the Possible tier or above.
    pub fn total_detected(&self) -> (r: usize)
        requires
            self.confirmed_tiktok + self.likely_tiktok + self.possible_tiktok <= usize::MAX,
        ensures
            r == self.confirmed_tiktok + self.likely_tiktok + self.possible_tiktok,
    {
        self.confirmed_tiktok + self.likely_tiktok + self.possible_tiktok
    }
}

/// The attributes of an enumerated file: its path, and its size and modification
/// time when they could be read.
pub struct FileStat {
    pub path: String,
    pub attrs: Option<(u64, u64, u32)>,
}

/// The cache lets the scan skip this file.
pub open spec fn skippable(fm: &FileManager, s: &FileStat) -> bool {
    s.attrs matches Some(a) && modified_text(a.1, a.2) matches Some(t) && skip_rule(
        fm.cache.entries(),
        s.path@,
        a.0,
        t,
    )
}

/// The positions, in order, of the first `n` files that the cache does not let
/// the scan skip.
pub open spec fn pending(fm: &FileManager, files: Seq<FileStat>, n: int) -> Seq<usize>
    decreases n,
{
    if n <= 0 {
        Seq::empty()
    } else if skippable(fm, &files[n - 1]) {
        pending(fm, files, n - 1)
    } else {
        pending(fm, files, n - 1).push((n - 1) as usize)
    }
}

/// The pending list holds at most one position per file.
pub proof fn pending_len(fm: &FileManager, files: Seq<FileStat>, n: int)
    requires
        n >= 0,
    ensures
        pending(fm, files, n).len() <= n,
    decreases n,
{
    if n > 0 {
        pending_len(fm, files, n - 1);
    }
}

/// The scanner: the two detectors and the file manager of the scan root.
pub struct TikTokScanner {
    pub photo_detector: TikTokPhotoDetector,
    pub video_detector: TikTokVideoDetector,
    pub file_manager: FileManager,
}

impl TikTokScanner {
    pub open spec fn wf(&self) -> bool {
        self.photo_detector.wf() && self.video_detector.wf() && self.file_manager.wf()
    }

    pub fn new(file_manager: FileManager) -> (r: Self)
        requires
            file_manager.wf(),
        ensures
            r.wf(),
            r.file_manager == file_manager,
    {
        TikTokScanner {
            photo_detector: TikTokPhotoDetector::new(),
            video_detector: TikTokVideoDetector::new(),
            file_manager,
        }
    }

    /// The cache-filtering pass: the positions of the files to analyze, in
    /// enumeration order, with the skipped ones counted. A file whose attributes
    /// could not be read is analyzed.
    pub fn filter_cached(&self, files: &Vec<FileStat>, results: &mut ScanResults) -> (r: Vec<usize>)
        requires
            self.wf(),
            old(results).skipped_cached + files.len() <= usize::MAX,
        ensures
            r@ == pending(&self.file_manager, files@, files@.len() as int),
            final(results).skipped_cached == old(results).skipped_cached + files.len() - r@.len(),
            final(results).total_files == old(results).total_files,
            final(results).confirmed_tiktok == old(results).confirmed_tiktok,
            final(results).likely_tiktok == old(results).likely_tiktok,
            final(results).possible_tiktok == old(results).possible_tiktok,
            final(results).unlikely_tiktok == old(results).unlikely_tiktok,
            final(results).moved_files == old(results).moved_files,
    {
        let mut out: Vec<usize> = Vec::new();
        let mut i: usize = 0;
        while i < files.len()
            invariant
                self.wf(),
                i <= files.len(),
                old(results).skipped_cached + files.len() <= usize::MAX,
                out@ == pending(&self.file_manager, files@, i as int),
                results.skipped_cached == old(results).skipped_cached + i - out@.len(),
                results.total_files == old(results).total_files,
                results.confirmed_tiktok == old(results).confirmed_tiktok,
                results.likely_tiktok == old(results).likely_tiktok,
                results.possible_tiktok == old(results).possible_tiktok,
                results.unlikely_tiktok == old(results).unlikely_tiktok,
                results.moved_files == old(results).moved_files,
            decreases files.len() - i,
        {
            proof {
                pending_len(&self.file_manager, files@, i as int);
            }
            let f = &files[i];
            let skip = match f.attrs {
                Some(a) => self.file_manager.should_skip_file(f.path.as_str(), a.0, a.1, a.2).0,
                None => false,
            };
            if skip {
                results.skipped_cached = results.skipped_cached + 1;
            } else {
                out.push(i);
            }
            i = i + 1;
        }
        out
    }

    /// Extracts and scores one file, as a video or a photo by its extension.
    pub fn analyze_file(&self, filepath: &str, filename: &str, size_bytes: u64, data: &[u8]) -> (r:
        FileMetadata)
        requires
            self.wf(),
        ensures
            r.extracted_from(filepath@, filename@, size_bytes, data@),
            r.tiktok_analysis@ == r.facts().scored(size_bytes, kind_of(filename@)),
    {
        match media_kind_of(filename) {
            MediaKind::Video => self.video_detector.analyze_video(filepath, filename, size_bytes, data),
            MediaKind::Photo => self.photo_detector.analyze_image(filepath, filename, size_bytes, data),
        }
    }
}

} // verus!
