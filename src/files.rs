//! Organization of detected files: tier folders, filename-conflict resolution,
//! and the cache bookkeeping of a scan root.

use vstd::prelude::*;
use crate::cache::{modified_string, modified_text, skip_rule, NotTikTokCache};
use crate::metadata::{extension, extension_of, last_dot};
use crate::scoring::views;
use crate::text::{chars_of, decimal, occurs_exactly, push_char, push_decimal, str_contains};

verus! {

/// The errors of the library's own operations.
#[derive(Clone, Copy, Debug, PartialEq, Eq, Structural)]
pub enum DetectError {
    /// A file's attributes could not be turned into cache keys.
    Io,
    /// Every candidate name for a file in its tier folder is taken.
    ConflictUnresolved,
}

/// The tier subfolder of a confidence score, with the verdict thresholds.
pub open spec fn tier_name(confidence: int) -> Seq<char> {
    if confidence >= 70 {
        "confirmed"@
    } else if confidence >= 40 {
        "likely"@
    } else if confidence >= 20 {
        "possible"@
    } else {
        "unlikely"@
    }
}

/// The tier subfolder of a confidence score.
pub fn tier_folder(confidence: u32) -> (r: &'static str)
    ensures
        r@ == tier_name(confidence as int),
{
    if confidence >= 70 {
        "confirmed"
    } else if confidence >= 40 {
        "likely"
    } else if confidence >= 20 {
        "possible"
    } else {
        "unlikely"
    }
}

/// A root on a phone or other virtual mount, recognized by its path.
pub open spec fn phone_path(path: Seq<char>) -> bool {
    occurs_exactly(path, "gvfs/mtp"@) || occurs_exactly(path, "run/user"@)
}

/// Whether a scan root lies on a phone or other virtual mount.
pub fn is_phone_path(path: &str) -> (r: bool)
    ensures
        r == phone_path(path@),
{
    str_contains(path, "gvfs/mtp") || str_contains(path, "run/user")
}

/// The name part of a file name before its extension.
pub open spec fn stem_of(name: Seq<char>) -> Seq<char> {
    match extension_of(name) {
        Some(e) => name.subrange(0, last_dot(name).unwrap()),
        None => name,
    }
}

/// The `i`-th name tried for a file: the name itself, then "stem_i.ext".
pub open spec fn candidate(name: Seq<char>, i: nat) -> Seq<char> {
    if i == 0 {
        name
    } else {
        stem_of(name) + "_"@ + decimal(i) + match extension_of(name) {
            Some(e) => "."@ + e,
            None => Seq::empty(),
        }
    }
}

/// How many candidate names are tried: the name and 999 suffixed ones.
pub const CONFLICT_ATTEMPTS: u64 = 1000;

/// The first free candidate from the `i`-th on.
pub open spec fn first_free_from(name: Seq<char>, taken: Seq<Seq<char>>, i: nat) -> Option<Seq<char>>
    decreases CONFLICT_ATTEMPTS - i,
{
    if i >= CONFLICT_ATTEMPTS {
        None
    } else if !taken.contains(candidate(name, i)) {
        Some(candidate(name, i))
    } else {
        first_free_from(name, taken, i + 1)
    }
}

/// The name a file gets in a folder that already holds `taken`: the first
/// candidate not taken, or none when all are.
pub open spec fn resolved_name(name: Seq<char>, taken: Seq<Seq<char>>) -> Option<Seq<char>> {
    first_free_from(name, taken, 0)
}

/// The stem of a file name.
fn file_stem(name: &str) -> (r: String)
    ensures
        r@ == stem_of(name@),
{
    let v = chars_of(name);
    proof {
        last_dot_in_range(name@);
    }
    let cut: usize = match extension(name) {
        Some(e) => v.len() - e.unicode_len() - 1,
        None => v.len(),
    };
    assert(extension_of(name@) is Some ==> last_dot(name@) == Some(cut as int));
    let mut out = String::new();
    let mut k: usize = 0;
    while k < cut
        invariant
            k <= cut <= v.len(),
            out@ == v@.subrange(0, k as int),
        decreases cut - k,
    {
        push_char(&mut out, v[k]);
        k = k + 1;
        assert(out@ =~= v@.subrange(0, k as int));
    }
    assert(extension_of(name@) is None ==> v@.subrange(0, cut as int) =~= v@);
    out
}

/// The `i`-th name tried for a file.
fn candidate_name(name: &str, i: u64) -> (r: String)
    ensures
        r@ == candidate(name@, i as nat),
{
    if i == 0 {
        return String::from_str(name);
    }
    let mut s = file_stem(name);
    s.append("_");
    push_decimal(&mut s, i);
    match extension(name) {
        Some(e) => {
            s.append(".");
            s.append(e.as_str());
        },
        None => {},
    }
    assert(s@ =~= candidate(name@, i as nat));
    s
}

/// Whether `name` is one of `taken`.
fn is_taken(taken: &Vec<String>, name: &String) -> (r: bool)
    ensures
        r == views(taken@).contains(name@),
{
    let mut i: usize = 0;
    while i < taken.len()
        invariant
            i <= taken.len(),
            forall|j: int| 0 <= j < i ==> views(taken@)[j] != name@,
        decreases taken.len() - i,
    {
        assert(views(taken@)[i as int] == taken@[i as int]@);
        if crate::text::str_eq(taken[i].as_str(), name.as_str()) {
            return true;
        }
        i = i + 1;
    }
    false
}

/// The name under which a file is placed in a folder that already holds the
/// names `existing`: the file's own name if free, else the first free
/// "stem_i.ext" for i from 1 to 999.
pub fn resolve_filename_conflict(filename: &str, existing: &Vec<String>) -> (r: Result<String, DetectError>)
    ensures
        match r {
            Ok(n) => resolved_name(filename@, views(existing@)) == Some(n@),
            Err(e) => e == DetectError::ConflictUnresolved && resolved_name(
                filename@,
                views(existing@),
            ) is None,
        },
{
    let mut i: u64 = 0;
    while i < CONFLICT_ATTEMPTS
        invariant
            i <= CONFLICT_ATTEMPTS,
            resolved_name(filename@, views(existing@)) == first_free_from(
                filename@,
                views(existing@),
                i as nat,
            ),
        decreases CONFLICT_ATTEMPTS - i,
    {
        let c = candidate_name(filename, i);
        if !is_taken(existing, &c) {
            return Ok(c);
        }
        i = i + 1;
    }
    Err(DetectError::ConflictUnresolved)
}

/// A resolved name is never one already in the folder, so placing a file under
/// it overwrites nothing.
pub proof fn resolved_name_is_free(name: Seq<char>, taken: Seq<Seq<char>>)
    ensures
        resolved_name(name, taken) matches Some(n) ==> !taken.contains(n),
{
    free_from_is_free(name, taken, 0);
}

proof fn free_from_is_free(name: Seq<char>, taken: Seq<Seq<char>>, i: nat)
    ensures
        first_free_from(name, taken, i) matches Some(n) ==> !taken.contains(n),
    decreases CONFLICT_ATTEMPTS - i,
{
    if i < CONFLICT_ATTEMPTS && taken.contains(candidate(name, i)) {
        free_from_is_free(name, taken, i + 1);
    }
}

/// Two files of the same name placed in one empty folder get two distinct names:
/// the first keeps its name, the second gets the suffix "_1".
pub proof fn same_name_twice(name: Seq<char>)
    ensures
        resolved_name(name, Seq::empty()) == Some(name),
        resolved_name(name, seq![name]) == Some(candidate(name, 1)),
        candidate(name, 1) != name,
{
    let c1 = candidate(name, 1);
    assert(decimal(1) == seq!['1']);
    let tail = match extension_of(name) {
        Some(e) => "."@ + e,
        None => Seq::<char>::empty(),
    };
    assert(c1 == stem_of(name) + "_"@ + decimal(1) + tail);
    reveal_strlit("_");
    reveal_strlit(".");
    stem_and_tail(name);
    assert(c1.len() == name.len() + 2);
    assert(!seq![name].contains(c1)) by {
        if seq![name].contains(c1) {
            assert(seq![name][0] == c1);
        }
    }
    assert(seq![name].contains(name)) by {
        assert(seq![name][0] == name);
    }
    assert(first_free_from(name, seq![name], 1) == Some(c1));
}

/// A file name is as long as its stem plus, with an extension, the dot and the extension.
proof fn stem_and_tail(name: Seq<char>)
    ensures
        match extension_of(name) {
            Some(e) => stem_of(name).len() + 1 + e.len() == name.len(),
            None => stem_of(name) == name,
        },
{
    match extension_of(name) {
        Some(e) => {
            last_dot_in_range(name);
        },
        None => {},
    }
}

proof fn last_dot_in_range(s: Seq<char>)
    ensures
        last_dot(s) matches Some(i) ==> 0 <= i < s.len(),
    decreases s.len(),
{
    if s.len() > 0 && s.last() != '.' {
        last_dot_in_range(s.drop_last());
    }
}

/// The scan root, its organization folder, its cache file and the cache.
pub struct FileManager {
    pub base_path: String,
    pub tiktok_folder: String,
    pub cache_file: String,
    pub cache: NotTikTokCache,
}

impl FileManager {
    pub open spec fn wf(&self) -> bool {
        self.cache.wf()
    }

    /// A manager for a scan root whose organization folder and cache file were
    /// chosen, with the cache loaded from that file.
    pub fn new(base_path: &str, tiktok_folder: &str, cache_file: &str, cache: NotTikTokCache) -> (r:
        Self)
        requires
            cache.wf(),
        ensures
            r.wf(),
            r.base_path@ == base_path@,
            r.tiktok_folder@ == tiktok_folder@,
            r.cache_file@ == cache_file@,
            r.cache == cache,
    {
        FileManager {
            base_path: String::from_str(base_path),
            tiktok_folder: String::from_str(tiktok_folder),
            cache_file: String::from_str(cache_file),
            cache,
        }
    }

    /// Whether a file can be skipped, and its cached confidence when it can.
    pub fn should_skip_file(&self, file_path: &str, size: u64, secs: u64, nanos: u32) -> (r: (
        bool,
        Option<u32>,
    ))
        requires
            self.wf(),
        ensures
            r.0 == (modified_text(secs, nanos) matches Some(t) && skip_rule(
                self.cache.entries(),
                file_path@,
                size,
                t,
            )),
            r.0 ==> r.1 == Some(self.cache.entries()[file_path@].confidence),
            !r.0 ==> r.1 is None,
    {
        match modified_string(secs, nanos) {
            Some(t) => {
                if self.cache.should_skip_file(file_path, size, t.as_str()) {
                    (true, self.cache.cached_confidence(file_path))
                } else {
                    (false, None)
                }
            },
            None => (false, None),
        }
    }

    /// Records the analysis of a file in the cache.
    pub fn add_to_cache(
        &mut self,
        file_path: &str,
        size: u64,
        secs: u64,
        nanos: u32,
        confidence: u32,
        is_tiktok: bool,
    ) -> (r: Result<(), DetectError>)
        requires
            old(self).wf(),
        ensures
            final(self).wf(),
            final(self).base_path == old(self).base_path,
            final(self).tiktok_folder == old(self).tiktok_folder,
            final(self).cache_file == old(self).cache_file,
            match modified_text(secs, nanos) {
                Some(t) => {
                    &&& r is Ok
                    &&& final(self).cache.entries() == old(self).cache.entries().insert(
                        file_path@,
                        crate::cache::InfoView { size, modified: t, confidence, is_tiktok },
                    )
                    &&& final(self).cache.legacy_paths() == if !is_tiktok
                        && !old(self).cache.legacy_paths().contains(file_path@) {
                        old(self).cache.legacy_paths().push(file_path@)
                    } else {
                        old(self).cache.legacy_paths()
                    }
                },
                None => r == Err::<(), DetectError>(DetectError::Io) && final(self).cache
                    == old(self).cache,
            },
    {
        match modified_string(secs, nanos) {
            Some(t) => {
                self.cache.add_file_with_metadata(file_path, size, t, confidence, is_tiktok);
                Ok(())
            },
            None => Err(DetectError::Io),
        }
    }

    /// Whether a path is among those the cache keeps for older readers.
    pub fn is_in_not_tiktok_cache(&self, file_path: &str) -> (r: bool)
        ensures
            r == self.cache.legacy_paths().contains(file_path@),
    {
        self.cache.contains(file_path)
    }

    /// How many paths the cache keeps for older readers, and when it last changed.
    pub fn get_cache_stats(&self) -> (r: (usize, &str))
        ensures
            r.0 == self.cache.scanned_files.len(),
            r.1@ == self.cache.last_updated@,
    {
        (self.cache.scanned_files.len(), self.cache.last_updated.as_str())
    }

    pub fn get_tiktok_folder(&self) -> (r: &str)
        ensures
            r@ == self.tiktok_folder@,
    {
        self.tiktok_folder.as_str()
    }

    pub fn get_base_path(&self) -> (r: &str)
        ensures
            r@ == self.base_path@,
    {
        self.base_path.as_str()
    }
}

/// A folder under which named subfolders are managed.
pub struct FolderManager {
    pub base_path: String,
}

impl FolderManager {
    pub fn new(base_path: &str) -> (r: Self)
        ensures
            r.base_path@ == base_path@,
    {
        FolderManager { base_path: String::from_str(base_path) }
    }
}

} // verus!
