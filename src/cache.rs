//! The result cache: per-path size, modification time and last score, used to
//! skip unchanged files that were previously found not to match.

use vstd::prelude::*;
use crate::scoring::{opt_text, views};
use crate::text::str_eq;

verus! {

/// What the cache remembers of one file.
pub struct FileInfo {
    pub size: u64,
    /// Modification time as RFC 3339 text.
    pub modified: String,
    pub confidence: u32,
    pub is_tiktok: bool,
}

/// A `FileInfo` as mathematical values.
pub struct InfoView {
    pub size: u64,
    pub modified: Seq<char>,
    pub confidence: u32,
    pub is_tiktok: bool,
}

impl View for FileInfo {
    type V = InfoView;

    open spec fn view(&self) -> InfoView {
        InfoView {
            size: self.size,
            modified: self.modified@,
            confidence: self.confidence,
            is_tiktok: self.is_tiktok,
        }
    }
}

/// The map that a list of entries describes, a later entry for a path replacing
/// an earlier one.
pub open spec fn table(v: Seq<(String, FileInfo)>) -> Map<Seq<char>, InfoView>
    decreases v.len(),
{
    if v.len() == 0 {
        Map::empty()
    } else {
        table(v.drop_last()).insert(v.last().0@, v.last().1@)
    }
}

/// No two entries share a path.
pub open spec fn keys_unique(v: Seq<(String, FileInfo)>) -> bool {
    forall|i: int, j: int| 0 <= i < v.len() && 0 <= j < v.len() && i != j ==> v[i].0@ != v[j].0@
}

/// A file may be skipped only when the cache holds it with the same size and
/// modification time, and it was not found to match.
pub open spec fn skip_rule(
    m: Map<Seq<char>, InfoView>,
    path: Seq<char>,
    size: u64,
    modified: Seq<char>,
) -> bool {
    &&& m.contains_key(path)
    &&& m[path].size == size
    &&& m[path].modified == modified
    &&& !m[path].is_tiktok
}

/// The version written by this library.
pub open spec fn current_version() -> Seq<char> {
    "2.0"@
}

/// The RFC 3339 text of a time given in seconds and nanoseconds after the Unix epoch.
pub uninterp spec fn rfc3339_of(secs: i64, nanos: u32) -> Option<Seq<char>>;

/// Relies on chrono::DateTime::from_timestamp, which gives the UTC time that
/// many seconds and nanoseconds after the Unix epoch or none when it is out of
/// range, and on DateTime::to_rfc3339.
#[verifier::external_body]
fn timestamp_text(secs: i64, nanos: u32) -> (r: Option<String>)
    ensures
        opt_text(r) == rfc3339_of(secs, nanos),
{
    match chrono::DateTime::from_timestamp(secs, nanos) {
        Some(t) => Some(t.to_rfc3339()),
        None => None,
    }
}

/// The cache text of a modification time, if it can be written.
pub open spec fn modified_text(secs: u64, nanos: u32) -> Option<Seq<char>> {
    if secs <= i64::MAX {
        rfc3339_of(secs as i64, nanos)
    } else {
        None
    }
}

/// The cache text of a modification time given since the Unix epoch.
pub fn modified_string(secs: u64, nanos: u32) -> (r: Option<String>)
    ensures
        opt_text(r) == modified_text(secs, nanos),
{
    if secs <= 0x7fff_ffff_ffff_ffff {
        timestamp_text(secs as i64, nanos)
    } else {
        None
    }
}

/// Relies on SystemTime::now and SystemTime::duration_since: the time since the
/// Unix epoch in whole seconds and nanoseconds, or none when the clock reads an
/// earlier time.
#[verifier::external_body]
fn clock_since_epoch() -> (r: Option<(u64, u32)>) {
    match std::time::SystemTime::now().duration_since(std::time::UNIX_EPOCH) {
        Ok(d) => Some((d.as_secs(), d.subsec_nanos())),
        Err(_) => None,
    }
}

/// The current time as RFC 3339 text, or empty text when it cannot be written.
pub fn now_text() -> (r: String)
    ensures
        r@.len() == 0 || exists|secs: i64, nanos: u32| rfc3339_of(secs, nanos) == Some(r@),
{
    match clock_since_epoch() {
        Some((secs, nanos)) => match modified_string(secs, nanos) {
            Some(t) => {
                assert(rfc3339_of(secs as i64, nanos) == Some(t@));
                t
            },
            None => String::new(),
        },
        None => String::new(),
    }
}

/// The persisted cache: paths of files found not to match (kept for older
/// readers), the per-path entries, the time of the last change and the schema
/// version.
pub struct NotTikTokCache {
    pub scanned_files: Vec<String>,
    pub last_updated: String,
    pub file_metadata: Vec<(String, FileInfo)>,
    pub cache_version: String,
}

impl NotTikTokCache {
    /// Each path has one entry.
    pub open spec fn wf(&self) -> bool {
        keys_unique(self.file_metadata@)
    }

    /// The entries, by path.
    pub open spec fn entries(&self) -> Map<Seq<char>, InfoView> {
        table(self.file_metadata@)
    }

    /// The paths kept for older readers.
    pub open spec fn legacy_paths(&self) -> Seq<Seq<char>> {
        views(self.scanned_files@)
    }

    /// An empty cache stamped with the current time.
    pub fn new() -> (r: Self)
        ensures
            r.wf(),
            r.entries() == Map::<Seq<char>, InfoView>::empty(),
            r.legacy_paths() == Seq::<Seq<char>>::empty(),
            r.cache_version@ == current_version(),
    {
        let r = NotTikTokCache {
            scanned_files: Vec::new(),
            last_updated: now_text(),
            file_metadata: Vec::new(),
            cache_version: String::from_str("2.0"),
        };
        assert(r.legacy_paths() =~= Seq::<Seq<char>>::empty());
        r
    }

    /// Whether `file_path` is among the paths kept for older readers.
    pub fn contains(&self, file_path: &str) -> (r: bool)
        ensures
            r == self.legacy_paths().contains(file_path@),
    {
        let mut i: usize = 0;
        while i < self.scanned_files.len()
            invariant
                i <= self.scanned_files.len(),
                forall|j: int| 0 <= j < i ==> self.legacy_paths()[j] != file_path@,
            decreases self.scanned_files.len() - i,
        {
            assert(self.legacy_paths()[i as int] == self.scanned_files@[i as int]@);
            if str_eq(self.scanned_files[i].as_str(), file_path) {
                assert(self.legacy_paths()[i as int] == file_path@);
                return true;
            }
            i = i + 1;
        }
        false
    }

    /// The position of the entry for `path`, if any.
    fn position(&self, path: &str) -> (r: Option<usize>)
        requires
            self.wf(),
        ensures
            match r {
                Some(i) => i < self.file_metadata.len() && self.file_metadata@[i as int].0@ == path@,
                None => forall|j: int|
                    0 <= j < self.file_metadata@.len() ==> (#[trigger] self.file_metadata@[j]).0@
                        != path@,
            },
    {
        let mut i: usize = 0;
        while i < self.file_metadata.len()
            invariant
                i <= self.file_metadata.len(),
                forall|j: int| 0 <= j < i ==> (#[trigger] self.file_metadata@[j]).0@ != path@,
            decreases self.file_metadata.len() - i,
        {
            if str_eq(self.file_metadata[i].0.as_str(), path) {
                return Some(i);
            }
            i = i + 1;
        }
        None
    }

    /// Whether a file can be skipped: it is cached with this size and
    /// modification time, and was not found to match.
    pub fn should_skip_file(&self, file_path: &str, current_size: u64, current_modified: &str) -> (r:
        bool)
        requires
            self.wf(),
        ensures
            r == skip_rule(self.entries(), file_path@, current_size, current_modified@),
    {
        match self.position(file_path) {
            Some(i) => {
                proof {
                    lemma_table_at(self.file_metadata@, i as int);
                }
                let info = &self.file_metadata[i].1;
                info.size == current_size && str_eq(info.modified.as_str(), current_modified)
                    && !info.is_tiktok
            },
            None => {
                proof {
                    lemma_table_absent(self.file_metadata@, file_path@);
                }
                false
            },
        }
    }

    /// The cached confidence of a file, if it has an entry.
    pub fn cached_confidence(&self, file_path: &str) -> (r: Option<u32>)
        requires
            self.wf(),
        ensures
            match r {
                Some(c) => self.entries().contains_key(file_path@) && self.entries()[file_path@].confidence == c,
                None => !self.entries().contains_key(file_path@),
            },
    {
        match self.position(file_path) {
            Some(i) => {
                proof {
                    lemma_table_at(self.file_metadata@, i as int);
                }
                Some(self.file_metadata[i].1.confidence)
            },
            None => {
                proof {
                    lemma_table_absent(self.file_metadata@, file_path@);
                }
                None
            },
        }
    }

    /// Sets the entry of a path, replacing any earlier one.
    fn set_entry(&mut self, file_path: &str, info: FileInfo)
        requires
            old(self).wf(),
        ensures
            final(self).wf(),
            final(self).entries() == old(self).entries().insert(file_path@, info@),
            final(self).scanned_files == old(self).scanned_files,
            final(self).last_updated == old(self).last_updated,
            final(self).cache_version == old(self).cache_version,
    {
        let ghost info_v = info@;
        match self.position(file_path) {
            Some(i) => {
                let ghost before = self.file_metadata@;
                let key = String::from_str(file_path);
                self.file_metadata.set(i, (key, info));
                proof {
                    lemma_table_update(before, i as int, self.file_metadata@[i as int]);
                }
            },
            None => {
                let ghost before = self.file_metadata@;
                let key = String::from_str(file_path);
                self.file_metadata.push((key, info));
                assert(self.file_metadata@.drop_last() =~= before);
            },
        }
    }

    /// Records the analysis of a file, replacing any earlier entry for its path;
    /// a file found not to match is also added to the paths kept for older readers.
    pub fn add_file_with_metadata(
        &mut self,
        file_path: &str,
        size: u64,
        modified: String,
        confidence: u32,
        is_tiktok: bool,
    )
        requires
            old(self).wf(),
        ensures
            final(self).wf(),
            final(self).entries() == old(self).entries().insert(
                file_path@,
                InfoView { size, modified: modified@, confidence, is_tiktok },
            ),
            final(self).legacy_paths() == if !is_tiktok && !old(self).legacy_paths().contains(
                file_path@,
            ) {
                old(self).legacy_paths().push(file_path@)
            } else {
                old(self).legacy_paths()
            },
            final(self).cache_version == old(self).cache_version,
    {
        let file_info = FileInfo { size, modified, confidence, is_tiktok };
        self.set_entry(file_path, file_info);
        if !is_tiktok && !self.contains(file_path) {
            let ghost before = self.scanned_files@;
            self.scanned_files.push(String::from_str(file_path));
            assert(views(self.scanned_files@) =~= views(before).push(file_path@));
        }
        self.last_updated = now_text();
    }

    /// Adds a path to those kept for older readers, once.
    pub fn add_file(&mut self, file_path: &str)
        ensures
            final(self).file_metadata == old(self).file_metadata,
            final(self).legacy_paths() == if old(self).legacy_paths().contains(file_path@) {
                old(self).legacy_paths()
            } else {
                old(self).legacy_paths().push(file_path@)
            },
            final(self).cache_version == old(self).cache_version,
    {
        if !self.contains(file_path) {
            let ghost before = self.scanned_files@;
            self.scanned_files.push(String::from_str(file_path));
            assert(views(self.scanned_files@) =~= views(before).push(file_path@));
            self.last_updated = now_text();
        }
    }

    /// The cache that a stored document gives: a current document keeps its
    /// entries and legacy paths and gets the current version if it had none; a
    /// legacy document keeps its paths with no entries; a missing or unreadable
    /// one gives a fresh cache.
    pub fn load_from_stored(stored: StoredCache) -> (r: Self)
        ensures
            r.wf(),
            r.cache_version@.len() > 0,
            match stored {
                StoredCache::Current(c) => {
                    &&& r.entries() == c.entries()
                    &&& r.legacy_paths() == c.legacy_paths()
                    &&& r.last_updated == c.last_updated
                    &&& r.cache_version@ == if c.cache_version@.len() == 0 {
                        current_version()
                    } else {
                        c.cache_version@
                    }
                },
                StoredCache::Legacy { scanned_files, last_updated } => {
                    &&& r.entries() == Map::<Seq<char>, InfoView>::empty()
                    &&& r.legacy_paths() == views(scanned_files@)
                    &&& r.last_updated == last_updated
                    &&& r.cache_version@ == current_version()
                },
                _ => {
                    &&& r.entries() == Map::<Seq<char>, InfoView>::empty()
                    &&& r.legacy_paths() == Seq::<Seq<char>>::empty()
                    &&& r.cache_version@ == current_version()
                },
            },
    {
        proof {
            reveal_strlit("2.0");
        }
        match stored {
            StoredCache::Current(c) => {
                let NotTikTokCache { scanned_files, last_updated, file_metadata, cache_version } = c;
                let ghost stored_entries = file_metadata@;
                let mut r = NotTikTokCache {
                    scanned_files,
                    last_updated,
                    file_metadata: Vec::new(),
                    cache_version: if cache_version.as_str().is_empty() {
                        String::from_str("2.0")
                    } else {
                        cache_version
                    },
                };
                let ghost version = r.cache_version;
                let mut i: usize = 0;
                while i < file_metadata.len()
                    invariant
                        r.cache_version == version,
                        i <= file_metadata.len(),
                        file_metadata@ == stored_entries,
                        r.wf(),
                        r.entries() == table(stored_entries.take(i as int)),
                        r.scanned_files == scanned_files,
                        r.last_updated == last_updated,
                        r.cache_version@.len() > 0,
                    decreases file_metadata.len() - i,
                {
                    let e = &file_metadata[i];
                    let info = FileInfo {
                        size: e.1.size,
                        modified: e.1.modified.clone(),
                        confidence: e.1.confidence,
                        is_tiktok: e.1.is_tiktok,
                    };
                    r.set_entry(e.0.as_str(), info);
                    assert(stored_entries.take(i + 1).drop_last() =~= stored_entries.take(i as int));
                    i = i + 1;
                }
                assert(stored_entries.take(i as int) =~= stored_entries);
                r
            },
            StoredCache::Legacy { scanned_files, last_updated } => NotTikTokCache {
                scanned_files,
                last_updated,
                file_metadata: Vec::new(),
                cache_version: String::from_str("2.0"),
            },
            _ => NotTikTokCache::new(),
        }
    }
}

/// A cache document as read from storage.
pub enum StoredCache {
    /// No document was found.
    Missing,
    /// A document of the current schema.
    Current(NotTikTokCache),
    /// A document of the older schema: only paths and a timestamp.
    Legacy { scanned_files: Vec<String>, last_updated: String },
    /// A document that could not be read as either schema.
    Corrupt,
}

/// The table of entries with unique paths gives each path the value of its entry.
pub proof fn lemma_table_at(v: Seq<(String, FileInfo)>, i: int)
    requires
        keys_unique(v),
        0 <= i < v.len(),
    ensures
        table(v).contains_key(v[i].0@),
        table(v)[v[i].0@] == v[i].1@,
    decreases v.len(),
{
    if i < v.len() - 1 {
        lemma_table_at(v.drop_last(), i);
    }
}

/// A path with no entry is not in the table.
pub proof fn lemma_table_absent(v: Seq<(String, FileInfo)>, k: Seq<char>)
    requires
        forall|j: int| 0 <= j < v.len() ==> (#[trigger] v[j]).0@ != k,
    ensures
        !table(v).contains_key(k),
    decreases v.len(),
{
    if v.len() > 0 {
        let w = v.drop_last();
        assert forall|j: int| 0 <= j < w.len() implies (#[trigger] w[j]).0@ != k by {
            assert(w[j] == v[j]);
        }
        lemma_table_absent(w, k);
    }
}

/// Replacing the entry at `i` with one for the same path updates the table at that path.
pub proof fn lemma_table_update(v: Seq<(String, FileInfo)>, i: int, e: (String, FileInfo))
    requires
        keys_unique(v),
        0 <= i < v.len(),
        e.0@ == v[i].0@,
    ensures
        keys_unique(v.update(i, e)),
        table(v.update(i, e)) == table(v).insert(e.0@, e.1@),
    decreases v.len(),
{
    let u = v.update(i, e);
    assert(u.drop_last() =~= if i == v.len() - 1 {
        v.drop_last()
    } else {
        v.drop_last().update(i, e)
    });
    if i == v.len() - 1 {
        assert forall|j: int| 0 <= j < v.len() - 1 implies (#[trigger] v[j]).0@ != e.0@ by {}
        lemma_table_absent(v.drop_last(), e.0@);
        assert(table(u) =~= table(v).insert(e.0@, e.1@));
    } else {
        lemma_table_update(v.drop_last(), i, e);
        assert(v.last().0@ != e.0@);
        assert(table(u) =~= table(v).insert(e.0@, e.1@));
    }
}

/// A file recorded as a match is never skipped, whatever its size and
/// modification time on the next scan.
pub proof fn match_is_never_skipped(
    m: Map<Seq<char>, InfoView>,
    path: Seq<char>,
    info: InfoView,
    size: u64,
    modified: Seq<char>,
)
    requires
        info.is_tiktok,
    ensures
        !skip_rule(m.insert(path, info), path, size, modified),
{
}

/// A file recorded as not a match is skipped on the next scan when its size and
/// modification time are unchanged.
pub proof fn unchanged_non_match_is_skipped(
    m: Map<Seq<char>, InfoView>,
    path: Seq<char>,
    size: u64,
    modified: Seq<char>,
    confidence: u32,
)
    ensures
        skip_rule(
            m.insert(path, InfoView { size, modified, confidence, is_tiktok: false }),
            path,
            size,
            modified,
        ),
{
}

} // verus!
