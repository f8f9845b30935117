use tiktok_cleaner::cache::{modified_string, now_text, FileInfo, NotTikTokCache, StoredCache};
use tiktok_cleaner::files::{
    is_phone_path, resolve_filename_conflict, tier_folder, DetectError,
    FileManager, FolderManager,
};
use tiktok_cleaner::scan::{is_media_extension, is_media_name, is_video_extension, media_kind_of, FileAction, FileStat, ScanResults, TikTokScanner};
use tiktok_cleaner::scoring::MediaKind;

#[test]
fn non_match_with_same_size_and_time_is_skipped() {
    let mut c = NotTikTokCache::new();
    c.add_file_with_metadata("/p/a.jpg", 100, "2024-01-01T00:00:00+00:00".to_string(), 5, false);
    assert!(c.should_skip_file("/p/a.jpg", 100, "2024-01-01T00:00:00+00:00"));
    assert!(!c.should_skip_file("/p/a.jpg", 101, "2024-01-01T00:00:00+00:00"));
    assert!(!c.should_skip_file("/p/a.jpg", 100, "2024-01-02T00:00:00+00:00"));
    assert!(!c.should_skip_file("/p/b.jpg", 100, "2024-01-01T00:00:00+00:00"));
    assert!(c.contains("/p/a.jpg"));
}

#[test]
fn recorded_match_is_never_skipped() {
    let mut c = NotTikTokCache::new();
    c.add_file_with_metadata("/p/a.jpg", 100, "t".to_string(), 5, false);
    c.add_file_with_metadata("/p/a.jpg", 100, "t".to_string(), 80, true);
    assert!(!c.should_skip_file("/p/a.jpg", 100, "t"));
    assert_eq!(c.file_metadata.len(), 1);
    assert_eq!(c.cached_confidence("/p/a.jpg"), Some(80));
    let mut d = NotTikTokCache::new();
    d.add_file_with_metadata("/p/m.mp4", 7, "t".to_string(), 90, true);
    assert!(!d.should_skip_file("/p/m.mp4", 7, "t"));
    assert!(!d.contains("/p/m.mp4"));
}

#[test]
fn legacy_paths_are_added_once() {
    let mut c = NotTikTokCache::new();
    c.add_file("/p/x.jpg");
    c.add_file("/p/x.jpg");
    assert_eq!(c.scanned_files, vec!["/p/x.jpg".to_string()]);
    assert!(c.file_metadata.is_empty());
    assert!(!c.should_skip_file("/p/x.jpg", 0, ""));
}

#[test]
fn current_document_round_trips_its_entries() {
    let mut c = NotTikTokCache::new();
    c.add_file_with_metadata("/a", 1, "t1".to_string(), 3, false);
    c.add_file_with_metadata("/b", 2, "t2".to_string(), 75, true);
    let stored = NotTikTokCache {
        scanned_files: c.scanned_files.clone(),
        last_updated: c.last_updated.clone(),
        file_metadata: c
            .file_metadata
            .iter()
            .map(|(k, v)| {
                (k.clone(), FileInfo {
                    size: v.size,
                    modified: v.modified.clone(),
                    confidence: v.confidence,
                    is_tiktok: v.is_tiktok,
                })
            })
            .collect(),
        cache_version: String::new(),
    };
    let r = NotTikTokCache::load_from_stored(StoredCache::Current(stored));
    assert_eq!(r.cache_version, "2.0");
    assert_eq!(r.scanned_files, vec!["/a".to_string()]);
    assert_eq!(r.file_metadata.len(), 2);
    assert!(r.should_skip_file("/a", 1, "t1"));
    assert_eq!(r.cached_confidence("/a"), Some(3));
    assert_eq!(r.cached_confidence("/b"), Some(75));
    assert!(!r.should_skip_file("/b", 2, "t2"));
}

#[test]
fn legacy_and_corrupt_documents_load() {
    let r = NotTikTokCache::load_from_stored(StoredCache::Legacy {
        scanned_files: vec!["/old".to_string()],
        last_updated: "yesterday".to_string(),
    });
    assert_eq!(r.cache_version, "2.0");
    assert!(r.contains("/old"));
    assert!(r.file_metadata.is_empty());
    assert_eq!(r.last_updated, "yesterday");
    let r = NotTikTokCache::load_from_stored(StoredCache::Corrupt);
    assert!(r.file_metadata.is_empty() && r.scanned_files.is_empty());
    let r = NotTikTokCache::load_from_stored(StoredCache::Missing);
    assert_eq!(r.cache_version, "2.0");
}

#[test]
fn second_same_named_file_gets_a_suffix() {
    let first = resolve_filename_conflict("clip.mp4", &Vec::new()).unwrap();
    assert_eq!(first, "clip.mp4");
    let second = resolve_filename_conflict("clip.mp4", &vec![first.clone()]).unwrap();
    assert_eq!(second, "clip_1.mp4");
    assert_ne!(first, second);
    let third = resolve_filename_conflict("clip.mp4", &vec![first, second]).unwrap();
    assert_eq!(third, "clip_2.mp4");
    assert_eq!(resolve_filename_conflict("README", &vec!["README".to_string()]).unwrap(), "README_1");
    assert_eq!(resolve_filename_conflict("a.tar.gz", &vec!["a.tar.gz".to_string()]).unwrap(), "a.tar_1.gz");
}

#[test]
fn conflict_probe_is_bounded() {
    let mut taken = vec!["x.png".to_string()];
    for i in 1..1000 {
        taken.push(format!("x_{}.png", i));
    }
    assert_eq!(resolve_filename_conflict("x.png", &taken), Err(DetectError::ConflictUnresolved));
    taken.pop();
    assert_eq!(resolve_filename_conflict("x.png", &taken).unwrap(), "x_999.png");
}

#[test]
fn tiers_and_phone_paths() {
    assert_eq!(tier_folder(70), "confirmed");
    assert_eq!(tier_folder(69), "likely");
    assert_eq!(tier_folder(40), "likely");
    assert_eq!(tier_folder(39), "possible");
    assert_eq!(tier_folder(20), "possible");
    assert_eq!(tier_folder(19), "unlikely");
    assert!(is_phone_path("/run/user/1000/gvfs/mtp:host=X/DCIM"));
    assert!(!is_phone_path("/home/me/Pictures"));
    assert!(!is_phone_path("/RUN/USER/1000"));
}

#[test]
fn modification_times_as_rfc3339() {
    assert_eq!(modified_string(0, 0).as_deref(), Some("1970-01-01T00:00:00+00:00"));
    assert_eq!(modified_string(1_700_000_000, 5).as_deref(), Some("2023-11-14T22:13:20.000000005+00:00"));
    assert_eq!(modified_string(u64::MAX, 0), None);
    let now = now_text();
    assert!(now.ends_with("+00:00") && now.len() >= 25);
}

#[test]
fn media_names_and_kinds() {
    assert!(is_media_name("A.JPG"));
    assert!(is_media_extension("jpg"));
    assert!(!is_media_extension("JPG"));
    assert!(is_video_extension("webm"));
    assert!(!is_video_extension("png"));
    assert!(is_media_name("clip.webm"));
    assert!(!is_media_name("notes.txt"));
    assert!(!is_media_name("jpg"));
    assert_eq!(media_kind_of("x.MP4"), MediaKind::Video);
    assert_eq!(media_kind_of("x.png"), MediaKind::Photo);
    assert_eq!(media_kind_of("noext"), MediaKind::Photo);
}

#[test]
fn outcomes_are_counted_and_acted_on() {
    let mut r = ScanResults::new(4);
    assert_eq!(r.record_outcome(75, true), FileAction::Move);
    assert_eq!(r.record_outcome(45, false), FileAction::Copy);
    assert_eq!(r.record_outcome(20, true), FileAction::Move);
    assert_eq!(r.record_outcome(19, true), FileAction::CacheNonMatch);
    assert_eq!(
        (r.confirmed_tiktok, r.likely_tiktok, r.possible_tiktok, r.unlikely_tiktok),
        (1, 1, 1, 1)
    );
    assert_eq!(r.total_detected(), 3);
}

#[test]
fn cache_filter_skips_unchanged_non_matches() {
    let mut fm = FileManager::new("/root", "/root/tiktok_detection", "/root/c.json", NotTikTokCache::new());
    fm.add_to_cache("/root/a.jpg", 10, 100, 0, 5, false).unwrap();
    fm.add_to_cache("/root/b.jpg", 10, 100, 0, 90, true).unwrap();
    assert_eq!(fm.should_skip_file("/root/a.jpg", 10, 100, 0), (true, Some(5)));
    assert_eq!(fm.should_skip_file("/root/a.jpg", 10, 101, 0), (false, None));
    assert_eq!(fm.add_to_cache("/root/z.jpg", 1, u64::MAX, 0, 1, false), Err(DetectError::Io));
    assert!(fm.is_in_not_tiktok_cache("/root/a.jpg"));
    assert!(!fm.is_in_not_tiktok_cache("/root/b.jpg"));
    assert_eq!(fm.get_cache_stats().0, 1);
    let scanner = TikTokScanner::new(fm);
    let files = vec![
        FileStat { path: "/root/a.jpg".to_string(), attrs: Some((10, 100, 0)) },
        FileStat { path: "/root/b.jpg".to_string(), attrs: Some((10, 100, 0)) },
        FileStat { path: "/root/a.jpg".to_string(), attrs: None },
        FileStat { path: "/root/c.jpg".to_string(), attrs: Some((1, 1, 1)) },
    ];
    let mut r = ScanResults::new(files.len());
    let pending = scanner.filter_cached(&files, &mut r);
    assert_eq!(pending, vec![1, 2, 3]);
    assert_eq!(r.skipped_cached, 1);
    assert_eq!(scanner.file_manager.get_base_path(), "/root");
    assert_eq!(scanner.file_manager.get_tiktok_folder(), "/root/tiktok_detection");
    assert_eq!(FolderManager::new("/f").base_path, "/f");
}
