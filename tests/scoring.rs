use tiktok_cleaner::metadata::{MetadataManager, TikTokPhotoDetector, TikTokVideoDetector};
use tiktok_cleaner::scoring::{verdict_for, MediaKind, Verdict};

fn strs(v: &[&str]) -> Vec<String> {
    v.iter().map(|s| s.to_string()).collect()
}

fn webp_with_aigc(width: u32, height: u32) -> Vec<u8> {
    let mut d: Vec<u8> = Vec::new();
    d.extend_from_slice(b"RIFF");
    d.extend_from_slice(&[0, 0, 0, 0]);
    d.extend_from_slice(b"WEBP");
    d.extend_from_slice(b"VP8X");
    d.extend_from_slice(&[10, 0, 0, 0]);
    d.extend_from_slice(&[0, 0, 0, 0]);
    let w = width - 1;
    let h = height - 1;
    d.extend_from_slice(&[(w & 0xff) as u8, ((w >> 8) & 0xff) as u8, ((w >> 16) & 0xff) as u8]);
    d.extend_from_slice(&[(h & 0xff) as u8, ((h >> 8) & 0xff) as u8, ((h >> 16) & 0xff) as u8]);
    d.push(0);
    d.extend_from_slice(b"aigc_label_type");
    d.push(0);
    d
}

#[test]
fn webp_bytes_under_png_name_with_aigc_is_at_least_likely() {
    let detector = TikTokPhotoDetector::new();
    let data = webp_with_aigc(1080, 1920);
    let m = detector.analyze_image("/tmp/photo.png", "photo.png", data.len() as u64, &data);
    assert_eq!(m.dimensions, Some((1080, 1920)));
    assert_eq!(m.file_format.as_deref(), Some("WebP"));
    assert_eq!(m.strings_found, strs(&["aigc_label_type"]));
    // base: 40 AIGC + 25 dimensions + 15 band + 5 portrait + 15 mismatch; photo: 15 + 10
    assert_eq!(m.tiktok_analysis.confidence_score, 125);
    assert!(m.tiktok_analysis.confidence_score >= 40 + 15);
    assert_eq!(m.tiktok_analysis.verdict, Verdict::Confirmed);
    assert!(m.tiktok_analysis.is_tiktok);
}

#[test]
fn base_table_on_webp_png_with_aigc() {
    let mm = MetadataManager::new();
    let ev = mm.analyze_tiktok_evidence(
        "photo.png",
        Some((1080, 1920)),
        &strs(&["aigc_label_type"]),
        &Some("WebP".to_string()),
    );
    assert_eq!(ev.confidence_score, 100);
    assert_eq!(ev.verdict, Verdict::Confirmed);
    assert_eq!(
        ev.evidence_found,
        strs(&[
            "AIGC metadata found",
            "TikTok-typical dimensions: 1080x1920",
            "9:16 aspect ratio (TikTok standard)",
            "Portrait orientation",
            "WebP format with PNG extension (TikTok app behavior)",
        ])
    );
    assert_eq!(
        ev.indicators,
        vec![
            ("aigc_metadata".to_string(), "detected".to_string()),
            ("video_dimensions".to_string(), "1080x1920".to_string()),
            ("aspect_ratio".to_string(), "1080:1920".to_string()),
            ("format_mismatch".to_string(), "webp_as_png".to_string()),
        ]
    );
}

#[test]
fn focal_length_scores_zero_even_with_target_dimensions() {
    let mm = MetadataManager::new();
    let found = strs(&["Focal Length: 50mm"]);
    let ev = mm.analyze_tiktok_evidence("IMG_0001.jpg", Some((1080, 1920)), &found, &None);
    assert_eq!(ev.confidence_score, 0);
    assert_eq!(ev.verdict, Verdict::Unlikely);
    assert!(!ev.is_tiktok);
    for kind in [MediaKind::Photo, MediaKind::Video] {
        let ev = mm.score("IMG_0001.jpg", Some((1080, 1920)), &found, &None, 1_000_000, kind);
        assert_eq!(ev.confidence_score, 0);
        assert_eq!(ev.verdict, Verdict::Unlikely);
    }
}

#[test]
fn camera_exclusion_overrides_other_evidence() {
    let mm = MetadataManager::new();
    let found = strs(&["tiktok aigc_label_type vid_md5", "exif ISO 100"]);
    for kind in [MediaKind::Photo, MediaKind::Video] {
        let ev = mm.score(
            "0123456789abcdef0123456789abcdef.png",
            Some((1080, 1920)),
            &found,
            &Some("WebP".to_string()),
            2_000_000,
            kind,
        );
        assert_eq!(ev.confidence_score, 0);
        assert_eq!(ev.verdict, Verdict::Unlikely);
        assert_eq!(
            ev.evidence_found,
            strs(&["Camera photo metadata detected (focal length, ISO, or aperture)"])
        );
        assert_eq!(ev.indicators, vec![("camera_photo".to_string(), "excluded".to_string())]);
    }
}

#[test]
fn hash_named_png_scores_ten_generic_and_eighteen_as_photo() {
    let mm = MetadataManager::new();
    let name = "0123456789abcdef0123456789abcdef.png";
    assert_eq!(name.chars().count(), 36);
    let ev = mm.analyze_tiktok_evidence(name, None, &Vec::new(), &None);
    assert_eq!(ev.confidence_score, 10);
    assert_eq!(ev.verdict, Verdict::Unlikely);
    let ev = mm.score(name, None, &Vec::new(), &None, 1000, MediaKind::Photo);
    assert_eq!(ev.confidence_score, 18);
    assert_eq!(ev.verdict, Verdict::Unlikely);
    assert!(!ev.is_tiktok);
}

#[test]
fn scoring_twice_gives_identical_results() {
    let mm = MetadataManager::new();
    let found = strs(&["encoder Lavf58.76.100", "bytedance vid:v0200f0000abc"]);
    let a = mm.score("Download123.mp4", Some((576, 1024)), &found, &None, 3_000_000, MediaKind::Video);
    let b = mm.score("Download123.mp4", Some((576, 1024)), &found, &None, 3_000_000, MediaKind::Video);
    assert_eq!(a.confidence_score, b.confidence_score);
    assert_eq!(a.evidence_found, b.evidence_found);
    assert_eq!(a.indicators, b.indicators);
    assert_eq!(a.verdict, b.verdict);
    assert_eq!(a.is_tiktok, b.is_tiktok);
}

#[test]
fn verdict_thresholds_are_exact_and_monotone() {
    assert_eq!(verdict_for(0), Verdict::Unlikely);
    assert_eq!(verdict_for(19), Verdict::Unlikely);
    assert_eq!(verdict_for(20), Verdict::Possible);
    assert_eq!(verdict_for(39), Verdict::Possible);
    assert_eq!(verdict_for(40), Verdict::Likely);
    assert_eq!(verdict_for(69), Verdict::Likely);
    assert_eq!(verdict_for(70), Verdict::Confirmed);
    assert_eq!(verdict_for(1000), Verdict::Confirmed);
    let rank = |v: Verdict| match v {
        Verdict::Unlikely => 0,
        Verdict::Possible => 1,
        Verdict::Likely => 2,
        Verdict::Confirmed => 3,
    };
    for s in 0..300u32 {
        assert!(rank(verdict_for(s)) <= rank(verdict_for(s + 1)));
    }
    assert_eq!(Verdict::Likely.label(), "LIKELY");
}

#[test]
fn video_identifier_rule_takes_first_match() {
    let mm = MetadataManager::new();
    let found = strs(&["no id here tiktok", "x vid:v123f0000ab y", "vid:v9l0000f"]);
    let ev = mm.analyze_tiktok_evidence("clip.mp4", None, &found, &None);
    // video id 35 + brand 20
    assert_eq!(ev.confidence_score, 55);
    assert_eq!(
        ev.indicators,
        vec![
            ("tiktok_video_id".to_string(), "x vid:v123f0000ab y".to_string()),
            ("string_indicators".to_string(), "no id here tiktok".to_string()),
        ]
    );
    let none = strs(&["vid:v12x0000ab", "vid:vf0000ab", "vid:v1f0000", "VID:V1F0000AB"]);
    let ev = mm.analyze_tiktok_evidence("clip.mp4", None, &none, &None);
    assert_eq!(ev.confidence_score, 0);
}

#[test]
fn brand_strings_are_joined() {
    let mm = MetadataManager::new();
    let found = strs(&["TikTok app", "other", "Douyin build"]);
    let ev = mm.analyze_tiktok_evidence("a.jpg", None, &found, &None);
    assert_eq!(ev.confidence_score, 20);
    assert_eq!(
        ev.indicators,
        vec![("string_indicators".to_string(), "TikTok app, Douyin build".to_string())]
    );
}

#[test]
fn content_hash_and_aigc_markers_add_up() {
    let mm = MetadataManager::new();
    let found = strs(&["AIGC_LABEL_TYPE=1", "vid_md5:abcd"]);
    let ev = mm.analyze_tiktok_evidence("a.jpg", None, &found, &None);
    assert_eq!(ev.confidence_score, 70);
    assert_eq!(ev.verdict, Verdict::Confirmed);
    assert!(ev.is_tiktok);
}

#[test]
fn video_layer_weights() {
    let mm = MetadataManager::new();
    // 1080x1920: base 25 + 15 + 5; video 30 + 15 + 10 + 20; Lavf58.76.100 20; download 25; size 5
    let found = strs(&["Lavf58.76.100"]);
    let ev = mm.score("Download_clip.MP4", Some((1080, 1920)), &found, &None, 2_000_000, MediaKind::Video);
    assert_eq!(ev.confidence_score, 45 + 75 + 20 + 25 + 5);
    assert!(ev.evidence_found.contains(&"TikTok-specific metadata: Lavf58.76.100".to_string()));
    assert!(ev.evidence_found.contains(&"TikTok download naming pattern (Download*.mp4)".to_string()));
}

#[test]
fn video_portrait_ratio_below_four_fifths() {
    let mm = MetadataManager::new();
    // 600x1000 = 0.6: not in the 9:16 band, below 0.8; portrait
    let ev = mm.score("v.mov", Some((600, 1000)), &Vec::new(), &None, 10, MediaKind::Video);
    // base portrait 5; video width<height 10, tall 8
    assert_eq!(ev.confidence_score, 23);
    assert!(ev.evidence_found.contains(&"Portrait aspect ratio: 0.600".to_string()));
    assert_eq!(ev.verdict, Verdict::Possible);
}

#[test]
fn photo_layer_weights() {
    let mm = MetadataManager::new();
    // 750x1334 is a screenshot size and app size; ratio 0.5622
    let ev = mm.score("shot.jpg", Some((750, 1334)), &Vec::new(), &None, 1_000_000, MediaKind::Photo);
    // base 25 + 15 + 5; photo 15 + 10 + 5
    assert_eq!(ev.confidence_score, 75);
    assert_eq!(ev.verdict, Verdict::Confirmed);
}

#[test]
fn video_detector_scores_as_video() {
    let det = TikTokVideoDetector::new();
    let data = b"\x00\x00ftypisom\x00 ByteDance encoder\x00".to_vec();
    let m = det.analyze_video("/v/Download1.mp4", "Download1.mp4", 150_000, &data);
    assert_eq!(m.strings_found, strs(&[" ByteDance encoder"]));
    // base brand 20; video ByteDance 25, download 25, size 5
    assert_eq!(m.tiktok_analysis.confidence_score, 75);
    assert_eq!(m.file_format.as_deref(), Some("MP4"));
    assert!(det.check_video_integrity(1001));
    assert!(!det.check_video_integrity(1000));
    assert!(!det.check_video_integrity(100_000_000));
}

fn metadata_with(strings: &[&str], score: u32) -> tiktok_cleaner::metadata::FileMetadata {
    tiktok_cleaner::metadata::FileMetadata {
        filename: "shot.jpg".to_string(),
        filepath: "/p/shot.jpg".to_string(),
        size_bytes: 10,
        size_human: "10.00 B".to_string(),
        md5_hash: None,
        dimensions: Some((100, 100)),
        file_format: None,
        strings_found: strs(strings),
        tiktok_analysis: tiktok_cleaner::scoring::TikTokEvidence {
            is_tiktok: false,
            confidence_score: score,
            evidence_found: Vec::new(),
            indicators: Vec::new(),
            verdict: Verdict::Unlikely,
            excluded: false,
        },
    }
}

#[test]
fn layers_recompute_the_verdict_from_the_final_score() {
    let photo = TikTokPhotoDetector::new();
    let mut m = metadata_with(&[], 50);
    photo.enhance_image_analysis(&mut m);
    assert_eq!(m.tiktok_analysis.confidence_score, 50);
    assert_eq!(m.tiktok_analysis.verdict, Verdict::Likely);
    assert!(m.tiktok_analysis.is_tiktok);
}

#[test]
fn layers_leave_an_excluded_result_unchanged() {
    let photo = TikTokPhotoDetector::new();
    let video = TikTokVideoDetector::new();
    let mut m = metadata_with(&["Aperture f/1.8 tiktok"], 0);
    m.dimensions = Some((1080, 1920));
    m.tiktok_analysis = photo.metadata_manager.analyze_tiktok_evidence(
        &m.filename,
        m.dimensions,
        &m.strings_found,
        &m.file_format,
    );
    assert!(m.tiktok_analysis.excluded);
    photo.enhance_image_analysis(&mut m);
    assert_eq!(m.tiktok_analysis.confidence_score, 0);
    assert_eq!(m.tiktok_analysis.verdict, Verdict::Unlikely);
    assert!(!m.tiktok_analysis.is_tiktok);
    video.enhance_video_analysis(&mut m);
    assert_eq!(m.tiktok_analysis.confidence_score, 0);
    assert_eq!(
        m.tiktok_analysis.evidence_found,
        strs(&["Camera photo metadata detected (focal length, ISO, or aperture)"])
    );
}

#[test]
fn layers_do_not_rerun_the_exclusion_check() {
    let photo = TikTokPhotoDetector::new();
    let video = TikTokVideoDetector::new();
    let mut m = metadata_with(&["iso tiktok"], 50);
    photo.enhance_image_analysis(&mut m);
    assert_eq!(m.tiktok_analysis.confidence_score, 50);
    assert_eq!(m.tiktok_analysis.verdict, Verdict::Likely);
    let mut v = metadata_with(&["iso tiktok"], 90);
    v.dimensions = Some((576, 1024));
    video.enhance_video_analysis(&mut v);
    // 30 listed + 15 preferred + 10 narrower than tall + 20 in the 9:16 band
    assert_eq!(v.tiktok_analysis.confidence_score, 165);
    assert!(!v.tiktok_analysis.excluded);
    assert_eq!(v.tiktok_analysis.verdict, Verdict::Confirmed);
}
