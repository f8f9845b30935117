use tiktok_cleaner::metadata::{
    calculate_md5, detect_file_format, extension, format_bytes, get_image_info, MetadataManager,
};

#[test]
fn signature_sniffing() {
    let png = [0x89, 0x50, 0x4E, 0x47, 0x0D, 0x0A, 0x1A, 0x0A, 0, 0];
    assert_eq!(detect_file_format(&png).as_deref(), Some("PNG"));
    assert_eq!(detect_file_format(&[0xFF, 0xD8, 0xFF]).as_deref(), Some("JPEG"));
    assert_eq!(detect_file_format(b"RIFF\0\0\0\0WEBPVP8 ").as_deref(), Some("WebP"));
    assert_eq!(detect_file_format(b"RIFF\0\0\0\0WAVE").as_deref(), None);
    assert_eq!(detect_file_format(&[]).as_deref(), None);
    assert_eq!(detect_file_format(&[0xFF]).as_deref(), None);
}

#[test]
fn string_scan_keeps_indicator_runs_of_four_or_more() {
    let mm = MetadataManager::new();
    let data = b"abc\x01TikTok!\x00tik\x00hello world\x07ByteDance Inc\xffmusical.ly".to_vec();
    assert_eq!(
        mm.search_strings(&data),
        vec!["TikTok!".to_string(), "ByteDance Inc".to_string(), "musical.ly".to_string()]
    );
    assert!(mm.search_strings(&[]).is_empty());
}

#[test]
fn string_scan_reads_only_the_first_mebibyte() {
    let mm = MetadataManager::new();
    let mut data = vec![0u8; 1024 * 1024 - 3];
    data.extend_from_slice(b"tiktok");
    // the run is cut at the limit: "tik" is too short to keep
    assert!(mm.search_strings(&data).is_empty());
    let mut data = vec![0u8; 1024 * 1024 - 6];
    data.extend_from_slice(b"tiktok");
    assert_eq!(mm.search_strings(&data), vec!["tiktok".to_string()]);
}

#[test]
fn extension_and_fallback_label() {
    assert_eq!(extension("a.b.dat").as_deref(), Some("dat"));
    assert_eq!(extension(".bashrc"), None);
    assert_eq!(extension("README"), None);
    assert_eq!(extension("trail."), Some(String::new()));
    let (dims, fmt) = get_image_info(b"just some text", "notes.dat");
    assert_eq!(dims, None);
    assert_eq!(fmt.as_deref(), Some("DAT"));
    let (dims, fmt) = get_image_info(b"just some text", "noext");
    assert_eq!(dims, None);
    assert_eq!(fmt, None);
}

#[test]
fn probe_reads_png_dimensions() {
    let mut d = vec![0x89, 0x50, 0x4E, 0x47, 0x0D, 0x0A, 0x1A, 0x0A];
    d.extend_from_slice(&[0, 0, 0, 13]);
    d.extend_from_slice(b"IHDR");
    d.extend_from_slice(&1080u32.to_be_bytes());
    d.extend_from_slice(&1920u32.to_be_bytes());
    d.extend_from_slice(&[8, 6, 0, 0, 0]);
    let (dims, fmt) = get_image_info(&d, "x.png");
    assert_eq!(dims, Some((1080, 1920)));
    assert_eq!(fmt.as_deref(), Some("PNG"));
}

#[test]
fn md5_digest_as_hex() {
    assert_eq!(calculate_md5(b"abc"), "900150983cd24fb0d6963f7d28e17f72");
    assert_eq!(calculate_md5(b""), "d41d8cd98f00b204e9800998ecf8427e");
}

#[test]
fn human_readable_sizes() {
    assert_eq!(format_bytes(0), "0.00 B");
    assert_eq!(format_bytes(1023), "1023.00 B");
    assert_eq!(format_bytes(1024), "1.00 KB");
    assert_eq!(format_bytes(1536), "1.50 KB");
    assert_eq!(format_bytes(1048576), "1.00 MB");
    assert_eq!(format_bytes(5 * 1073741824), "5.00 GB");
    assert_eq!(format_bytes(3 * 1099511627776), "3.00 TB");
    assert_eq!(format_bytes(2048 * 1099511627776), "2048.00 TB");
    assert_eq!(format_bytes(1048575), format!("{:.2} KB", 1048575f64 / 1024.0));
    assert_eq!(format_bytes(123456789), format!("{:.2} MB", 123456789f64 / 1048576.0));
}

#[test]
fn analyze_file_fills_every_field() {
    let mm = MetadataManager::new();
    let data = b"hello tiktok world".to_vec();
    let m = mm.analyze_file("/x/y/clip.txt", "clip.txt", 2048, &data);
    assert_eq!(m.filename, "clip.txt");
    assert_eq!(m.filepath, "/x/y/clip.txt");
    assert_eq!(m.size_bytes, 2048);
    assert_eq!(m.size_human, "2.00 KB");
    assert_eq!(m.md5_hash.as_deref(), Some(format!("{:x}", md5::compute(&data)).as_str()));
    assert_eq!(m.dimensions, None);
    assert_eq!(m.file_format.as_deref(), Some("TXT"));
    assert_eq!(m.strings_found, vec!["hello tiktok world".to_string()]);
    assert_eq!(m.tiktok_analysis.confidence_score, 20);
}
