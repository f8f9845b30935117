//! Evidence extraction: what the rules read from one file's name and bytes.

use vstd::prelude::*;
use crate::scoring::{
    app_dimensions, indicator_words, opt_text, views, Facts, MediaKind, TikTokEvidence,
};
use crate::text::{chars_of, contains_folded, decimal, digit, digit_char, occurs_folded, push_char, push_decimal};

verus! {

/// The fixed configuration of the rules: the app's resolutions and the words that
/// make a printable run worth keeping.
pub struct MetadataManager {
    pub tiktok_dimensions: Vec<(u32, u32)>,
    pub string_indicators: Vec<String>,
}

impl MetadataManager {
    /// The configuration holds the fixed lists.
    pub open spec fn wf(&self) -> bool {
        &&& self.tiktok_dimensions@ == app_dimensions()
        &&& views(self.string_indicators@) == indicator_words()
    }

    /// Builds the fixed configuration.
    pub fn new() -> (r: Self)
        ensures
            r.wf(),
    {
        let tiktok_dimensions: Vec<(u32, u32)> = vec![
            (576, 1024), (576, 1246), (576, 1280),
            (1080, 1920), (1080, 1800), (1080, 2340), (1080, 2400),
            (828, 1792), (750, 1334), (1125, 2436), (1242, 2688),
            (1284, 2778), (1170, 2532),
        ];
        let string_indicators: Vec<String> = vec![
            String::from_str("tiktok"),
            String::from_str("douyin"),
            String::from_str("bytedance"),
            String::from_str("musically"),
            String::from_str("musical.ly"),
            String::from_str("aigc_label_type"),
            String::from_str("vid_md5"),
        ];
        assert(tiktok_dimensions@ =~= app_dimensions());
        assert(views(string_indicators@) =~= indicator_words());
        MetadataManager { tiktok_dimensions, string_indicators }
    }
}

/// How much of a file the string scan reads: 1 MiB.
pub const SCAN_LIMIT: usize = 1048576;

/// The byte at `i` of the 16-byte header, zero past the end of the data.
pub open spec fn header_byte(data: Seq<u8>, i: int) -> u8 {
    if i < data.len() {
        data[i]
    } else {
        0
    }
}

/// The header starts with `sig` at offset `at`.
pub open spec fn header_has(data: Seq<u8>, at: int, sig: Seq<u8>) -> bool {
    forall|k: int| 0 <= k < sig.len() ==> header_byte(data, at + k) == #[trigger] sig[k]
}

/// The container named by the first 16 bytes: a RIFF/WEBP header, the PNG magic
/// number, or a JPEG start-of-image marker.
pub open spec fn sniffed_format(data: Seq<u8>) -> Option<Seq<char>> {
    if header_has(data, 0, seq![0x52u8, 0x49, 0x46, 0x46]) && header_has(
        data,
        8,
        seq![0x57u8, 0x45, 0x42, 0x50],
    ) {
        Some("WebP"@)
    } else if header_has(data, 0, seq![0x89u8, 0x50, 0x4E, 0x47, 0x0D, 0x0A, 0x1A, 0x0A]) {
        Some("PNG"@)
    } else if header_has(data, 0, seq![0xFFu8, 0xD8]) {
        Some("JPEG"@)
    } else {
        None
    }
}

/// Whether the header holds `sig` at offset `at`.
fn header_matches(data: &[u8], at: usize, sig: &[u8]) -> (r: bool)
    requires
        at + sig@.len() <= 16,
    ensures
        r == header_has(data@, at as int, sig@),
{
    let mut k: usize = 0;
    while k < sig.len()
        invariant
            k <= sig@.len(),
            at + sig@.len() <= 16,
            forall|j: int| 0 <= j < k ==> header_byte(data@, at + j) == #[trigger] sig@[j],
        decreases sig@.len() - k,
    {
        let b = if at + k < data.len() {
            data[at + k]
        } else {
            0
        };
        if b != sig[k] {
            return false;
        }
        k = k + 1;
    }
    true
}

/// The container that the first 16 bytes of `data` name, if any.
pub fn detect_file_format(data: &[u8]) -> (r: Option<String>)
    ensures
        opt_text(r) == sniffed_format(data@),
{
    let riff: [u8; 4] = [0x52, 0x49, 0x46, 0x46];
    let webp: [u8; 4] = [0x57, 0x45, 0x42, 0x50];
    let png: [u8; 8] = [0x89, 0x50, 0x4E, 0x47, 0x0D, 0x0A, 0x1A, 0x0A];
    let jpeg: [u8; 2] = [0xFF, 0xD8];
    assert(riff@ =~= seq![0x52u8, 0x49, 0x46, 0x46]);
    assert(webp@ =~= seq![0x57u8, 0x45, 0x42, 0x50]);
    assert(png@ =~= seq![0x89u8, 0x50, 0x4E, 0x47, 0x0D, 0x0A, 0x1A, 0x0A]);
    assert(jpeg@ =~= seq![0xFFu8, 0xD8]);
    if header_matches(data, 0, &riff) && header_matches(data, 8, &webp) {
        Some(String::from_str("WebP"))
    } else if header_matches(data, 0, &png) {
        Some(String::from_str("PNG"))
    } else if header_matches(data, 0, &jpeg) {
        Some(String::from_str("JPEG"))
    } else {
        None
    }
}

/// A printable ASCII byte, 32 to 126.
pub open spec fn printable(b: u8) -> bool {
    32 <= b <= 126
}

/// The character of a printable byte.
pub open spec fn byte_char(b: u8) -> char {
    b as char
}

/// A run is kept when it has at least 4 characters and contains an indicator word.
pub open spec fn kept(run: Seq<char>) -> bool {
    run.len() >= 4 && exists|i: int|
        0 <= i < indicator_words().len() && occurs_folded(run, #[trigger] indicator_words()[i])
}

/// The kept runs so far, and the run in progress, after scanning `data`.
pub open spec fn scan_state(data: Seq<u8>) -> (Seq<Seq<char>>, Seq<char>)
    decreases data.len(),
{
    if data.len() == 0 {
        (Seq::empty(), Seq::empty())
    } else {
        let (found, cur) = scan_state(data.drop_last());
        if printable(data.last()) {
            (found, cur.push(byte_char(data.last())))
        } else {
            (flushed(found, cur), Seq::empty())
        }
    }
}

/// `found`, with `run` added when it is kept.
pub open spec fn flushed(found: Seq<Seq<char>>, run: Seq<char>) -> Seq<Seq<char>> {
    if kept(run) {
        found.push(run)
    } else {
        found
    }
}

/// The printable runs of the first 1 MiB of `data` that are kept, in order.
pub open spec fn found_strings(data: Seq<u8>) -> Seq<Seq<char>> {
    let head = if data.len() <= SCAN_LIMIT {
        data
    } else {
        data.take(SCAN_LIMIT as int)
    };
    let (found, cur) = scan_state(head);
    flushed(found, cur)
}

impl MetadataManager {
    /// Whether a completed run is kept.
    fn keeps(&self, run: &Vec<char>) -> (r: bool)
        requires
            self.wf(),
        ensures
            r == kept(run@),
    {
        if run.len() < 4 {
            return false;
        }
        let mut i: usize = 0;
        while i < self.string_indicators.len()
            invariant
                self.wf(),
                run@.len() >= 4,
                i <= self.string_indicators.len(),
                forall|j: int| 0 <= j < i ==> !occurs_folded(run@, #[trigger] indicator_words()[j]),
        decreases self.string_indicators.len() - i,
        {
            assert(indicator_words()[i as int] == self.string_indicators@[i as int]@);
            if contains_folded(run, &chars_of(self.string_indicators[i].as_str())) {
                assert(0 <= i < indicator_words().len());
                assert(occurs_folded(run@, indicator_words()[i as int]));
                return true;
            }
            i = i + 1;
        }
        false
    }

    /// The printable runs of the first 1 MiB of `data` that contain an indicator word.
    pub fn search_strings(&self, data: &[u8]) -> (r: Vec<String>)
        requires
            self.wf(),
        ensures
            views(r@) == found_strings(data@),
    {
        let n = if data.len() <= SCAN_LIMIT {
            data.len()
        } else {
            SCAN_LIMIT
        };
        let ghost head = if data@.len() <= SCAN_LIMIT {
            data@
        } else {
            data@.take(SCAN_LIMIT as int)
        };
        let mut found: Vec<String> = Vec::new();
        let mut cur: Vec<char> = Vec::new();
        let mut cur_text = String::new();
        let mut i: usize = 0;
        assert(head.take(0) =~= Seq::<u8>::empty());
        while i < n
            invariant
                self.wf(),
                i <= n,
                n == head.len(),
                n <= data@.len(),
                forall|j: int| 0 <= j < n ==> head[j] == data@[j],
                (views(found@), cur@) == scan_state(head.take(i as int)),
                cur_text@ == cur@,
            decreases n - i,
        {
            let b = data[i];
            assert(head.take(i + 1).drop_last() =~= head.take(i as int));
            assert(head.take(i + 1).last() == b);
            if 32 <= b && b <= 126 {
                let c = b as char;
                cur.push(c);
                push_char(&mut cur_text, c);
            } else {
                if self.keeps(&cur) {
                    let ghost before = found@;
                    found.push(cur_text);
                    assert(views(found@) =~= views(before).push(cur@));
                }
                cur = Vec::new();
                cur_text = String::new();
                assert(cur@ =~= Seq::<char>::empty());
            }
            i = i + 1;
        }
        assert(head.take(n as int) =~= head);
        if self.keeps(&cur) {
            let ghost before = found@;
            found.push(cur_text);
            assert(views(found@) =~= views(before).push(cur@));
        }
        found
    }
}

/// The scan keeps at most one run per byte read, plus the last one.
pub proof fn scan_count(data: Seq<u8>)
    ensures
        scan_state(data).0.len() <= data.len(),
    decreases data.len(),
{
    if data.len() > 0 {
        scan_count(data.drop_last());
    }
}

/// The string scan keeps at most 1 MiB + 1 runs.
pub proof fn found_strings_count(data: Seq<u8>)
    ensures
        found_strings(data).len() <= SCAN_LIMIT + 1,
{
    let head = if data.len() <= SCAN_LIMIT {
        data
    } else {
        data.take(SCAN_LIMIT as int)
    };
    scan_count(head);
}

/// What the size probe of the image-size library reads from a header.
pub uninterp spec fn probed_size(data: Seq<u8>) -> Option<(usize, usize)>;

/// Relies on imagesize::blob_size: the width and height that the header of a
/// known image format declares, or none when the format is not recognized.
#[verifier::external_body]
fn probe_size(data: &[u8]) -> (r: Option<(usize, usize)>)
    ensures
        r == probed_size(data@),
{
    match imagesize::blob_size(data) {
        Ok(size) => Some((size.width, size.height)),
        Err(_) => None,
    }
}

/// What a full decode of the image library gives: width, height and the name of
/// the color layout.
pub uninterp spec fn decoded_image(data: Seq<u8>) -> Option<(u32, u32, Seq<char>)>;

/// Relies on image::load_from_memory: the decoded image's width and height, and
/// the Debug name of its color type.
#[verifier::external_body]
fn decode_image(data: &[u8]) -> (r: Option<(u32, u32, String)>)
    ensures
        match r {
            Some(x) => decoded_image(data@) == Some((x.0, x.1, x.2@)),
            None => decoded_image(data@) is None,
        },
{
    match image::load_from_memory(data) {
        Ok(img) => Some((img.width(), img.height(), format!("{:?}", img.color()))),
        Err(_) => None,
    }
}

/// The Unicode upper case of a text.
pub uninterp spec fn upper_of(s: Seq<char>) -> Seq<char>;

/// Relies on str::to_uppercase: the result depends on the characters alone.
#[verifier::external_body]
fn uppercase(s: &str) -> (r: String)
    ensures
        r@ == upper_of(s@),
{
    s.to_uppercase()
}

/// The position of the last '.' in `s`, if any.
pub open spec fn last_dot(s: Seq<char>) -> Option<int>
    decreases s.len(),
{
    if s.len() == 0 {
        None
    } else if s.last() == '.' {
        Some(s.len() - 1)
    } else {
        last_dot(s.drop_last())
    }
}

/// The extension of a file name: what follows its last '.', unless the name has
/// no '.' or its only leading part is empty.
pub open spec fn extension_of(name: Seq<char>) -> Option<Seq<char>> {
    match last_dot(name) {
        Some(i) => if i == 0 {
            None
        } else {
            Some(name.subrange(i + 1, name.len() as int))
        },
        None => None,
    }
}

/// The extension of a file name.
pub fn extension(name: &str) -> (r: Option<String>)
    ensures
        opt_text(r) == extension_of(name@),
{
    let v = chars_of(name);
    let mut i: usize = v.len();
    assert(v@.take(i as int) =~= v@);
    while i > 0
        invariant
            i <= v.len(),
            v@ == name@,
            last_dot(name@) == last_dot(v@.take(i as int)),
        decreases i,
    {
        assert(v@.take(i as int).drop_last() =~= v@.take(i - 1));
        if v[i - 1] == '.' {
            if i - 1 == 0 {
                return None;
            }
            let mut out = String::new();
            let mut k: usize = i;
            while k < v.len()
                invariant
                    i <= k <= v.len(),
                    out@ == v@.subrange(i as int, k as int),
                decreases v.len() - k,
            {
                push_char(&mut out, v[k]);
                k = k + 1;
                assert(out@ =~= v@.subrange(i as int, k as int));
            }
            return Some(out);
        }
        i = i - 1;
    }
    None
}

/// Dimensions and a format label, from the first source that answers: the size
/// probe, a full decode, then the extension in upper case. A recognized header
/// signature overrides the label that the decode or the extension would give.
pub open spec fn image_info(data: Seq<u8>, name: Seq<char>) -> (Option<(u32, u32)>, Option<Seq<char>>) {
    let sniff = sniffed_format(data);
    match probed_size(data) {
        Some(d) => (Some((d.0 as u32, d.1 as u32)), sniff),
        None => match decoded_image(data) {
            Some(x) => (Some((x.0, x.1)), if sniff is Some {
                sniff
            } else {
                Some(x.2)
            }),
            None => (None, if sniff is Some {
                sniff
            } else {
                match extension_of(name) {
                    Some(e) => Some(upper_of(e)),
                    None => None,
                }
            }),
        },
    }
}

/// The dimensions and format label of a file's content.
pub fn get_image_info(data: &[u8], filename: &str) -> (r: (Option<(u32, u32)>, Option<String>))
    ensures
        (r.0, opt_text(r.1)) == image_info(data@, filename@),
{
    let actual = detect_file_format(data);
    match probe_size(data) {
        Some(d) => {
            return (Some((d.0 as u32, d.1 as u32)), actual);
        },
        None => {},
    }
    match decode_image(data) {
        Some(x) => {
            let fmt = match actual {
                Some(a) => Some(a),
                None => Some(x.2),
            };
            (Some((x.0, x.1)), fmt)
        },
        None => {
            let fmt = match actual {
                Some(a) => Some(a),
                None => match extension(filename) {
                    Some(e) => Some(uppercase(e.as_str())),
                    None => None,
                },
            };
            (None, fmt)
        },
    }
}

/// The MD5 digest of a byte string.
pub uninterp spec fn md5_of(data: Seq<u8>) -> Seq<u8>;

/// Relies on md5::compute: the 16-byte MD5 digest of the data.
#[verifier::external_body]
fn md5_digest(data: &[u8]) -> (r: Vec<u8>)
    ensures
        r@ == md5_of(data@),
        r@.len() == 16,
{
    md5::compute(data).0.to_vec()
}

/// The lowercase hexadecimal digit for `d < 16`.
pub open spec fn hex_digit_char(d: int) -> char {
    if d < 10 {
        digit_char(d as nat)
    } else {
        ((d - 10) + 97) as char
    }
}

/// Two lowercase hexadecimal digits per byte.
pub open spec fn hex_text(b: Seq<u8>) -> Seq<char>
    decreases b.len(),
{
    if b.len() == 0 {
        Seq::empty()
    } else {
        hex_text(b.drop_last()) + seq![
            hex_digit_char(b.last() as int / 16),
            hex_digit_char(b.last() as int % 16),
        ]
    }
}

/// Two characters per byte.
pub proof fn hex_text_len(b: Seq<u8>)
    ensures
        hex_text(b).len() == 2 * b.len(),
    decreases b.len(),
{
    if b.len() > 0 {
        hex_text_len(b.drop_last());
    }
}

/// The lowercase hexadecimal digit for `d < 16`.
fn hex_digit(d: u8) -> (c: char)
    requires
        d < 16,
    ensures
        c == hex_digit_char(d as int),
{
    if d < 10 {
        digit(d as u64)
    } else {
        ((d - 10) + 97) as char
    }
}

/// Two lowercase hexadecimal digits per byte.
pub fn hex_string(b: &[u8]) -> (r: String)
    ensures
        r@ == hex_text(b@),
{
    let mut s = String::new();
    let mut i: usize = 0;
    while i < b.len()
        invariant
            i <= b@.len(),
            s@ == hex_text(b@.take(i as int)),
        decreases b@.len() - i,
    {
        assert(b@.take(i + 1).drop_last() =~= b@.take(i as int));
        push_char(&mut s, hex_digit(b[i] / 16));
        push_char(&mut s, hex_digit(b[i] % 16));
        i = i + 1;
        assert(s@ =~= hex_text(b@.take(i as int)));
    }
    assert(b@.take(b@.len() as int) =~= b@);
    s
}

/// The hexadecimal MD5 digest of `data`.
pub fn calculate_md5(data: &[u8]) -> (r: String)
    ensures
        r@ == hex_text(md5_of(data@)),
        r@.len() == 32,
{
    let d = md5_digest(data);
    proof {
        hex_text_len(d@);
    }
    hex_string(d.as_slice())
}

/// 1024 to the power `k`.
pub open spec fn kib_pow(k: nat) -> nat
    decreases k,
{
    if k == 0 {
        1
    } else {
        1024 * kib_pow((k - 1) as nat)
    }
}

/// The unit of a size: B, KB, MB, GB or TB.
pub open spec fn unit_of(bytes: u64) -> nat {
    if bytes < kib_pow(1) {
        0
    } else if bytes < kib_pow(2) {
        1
    } else if bytes < kib_pow(3) {
        2
    } else if bytes < kib_pow(4) {
        3
    } else {
        4
    }
}

/// The name of unit `k`.
pub open spec fn unit_name(k: nat) -> Seq<char> {
    if k == 0 {
        "B"@
    } else if k == 1 {
        "KB"@
    } else if k == 2 {
        "MB"@
    } else if k == 3 {
        "GB"@
    } else {
        "TB"@
    }
}

/// bytes / 1024^k in hundredths, rounded to nearest with ties to even.
pub open spec fn hundredths(bytes: u64, k: nat) -> int {
    let scaled = bytes as int * 100;
    let den = kib_pow(k) as int;
    let q = scaled / den;
    let r = scaled % den;
    if 2 * r > den || (2 * r == den && q % 2 == 1) {
        q + 1
    } else {
        q
    }
}

/// A size in the largest unit that keeps it at 1024 or above 1 (up to TB),
/// with two decimals: "1.50 KB".
pub open spec fn bytes_text(bytes: u64) -> Seq<char> {
    let k = unit_of(bytes);
    let h = hundredths(bytes, k);
    decimal((h / 100) as nat) + "."@ + seq![digit_char(((h / 10) % 10) as nat), digit_char((h % 10) as nat)] + " "@
        + unit_name(k)
}

/// A byte count as human-readable text, such as "1.50 KB".
pub fn format_bytes(bytes: u64) -> (r: String)
    ensures
        r@ == bytes_text(bytes),
{
    let ghost k = unit_of(bytes);
    let (den, unit): (u128, &str) = if bytes < 1024 {
        (1, "B")
    } else if bytes < 1048576 {
        (1024, "KB")
    } else if bytes < 1073741824 {
        (1048576, "MB")
    } else if bytes < 1099511627776 {
        (1073741824, "GB")
    } else {
        (1099511627776, "TB")
    };
    proof {
        reveal_with_fuel(kib_pow, 5);
    }
    assert(kib_pow(1) == 1024 && kib_pow(2) == 1048576 && kib_pow(3) == 1073741824 && kib_pow(4)
        == 1099511627776);
    assert(den == kib_pow(k));
    assert(unit@ == unit_name(k));
    let scaled = (bytes as u128) * 100;
    let q = scaled / den;
    let r = scaled % den;
    let h = if 2 * r > den || (2 * r == den && q % 2 == 1) {
        q + 1
    } else {
        q
    };
    assert(h == hundredths(bytes, k));
    assert(h <= 1844674407370955161600) by (nonlinear_arith)
        requires
            h <= q + 1,
            q == scaled / den,
            den >= 1,
            scaled <= 1844674407370955161500,
    ;
    let whole = (h / 100) as u64;
    let mut s = String::new();
    push_decimal(&mut s, whole);
    s.append(".");
    push_char(&mut s, digit(((h / 10) % 10) as u64));
    push_char(&mut s, digit((h % 10) as u64));
    s.append(" ");
    s.append(unit);
    assert(s@ =~= bytes_text(bytes));
    s
}

/// Everything recorded about one analyzed file.
pub struct FileMetadata {
    pub filename: String,
    pub filepath: String,
    pub size_bytes: u64,
    pub size_human: String,
    pub md5_hash: Option<String>,
    pub dimensions: Option<(u32, u32)>,
    pub file_format: Option<String>,
    pub strings_found: Vec<String>,
    pub tiktok_analysis: TikTokEvidence,
}

impl FileMetadata {
    /// The evidence that the rules read.
    pub open spec fn facts(&self) -> Facts {
        Facts {
            name: self.filename@,
            dims: self.dimensions,
            strs: views(self.strings_found@),
            format: opt_text(self.file_format),
        }
    }

    /// Every field but the analysis is what extraction gives for this file.
    pub open spec fn extracted_from(
        &self,
        filepath: Seq<char>,
        filename: Seq<char>,
        size: u64,
        data: Seq<u8>,
    ) -> bool {
        &&& self.filename@ == filename
        &&& self.filepath@ == filepath
        &&& self.size_bytes == size
        &&& self.size_human@ == bytes_text(size)
        &&& opt_text(self.md5_hash) == Some(hex_text(md5_of(data)))
        &&& (self.dimensions, opt_text(self.file_format)) == image_info(data, filename)
        &&& views(self.strings_found@) == found_strings(data)
    }
}

impl MetadataManager {
    /// Extracts the evidence of one file from its path, name, size and content,
    /// and applies the base rule table to it.
    pub fn analyze_file(&self, filepath: &str, filename: &str, size_bytes: u64, data: &[u8]) -> (r:
        FileMetadata)
        requires
            self.wf(),
        ensures
            r.extracted_from(filepath@, filename@, size_bytes, data@),
            r.tiktok_analysis@ == r.facts().base(),
    {
        let md5_hash = Some(calculate_md5(data));
        let (dimensions, file_format) = get_image_info(data, filename);
        let strings_found = self.search_strings(data);
        let tiktok_analysis = self.analyze_tiktok_evidence(
            filename,
            dimensions,
            &strings_found,
            &file_format,
        );
        FileMetadata {
            filename: String::from_str(filename),
            filepath: String::from_str(filepath),
            size_bytes,
            size_human: format_bytes(size_bytes),
            md5_hash,
            dimensions,
            file_format,
            strings_found,
            tiktok_analysis,
        }
    }
}

/// The analysis of a file after the layer of `kind`; the other fields unchanged.
pub open spec fn enhanced(before: FileMetadata, after: FileMetadata, kind: MediaKind) -> bool {
    let f = before.facts();
    &&& after.filename == before.filename
    &&& after.filepath == before.filepath
    &&& after.size_bytes == before.size_bytes
    &&& after.size_human == before.size_human
    &&& after.md5_hash == before.md5_hash
    &&& after.dimensions == before.dimensions
    &&& after.file_format == before.file_format
    &&& after.strings_found == before.strings_found
    &&& after.tiktok_analysis@ == crate::scoring::with_layer(before.tiktok_analysis@, f, before.size_bytes, kind)
}

/// Adds the layer of `kind` to the analysis held in `metadata`.
pub fn enhance(metadata: &mut FileMetadata, kind: MediaKind)
    requires
        old(metadata).tiktok_analysis.wf(),
        old(metadata).tiktok_analysis.confidence_score + 40 * old(metadata).strings_found.len() + 200
            <= u32::MAX,
    ensures
        enhanced(*old(metadata), *final(metadata), kind),
        final(metadata).tiktok_analysis.wf(),
{
    let mut ev = TikTokEvidence {
        is_tiktok: false,
        confidence_score: 0,
        evidence_found: Vec::new(),
        indicators: Vec::new(),
        verdict: crate::scoring::Verdict::Unlikely,
        excluded: false,
    };
    core::mem::swap(&mut ev, &mut metadata.tiktok_analysis);
    let layered = crate::scoring::layer_kind(
        ev,
        metadata.filename.as_str(),
        metadata.dimensions,
        &metadata.strings_found,
        &metadata.file_format,
        metadata.size_bytes,
        kind,
    );
    metadata.tiktok_analysis = layered;
}

/// The photo detector: the base rule table with the photo layer on top.
pub struct TikTokPhotoDetector {
    pub metadata_manager: MetadataManager,
}

impl TikTokPhotoDetector {
    pub open spec fn wf(&self) -> bool {
        self.metadata_manager.wf()
    }

    pub fn new() -> (r: Self)
        ensures
            r.wf(),
    {
        TikTokPhotoDetector { metadata_manager: MetadataManager::new() }
    }

    /// Extracts and scores one image file.
    pub fn analyze_image(&self, filepath: &str, filename: &str, size_bytes: u64, data: &[u8]) -> (r:
        FileMetadata)
        requires
            self.wf(),
        ensures
            r.extracted_from(filepath@, filename@, size_bytes, data@),
            r.tiktok_analysis@ == r.facts().scored(size_bytes, MediaKind::Photo),
    {
        let mut metadata = self.metadata_manager.analyze_file(filepath, filename, size_bytes, data);
        proof {
            found_strings_count(data@);
        }
        self.enhance_image_analysis(&mut metadata);
        metadata
    }

    /// Adds the photo layer to an analysis.
    pub fn enhance_image_analysis(&self, metadata: &mut FileMetadata)
        requires
            old(metadata).tiktok_analysis.wf(),
            old(metadata).tiktok_analysis.confidence_score + 40 * old(metadata).strings_found.len()
                + 200 <= u32::MAX,
        ensures
            enhanced(*old(metadata), *final(metadata), MediaKind::Photo),
            final(metadata).tiktok_analysis.wf(),
    {
        enhance(metadata, MediaKind::Photo)
    }
}

/// The video detector: the base rule table with the video layer on top.
pub struct TikTokVideoDetector {
    pub metadata_manager: MetadataManager,
}

impl TikTokVideoDetector {
    pub open spec fn wf(&self) -> bool {
        self.metadata_manager.wf()
    }

    pub fn new() -> (r: Self)
        ensures
            r.wf(),
    {
        TikTokVideoDetector { metadata_manager: MetadataManager::new() }
    }

    /// Extracts and scores one video file.
    pub fn analyze_video(&self, filepath: &str, filename: &str, size_bytes: u64, data: &[u8]) -> (r:
        FileMetadata)
        requires
            self.wf(),
        ensures
            r.extracted_from(filepath@, filename@, size_bytes, data@),
            r.tiktok_analysis@ == r.facts().scored(size_bytes, MediaKind::Video),
    {
        let mut metadata = self.metadata_manager.analyze_file(filepath, filename, size_bytes, data);
        proof {
            found_strings_count(data@);
        }
        self.enhance_video_analysis(&mut metadata);
        metadata
    }

    /// A video file of plausible size: over 1 KB and under 100 MB.
    pub fn check_video_integrity(&self, size_bytes: u64) -> (r: bool)
        ensures
            r == (1000 < size_bytes < 100_000_000),
    {
        size_bytes > 1000 && size_bytes < 100_000_000
    }

    /// Adds the video layer to an analysis.
    pub fn enhance_video_analysis(&self, metadata: &mut FileMetadata)
        requires
            old(metadata).tiktok_analysis.wf(),
            old(metadata).tiktok_analysis.confidence_score + 40 * old(metadata).strings_found.len()
                + 200 <= u32::MAX,
        ensures
            enhanced(*old(metadata), *final(metadata), MediaKind::Video),
            final(metadata).tiktok_analysis.wf(),
    {
        enhance(metadata, MediaKind::Video)
    }
}

} // verus!
