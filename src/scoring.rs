//! The scoring engine: an ordered table of weighted rules over the evidence of
//! one file, a media-kind layer on top of it, and the verdict tiers.

use vstd::prelude::*;
use crate::metadata::MetadataManager;
use crate::text::{
    begins_folded, chars_of, contains_folded, count_char, count_of, decimal, digit, digit_char,
    ends_exactly, ends_folded, ends_with, ends_with_folded, is_hex, is_hex_char, occurs_folded,
    push_char, push_decimal, starts_with_folded,
};

verus! {

/// The verdict tiers, from least to most confident.
#[derive(Clone, Copy, Debug, PartialEq, Eq, Structural)]
pub enum Verdict {
    Unlikely,
    Possible,
    Likely,
    Confirmed,
}

/// Position of a tier in the order Unlikely < Possible < Likely < Confirmed.
pub open spec fn tier_rank(v: Verdict) -> int {
    match v {
        Verdict::Unlikely => 0,
        Verdict::Possible => 1,
        Verdict::Likely => 2,
        Verdict::Confirmed => 3,
    }
}

/// The tier of a confidence score: 70 and above, 40 to 69, 20 to 39, below 20.
pub open spec fn verdict_of(score: int) -> Verdict {
    if score >= 70 {
        Verdict::Confirmed
    } else if score >= 40 {
        Verdict::Likely
    } else if score >= 20 {
        Verdict::Possible
    } else {
        Verdict::Unlikely
    }
}

/// A score counts as a match from the Likely tier up.
pub open spec fn is_match_score(score: int) -> bool {
    score >= 40
}

/// The tier of a confidence score.
pub fn verdict_for(score: u32) -> (v: Verdict)
    ensures
        v == verdict_of(score as int),
{
    if score >= 70 {
        Verdict::Confirmed
    } else if score >= 40 {
        Verdict::Likely
    } else if score >= 20 {
        Verdict::Possible
    } else {
        Verdict::Unlikely
    }
}

impl Verdict {
    /// The tier's name in capitals.
    pub fn label(&self) -> (r: String)
        ensures
            r@ == verdict_name(*self),
    {
        match self {
            Verdict::Unlikely => String::from_str("UNLIKELY"),
            Verdict::Possible => String::from_str("POSSIBLE"),
            Verdict::Likely => String::from_str("LIKELY"),
            Verdict::Confirmed => String::from_str("CONFIRMED"),
        }
    }
}

/// The tier's name in capitals.
pub open spec fn verdict_name(v: Verdict) -> Seq<char> {
    match v {
        Verdict::Unlikely => "UNLIKELY"@,
        Verdict::Possible => "POSSIBLE"@,
        Verdict::Likely => "LIKELY"@,
        Verdict::Confirmed => "CONFIRMED"@,
    }
}

/// The texts held by a sequence of strings.
pub open spec fn views(v: Seq<String>) -> Seq<Seq<char>> {
    v.map_values(|s: String| s@)
}

/// The texts held by a sequence of key/value pairs.
pub open spec fn pair_views(v: Seq<(String, String)>) -> Seq<(Seq<char>, Seq<char>)> {
    v.map_values(|p: (String, String)| (p.0@, p.1@))
}

/// The result of scoring one file.
pub struct TikTokEvidence {
    /// Whether the score reaches the Likely tier.
    pub is_tiktok: bool,
    pub confidence_score: u32,
    /// One entry per rule that fired, in the order the rules are evaluated.
    pub evidence_found: Vec<String>,
    /// Structured findings, keyed by indicator name, in the order they were found.
    pub indicators: Vec<(String, String)>,
    pub verdict: Verdict,
    /// Set only by the camera-metadata exclusion rule.
    pub excluded: bool,
}

impl TikTokEvidence {
    /// An excluded result is exactly the exclusion result.
    pub open spec fn wf(&self) -> bool {
        self.excluded ==> self@ == excluded_view()
    }
}

/// What a `TikTokEvidence` holds, as mathematical values.
pub struct EvidenceView {
    pub is_tiktok: bool,
    pub score: int,
    pub trail: Seq<Seq<char>>,
    pub indicators: Seq<(Seq<char>, Seq<char>)>,
    pub verdict: Verdict,
    pub excluded: bool,
}

impl View for TikTokEvidence {
    type V = EvidenceView;

    open spec fn view(&self) -> EvidenceView {
        EvidenceView {
            is_tiktok: self.is_tiktok,
            score: self.confidence_score as int,
            trail: views(self.evidence_found@),
            indicators: pair_views(self.indicators@),
            verdict: self.verdict,
            excluded: self.excluded,
        }
    }
}

/// A one-element sequence when `c` holds, else the empty one.
pub open spec fn opt<T>(c: bool, x: T) -> Seq<T> {
    if c {
        seq![x]
    } else {
        Seq::empty()
    }
}

/// `w` when `c` holds, else 0.
pub open spec fn pts(c: bool, w: int) -> int {
    if c {
        w
    } else {
        0
    }
}

/// Some string of `strs` contains `needle`, ignoring ASCII case.
pub open spec fn any_occurs(strs: Seq<Seq<char>>, needle: Seq<char>) -> bool {
    exists|i: int| 0 <= i < strs.len() && occurs_folded(#[trigger] strs[i], needle)
}

/// The found strings carry camera metadata.
pub open spec fn camera_marked(strs: Seq<Seq<char>>) -> bool {
    any_occurs(strs, "Focal Length"@) || any_occurs(strs, "ISO"@) || any_occurs(strs, "Aperture"@)
}

/// A string that names the app, an alias of it, or its corporate parent.
pub open spec fn is_brand_text(s: Seq<char>) -> bool {
    occurs_folded(s, "tiktok"@) || occurs_folded(s, "douyin"@) || occurs_folded(s, "bytedance"@)
        || occurs_folded(s, "musically"@)
}

/// The strings of `strs` that name the brand, in order.
pub open spec fn brand_hits(strs: Seq<Seq<char>>) -> Seq<Seq<char>>
    decreases strs.len(),
{
    if strs.len() == 0 {
        Seq::empty()
    } else if is_brand_text(strs.last()) {
        brand_hits(strs.drop_last()).push(strs.last())
    } else {
        brand_hits(strs.drop_last())
    }
}

/// The parts joined with ", " between them.
pub open spec fn join_comma(parts: Seq<Seq<char>>) -> Seq<char>
    decreases parts.len(),
{
    if parts.len() == 0 {
        Seq::empty()
    } else if parts.len() == 1 {
        parts[0]
    } else {
        join_comma(parts.drop_last()) + ", "@ + parts.last()
    }
}

/// An ASCII decimal digit.
pub open spec fn is_digit(c: char) -> bool {
    48 <= c as u32 <= 57
}

/// A lowercase hexadecimal digit.
pub open spec fn is_lower_hex(c: char) -> bool {
    is_digit(c) || 97 <= c as u32 <= 102
}

/// A video identifier starts at `i` in `s`: "vid:v", the digits up to `j`, one
/// of 'f' or 'l' at `j`, "0000", and a lowercase hexadecimal digit.
pub open spec fn video_id_at(s: Seq<char>, i: int, j: int) -> bool {
    &&& 0 <= i
    &&& i + 5 < j
    &&& j + 5 < s.len()
    &&& s.subrange(i, i + 5) == "vid:v"@
    &&& forall|k: int| i + 5 <= k < j ==> is_digit(#[trigger] s[k])
    &&& (s[j] == 'f' || s[j] == 'l')
    &&& s.subrange(j + 1, j + 5) == "0000"@
    &&& is_lower_hex(s[j + 5])
}

/// `s` holds a video identifier somewhere.
pub open spec fn has_video_id(s: Seq<char>) -> bool {
    exists|i: int, j: int| video_id_at(s, i, j)
}

/// The regular expression for a video identifier.
pub open spec fn video_id_pattern() -> Seq<char> {
    "vid:v[0-9]+[fl]0000[a-f0-9]+"@
}

/// The first string of `strs` that holds a video identifier.
pub open spec fn first_video_id(strs: Seq<Seq<char>>) -> Option<Seq<char>>
    decreases strs.len(),
{
    if strs.len() == 0 {
        None
    } else if has_video_id(strs[0]) {
        Some(strs[0])
    } else {
        first_video_id(strs.drop_first())
    }
}

/// The resolutions the app is known to write.
pub open spec fn app_dimensions() -> Seq<(u32, u32)> {
    seq![
        (576u32, 1024u32), (576, 1246), (576, 1280),
        (1080, 1920), (1080, 1800), (1080, 2340), (1080, 2400),
        (828, 1792), (750, 1334), (1125, 2436), (1242, 2688),
        (1284, 2778), (1170, 2532),
    ]
}

/// The words of which a printable run must contain one to be kept by the string scan.
pub open spec fn indicator_words() -> Seq<Seq<char>> {
    seq![
        "tiktok"@, "douyin"@, "bytedance"@, "musically"@, "musical.ly"@, "aigc_label_type"@,
        "vid_md5"@,
    ]
}

/// width / height lies in [lo / den, hi / den].
pub open spec fn ratio_within(w: u32, h: u32, lo: int, hi: int, den: int) -> bool {
    h > 0 && lo * h <= den * w && den * w <= hi * h
}

/// width / height lies in [0.55, 0.58], about 9:16.
pub open spec fn near_nine_sixteen(d: (u32, u32)) -> bool {
    ratio_within(d.0, d.1, 55, 58, 100)
}

/// "W" + "x" + "H" in decimal.
pub open spec fn dims_text(d: (u32, u32)) -> Seq<char> {
    decimal(d.0 as nat) + "x"@ + decimal(d.1 as nat)
}

/// "W" + ":" + "H" in decimal.
pub open spec fn ratio_text(d: (u32, u32)) -> Seq<char> {
    decimal(d.0 as nat) + ":"@ + decimal(d.1 as nat)
}

/// A filename of 36 characters, one '.', and 32 hexadecimal digits before it.
pub open spec fn is_hash_name(name: Seq<char>) -> bool {
    &&& name.len() == 36
    &&& count_char(name, '.') == 1
    &&& name[32] == '.'
    &&& forall|k: int| 0 <= k < 32 ==> is_hex_char(#[trigger] name[k])
}

/// A ".png" name whose content was found to be WebP.
pub open spec fn webp_as_png(name: Seq<char>, format: Option<Seq<char>>) -> bool {
    ends_folded(name, ".png"@) && format is Some && occurs_folded(format.unwrap(), "webp"@)
}

/// The evidence of one file that the rules read.
pub struct Facts {
    pub name: Seq<char>,
    pub dims: Option<(u32, u32)>,
    pub strs: Seq<Seq<char>>,
    pub format: Option<Seq<char>>,
}

impl Facts {
    pub open spec fn aigc(self) -> bool {
        any_occurs(self.strs, "aigc_label_type"@)
    }

    pub open spec fn video_id(self) -> bool {
        first_video_id(self.strs) is Some
    }

    pub open spec fn content_hash(self) -> bool {
        any_occurs(self.strs, "vid_md5"@)
    }

    pub open spec fn app_dims(self) -> bool {
        self.dims is Some && app_dimensions().contains(self.dims.unwrap())
    }

    pub open spec fn band(self) -> bool {
        self.dims is Some && near_nine_sixteen(self.dims.unwrap())
    }

    pub open spec fn portrait(self) -> bool {
        self.dims is Some && self.dims.unwrap().1 > self.dims.unwrap().0
    }

    pub open spec fn mismatch(self) -> bool {
        webp_as_png(self.name, self.format)
    }

    pub open spec fn hash_name(self) -> bool {
        is_hash_name(self.name)
    }

    pub open spec fn brand(self) -> bool {
        brand_hits(self.strs).len() > 0
    }

    /// The sum of the weights of the base rules that fire.
    pub open spec fn rule_points(self) -> int {
        pts(self.aigc(), 40) + pts(self.video_id(), 35) + pts(self.content_hash(), 30) + pts(
            self.app_dims(),
            25,
        ) + pts(self.band(), 15) + pts(self.portrait(), 5) + pts(self.mismatch(), 15) + pts(
            self.hash_name(),
            10,
        ) + pts(self.brand(), 20)
    }

    /// One entry per base rule that fires, in rule order.
    pub open spec fn rule_trail(self) -> Seq<Seq<char>> {
        opt(self.aigc(), "AIGC metadata found"@) + opt(self.video_id(), "TikTok video ID found"@)
            + opt(self.content_hash(), "ByteDance content hash found"@) + opt(
            self.app_dims(),
            "TikTok-typical dimensions: "@ + dims_text(self.dims.unwrap()),
        ) + opt(self.band(), "9:16 aspect ratio (TikTok standard)"@) + opt(
            self.portrait(),
            "Portrait orientation"@,
        ) + opt(self.mismatch(), "WebP format with PNG extension (TikTok app behavior)"@)
            + opt(self.hash_name(), "MD5-like hash filename (app-generated)"@) + opt(
            self.brand(),
            "TikTok strings found in file"@,
        )
    }

    /// The structured findings of the base rules that fire, in rule order.
    pub open spec fn rule_indicators(self) -> Seq<(Seq<char>, Seq<char>)> {
        opt(self.aigc(), ("aigc_metadata"@, "detected"@)) + opt(
            self.video_id(),
            ("tiktok_video_id"@, first_video_id(self.strs).unwrap()),
        ) + opt(self.content_hash(), ("vid_md5"@, "detected"@)) + opt(
            self.app_dims(),
            ("video_dimensions"@, dims_text(self.dims.unwrap())),
        ) + opt(self.band(), ("aspect_ratio"@, ratio_text(self.dims.unwrap()))) + opt(
            self.mismatch(),
            ("format_mismatch"@, "webp_as_png"@),
        ) + opt(self.hash_name(), ("filename_pattern"@, "md5_hash"@)) + opt(
            self.brand(),
            ("string_indicators"@, join_comma(brand_hits(self.strs))),
        )
    }

    /// The outcome of the base rule table.
    pub open spec fn base(self) -> EvidenceView {
        if camera_marked(self.strs) {
            excluded_view()
        } else {
            EvidenceView {
                is_tiktok: is_match_score(self.rule_points()),
                score: self.rule_points(),
                trail: self.rule_trail(),
                indicators: self.rule_indicators(),
                verdict: verdict_of(self.rule_points()),
                excluded: false,
            }
        }
    }
}

/// The result of a file excluded as a camera photo: score 0, verdict Unlikely,
/// one trail entry and one finding.
pub open spec fn excluded_view() -> EvidenceView {
    EvidenceView {
        is_tiktok: false,
        score: 0,
        trail: seq![excluded_label()],
        indicators: seq![("camera_photo"@, "excluded"@)],
        verdict: Verdict::Unlikely,
        excluded: true,
    }
}

/// The single trail entry of an excluded file.
pub open spec fn excluded_label() -> Seq<char> {
    "Camera photo metadata detected (focal length, ISO, or aperture)"@
}

/// The text of an optional string.
pub open spec fn opt_text(o: Option<String>) -> Option<Seq<char>> {
    match o {
        Some(s) => Some(s@),
        None => None,
    }
}

/// Appends a string, as seen through its text.
pub fn push_text(v: &mut Vec<String>, s: String)
    ensures
        views(final(v)@) == views(old(v)@).push(s@),
{
    let ghost before = v@;
    v.push(s);
    assert(views(v@) =~= views(before).push(s@));
}

/// Appends a key/value pair, as seen through its texts.
pub fn push_pair(v: &mut Vec<(String, String)>, k: &str, val: String)
    ensures
        pair_views(final(v)@) == pair_views(old(v)@).push((k@, val@)),
{
    let ghost before = v@;
    let key = String::from_str(k);
    v.push((key, val));
    assert(pair_views(v@) =~= pair_views(before).push((k@, val@)));
}

/// Whether some string of `strs` contains `needle`, ignoring ASCII case.
pub fn any_contains(strs: &Vec<String>, needle: &str) -> (r: bool)
    ensures
        r == any_occurs(views(strs@), needle@),
{
    let n = chars_of(needle);
    let mut i: usize = 0;
    while i < strs.len()
        invariant
            i <= strs.len(),
            n@ == needle@,
            forall|j: int| 0 <= j < i ==> !occurs_folded(#[trigger] views(strs@)[j], needle@),
        decreases strs.len() - i,
    {
        let h = chars_of(strs[i].as_str());
        assert(views(strs@)[i as int] == strs@[i as int]@);
        if contains_folded(&h, &n) {
            return true;
        }
        i = i + 1;
    }
    false
}

/// Relies on regex::Regex::new, which compiles this pattern, and on
/// Regex::is_match, which tells whether the pattern matches anywhere in `s`.
#[verifier::external_body]
fn pattern_matches(pattern: &str, s: &str) -> (r: bool)
    requires
        pattern@ == video_id_pattern(),
    ensures
        r == has_video_id(s@),
{
    match regex::Regex::new(pattern) {
        Ok(re) => re.is_match(s),
        Err(_) => false,
    }
}

/// The position of the first string of `strs` that holds a video identifier.
pub fn find_video_id(strs: &Vec<String>) -> (r: Option<usize>)
    ensures
        match r {
            Some(i) => i < strs.len() && first_video_id(views(strs@)) == Some(strs@[i as int]@),
            None => first_video_id(views(strs@)) is None,
        },
{
    let mut i: usize = 0;
    assert(views(strs@).skip(0) =~= views(strs@));
    while i < strs.len()
        invariant
            i <= strs.len(),
            first_video_id(views(strs@)) == first_video_id(views(strs@).skip(i as int)),
        decreases strs.len() - i,
    {
        let ghost rest = views(strs@).skip(i as int);
        assert(rest[0] == strs@[i as int]@);
        assert(rest.drop_first() =~= views(strs@).skip(i + 1));
        if pattern_matches("vid:v[0-9]+[fl]0000[a-f0-9]+", strs[i].as_str()) {
            return Some(i);
        }
        i = i + 1;
    }
    assert(views(strs@).skip(i as int).len() == 0);
    None
}

/// Whether `s` names the brand.
pub fn is_brand(s: &String) -> (r: bool)
    ensures
        r == is_brand_text(s@),
{
    let h = chars_of(s.as_str());
    contains_folded(&h, &chars_of("tiktok")) || contains_folded(&h, &chars_of("douyin"))
        || contains_folded(&h, &chars_of("bytedance")) || contains_folded(
        &h,
        &chars_of("musically"),
    )
}

/// The strings of `strs` that name the brand, joined with ", ", and how many there are.
pub fn join_brand_hits(strs: &Vec<String>) -> (r: (String, usize))
    ensures
        r.0@ == join_comma(brand_hits(views(strs@))),
        r.1 == brand_hits(views(strs@)).len(),
{
    let mut joined = String::new();
    let mut n: usize = 0;
    let mut i: usize = 0;
    while i < strs.len()
        invariant
            i <= strs.len(),
            n <= i,
            joined@ == join_comma(brand_hits(views(strs@).take(i as int))),
            n == brand_hits(views(strs@).take(i as int)).len(),
        decreases strs.len() - i,
    {
        let ghost pre = views(strs@).take(i as int);
        let ghost next = views(strs@).take(i + 1);
        assert(next.drop_last() =~= pre);
        assert(next.last() == strs@[i as int]@);
        if is_brand(&strs[i]) {
            if n > 0 {
                joined.append(", ");
            }
            joined.append(strs[i].as_str());
            n = n + 1;
            assert(brand_hits(next) == brand_hits(pre).push(strs@[i as int]@));
            assert(brand_hits(next).drop_last() =~= brand_hits(pre));
        }
        i = i + 1;
    }
    assert(views(strs@).take(strs.len() as int) =~= views(strs@));
    (joined, n)
}

/// Whether `d` is one of `list`.
pub fn pair_listed(list: &Vec<(u32, u32)>, d: (u32, u32)) -> (r: bool)
    ensures
        r == list@.contains(d),
{
    let mut i: usize = 0;
    while i < list.len()
        invariant
            i <= list.len(),
            forall|j: int| 0 <= j < i ==> list@[j] != d,
        decreases list.len() - i,
    {
        if list[i].0 == d.0 && list[i].1 == d.1 {
            assert(list@[i as int] == d);
            return true;
        }
        i = i + 1;
    }
    false
}

/// "W" + "x" + "H" in decimal.
pub fn dims_string(d: (u32, u32)) -> (r: String)
    ensures
        r@ == dims_text(d),
{
    let mut s = String::new();
    push_decimal(&mut s, d.0 as u64);
    s.append("x");
    push_decimal(&mut s, d.1 as u64);
    assert(s@ =~= dims_text(d));
    s
}

/// "W" + ":" + "H" in decimal.
pub fn ratio_string(d: (u32, u32)) -> (r: String)
    ensures
        r@ == ratio_text(d),
{
    let mut s = String::new();
    push_decimal(&mut s, d.0 as u64);
    s.append(":");
    push_decimal(&mut s, d.1 as u64);
    assert(s@ =~= ratio_text(d));
    s
}

/// Whether width / height lies in [lo / den, hi / den].
pub fn ratio_in(d: (u32, u32), lo: u64, hi: u64, den: u64) -> (r: bool)
    requires
        lo <= 1000,
        hi <= 1000,
        den <= 1000,
    ensures
        r == ratio_within(d.0, d.1, lo as int, hi as int, den as int),
{
    let w = d.0 as u64;
    let h = d.1 as u64;
    assert(lo * h <= 1000 * 0xffff_ffff) by (nonlinear_arith)
        requires
            lo <= 1000,
            h <= 0xffff_ffff,
    ;
    assert(hi * h <= 1000 * 0xffff_ffff) by (nonlinear_arith)
        requires
            hi <= 1000,
            h <= 0xffff_ffff,
    ;
    assert(den * w <= 1000 * 0xffff_ffff) by (nonlinear_arith)
        requires
            den <= 1000,
            w <= 0xffff_ffff,
    ;
    h > 0 && lo * h <= den * w && den * w <= hi * h
}

/// Whether `name` is a 32-hexadecimal-digit stem, one '.', and 36 characters in all.
pub fn hash_named(name: &Vec<char>) -> (r: bool)
    ensures
        r == is_hash_name(name@),
{
    if name.len() != 36 || count_of(name, '.') != 1 || name[32] != '.' {
        return false;
    }
    let mut k: usize = 0;
    while k < 32
        invariant
            k <= 32,
            name.len() == 36,
            forall|j: int| 0 <= j < k ==> is_hex_char(#[trigger] name@[j]),
        decreases 32 - k,
    {
        if !is_hex(name[k]) {
            return false;
        }
        k = k + 1;
    }
    true
}

/// The running score, trail and findings while the rules are applied.
pub struct Tally {
    pub score: u32,
    pub trail: Vec<String>,
    pub inds: Vec<(String, String)>,
}

impl Tally {
    /// An empty tally.
    pub fn new() -> (r: Tally)
        ensures
            r.score == 0,
            views(r.trail@) == Seq::<Seq<char>>::empty(),
            pair_views(r.inds@) == Seq::<(Seq<char>, Seq<char>)>::empty(),
    {
        let r = Tally { score: 0, trail: Vec::new(), inds: Vec::new() };
        assert(views(r.trail@) =~= Seq::<Seq<char>>::empty());
        assert(pair_views(r.inds@) =~= Seq::<(Seq<char>, Seq<char>)>::empty());
        r
    }

    /// Records a rule that fired: its weight and its trail entry.
    pub fn note(&mut self, weight: u32, label: String)
        requires
            old(self).score + weight <= u32::MAX,
        ensures
            final(self).score == old(self).score + weight,
            views(final(self).trail@) == views(old(self).trail@).push(label@),
            final(self).inds@ == old(self).inds@,
    {
        self.score = self.score + weight;
        push_text(&mut self.trail, label);
    }

    /// Records a structured finding.
    pub fn find(&mut self, key: &str, value: String)
        ensures
            final(self).score == old(self).score,
            final(self).trail@ == old(self).trail@,
            pair_views(final(self).inds@) == pair_views(old(self).inds@).push((key@, value@)),
    {
        push_pair(&mut self.inds, key, value);
    }
}

/// The effect of a rule on a tally: its weight and entries when it fires, nothing else.
pub open spec fn stepped(
    before: Tally,
    after: Tally,
    c: bool,
    w: int,
    label: Seq<char>,
    ind: Option<(Seq<char>, Seq<char>)>,
) -> bool {
    &&& after.score == before.score + pts(c, w)
    &&& views(after.trail@) == views(before.trail@) + opt(c, label)
    &&& pair_views(after.inds@) == pair_views(before.inds@) + match ind {
        Some(p) => opt(c, p),
        None => Seq::empty(),
    }
}

/// Applies a rule whose condition was already evaluated.
fn apply(t: &mut Tally, c: bool, w: u32, label: &str, key: &str, value: Option<String>)
    requires
        old(t).score + w <= u32::MAX,
    ensures
        stepped(
            *old(t),
            *final(t),
            c,
            w as int,
            label@,
            match value {
                Some(v) => Some((key@, v@)),
                None => None,
            },
        ),
{
    let ghost t0 = views(t.trail@);
    let ghost i0 = pair_views(t.inds@);
    if c {
        t.note(w, String::from_str(label));
        match value {
            Some(v) => t.find(key, v),
            None => {},
        }
    }
    assert(views(t.trail@) =~= t0 + opt(c, label@));
    assert(pair_views(t.inds@) =~= i0 + match value {
        Some(v) => opt(c, (key@, v@)),
        None => Seq::empty(),
    });
}

/// Whether some found string carries camera metadata.
pub fn camera_found(strs: &Vec<String>) -> (r: bool)
    ensures
        r == camera_marked(views(strs@)),
{
    any_contains(strs, "Focal Length") || any_contains(strs, "ISO") || any_contains(strs, "Aperture")
}

/// The result of a file excluded as a camera photo.
pub fn excluded_result() -> (r: TikTokEvidence)
    ensures
        r@ == excluded_view(),
{
    let mut trail: Vec<String> = Vec::new();
    let mut inds: Vec<(String, String)> = Vec::new();
    push_text(
        &mut trail,
        String::from_str("Camera photo metadata detected (focal length, ISO, or aperture)"),
    );
    push_pair(&mut inds, "camera_photo", String::from_str("excluded"));
    assert(views(trail@) =~= seq![excluded_label()]);
    assert(pair_views(inds@) =~= seq![("camera_photo"@, "excluded"@)]);
    TikTokEvidence {
        is_tiktok: false,
        confidence_score: 0,
        evidence_found: trail,
        indicators: inds,
        verdict: Verdict::Unlikely,
        excluded: true,
    }
}

impl MetadataManager {
    /// Applies the base rule table to the evidence of one file.
    #[verifier::rlimit(100)]
    pub fn analyze_tiktok_evidence(
        &self,
        filename: &str,
        dimensions: Option<(u32, u32)>,
        strings_found: &Vec<String>,
        file_format: &Option<String>,
    ) -> (r: TikTokEvidence)
        requires
            self.wf(),
        ensures
            r@ == (Facts {
                name: filename@,
                dims: dimensions,
                strs: views(strings_found@),
                format: opt_text(*file_format),
            }).base(),
    {
        let ghost f = Facts {
            name: filename@,
            dims: dimensions,
            strs: views(strings_found@),
            format: opt_text(*file_format),
        };
        if camera_found(strings_found) {
            return excluded_result();
        }
        let mut t = Tally::new();
        let ghost s0 = t;
        let c1 = any_contains(strings_found, "aigc_label_type");
        apply(&mut t, c1, 40, "AIGC metadata found", "aigc_metadata", Some(String::from_str("detected")));
        let ghost s1 = t;
        let vid = find_video_id(strings_found);
        let vid_text = match vid {
            Some(i) => Some(strings_found[i].clone()),
            None => None,
        };
        apply(&mut t, vid.is_some(), 35, "TikTok video ID found", "tiktok_video_id", vid_text);
        let ghost s2 = t;
        let c3 = any_contains(strings_found, "vid_md5");
        apply(&mut t, c3, 30, "ByteDance content hash found", "vid_md5", Some(String::from_str("detected")));
        let ghost s3 = t;
        let (w, h) = match dimensions {
            Some(d) => d,
            None => (0, 0),
        };
        let c4 = dimensions.is_some() && pair_listed(&self.tiktok_dimensions, (w, h));
        let mut label4 = String::from_str("TikTok-typical dimensions: ");
        label4.append(dims_string((w, h)).as_str());
        apply(&mut t, c4, 25, label4.as_str(), "video_dimensions", Some(dims_string((w, h))));
        let ghost s4 = t;
        let c5 = dimensions.is_some() && ratio_in((w, h), 55, 58, 100);
        apply(&mut t, c5, 15, "9:16 aspect ratio (TikTok standard)", "aspect_ratio", Some(ratio_string((w, h))));
        let ghost s5 = t;
        let c6 = dimensions.is_some() && h > w;
        apply(&mut t, c6, 5, "Portrait orientation", "", None);
        let ghost s6 = t;
        let name = chars_of(filename);
        let c7 = match file_format {
            Some(fmt) => ends_with_folded(&name, &chars_of(".png")) && contains_folded(
                &chars_of(fmt.as_str()),
                &chars_of("webp"),
            ),
            None => false,
        };
        apply(
            &mut t,
            c7,
            15,
            "WebP format with PNG extension (TikTok app behavior)",
            "format_mismatch",
            Some(String::from_str("webp_as_png")),
        );
        let ghost s7 = t;
        let c8 = hash_named(&name);
        apply(&mut t, c8, 10, "MD5-like hash filename (app-generated)", "filename_pattern", Some(String::from_str("md5_hash")));
        let ghost s8 = t;
        let (joined, hits) = join_brand_hits(strings_found);
        apply(&mut t, hits > 0, 20, "TikTok strings found in file", "string_indicators", Some(joined));
        assert(c4 == f.app_dims());
        assert(c7 == f.mismatch());
        assert(t.score == f.rule_points());
        assert(views(t.trail@) =~= f.rule_trail());
        assert(pair_views(t.inds@) =~= f.rule_indicators());
        let score = t.score;
        TikTokEvidence {
            is_tiktok: score >= 40,
            confidence_score: score,
            evidence_found: t.trail,
            indicators: t.inds,
            verdict: verdict_for(score),
            excluded: false,
        }
    }
}

/// The kind of media a file holds, which selects the rules layered on the base table.
#[derive(Clone, Copy, Debug, PartialEq, Eq, Structural)]
pub enum MediaKind {
    Photo,
    Video,
}

/// Common phone-screenshot resolutions.
pub open spec fn screenshot_dimensions() -> Seq<(u32, u32)> {
    seq![
        (1080u32, 1920u32), (1080, 1800), (1080, 2340), (1080, 2400),
        (828, 1792), (750, 1334), (1125, 2436), (1242, 2688),
        (1284, 2778), (1170, 2532),
    ]
}

/// The app's video resolutions.
pub open spec fn video_dimensions() -> Seq<(u32, u32)> {
    seq![(576u32, 1024u32), (576, 1246), (576, 1280), (720, 1280), (1080, 1920)]
}

/// The first encoder or container token that `s` contains, ignoring ASCII case,
/// with its weight.
pub open spec fn encoder_hit(s: Seq<char>) -> Option<(Seq<char>, int)> {
    if occurs_folded(s, "ByteDance"@) {
        Some(("ByteDance"@, 25))
    } else if occurs_folded(s, "Lavf58.76.100"@) {
        Some(("Lavf58.76.100"@, 20))
    } else if occurs_folded(s, "Lavf"@) {
        Some(("Lavf"@, 10))
    } else if occurs_folded(s, "mp4v"@) {
        Some(("mp4v"@, 8))
    } else if occurs_folded(s, "isom"@) {
        Some(("isom"@, 8))
    } else if occurs_folded(s, "Douyin"@) {
        Some(("Douyin"@, 25))
    } else if occurs_folded(s, "Musical.ly"@) {
        Some(("Musical.ly"@, 8))
    } else if occurs_folded(s, "aigc_info"@) {
        Some(("aigc_info"@, 40))
    } else if occurs_folded(s, "vid_md5"@) {
        Some(("vid_md5"@, 35))
    } else {
        None
    }
}

/// The weights of the encoder tokens of all strings, one token per string at most.
pub open spec fn encoder_points(strs: Seq<Seq<char>>) -> int
    decreases strs.len(),
{
    if strs.len() == 0 {
        0
    } else {
        encoder_points(strs.drop_last()) + match encoder_hit(strs.last()) {
            Some(t) => t.1,
            None => 0,
        }
    }
}

/// One trail entry per string that holds an encoder token.
pub open spec fn encoder_trail(strs: Seq<Seq<char>>) -> Seq<Seq<char>>
    decreases strs.len(),
{
    if strs.len() == 0 {
        Seq::empty()
    } else {
        encoder_trail(strs.drop_last()) + match encoder_hit(strs.last()) {
            Some(t) => seq!["TikTok-specific metadata: "@ + t.0],
            None => Seq::empty(),
        }
    }
}

/// width / height in thousandths, rounded half up.
pub open spec fn thousandths(d: (u32, u32)) -> int {
    (2000 * d.0 + d.1) / (2 * d.1 as int)
}

/// Three decimal digits of `n < 1000`, with leading zeros.
pub open spec fn three_digits(n: int) -> Seq<char> {
    seq![digit_char((n / 100) as nat), digit_char(((n / 10) % 10) as nat), digit_char((n % 10) as nat)]
}

/// The aspect ratio of a portrait frame as "0.ddd".
pub open spec fn portrait_ratio_text(d: (u32, u32)) -> Seq<char> {
    "0."@ + three_digits(thousandths(d))
}

/// A result after the layer of `kind`: an excluded result as it was (the layer
/// does not re-run the exclusion check), else the layer's points and entries
/// added with the verdict recomputed from the final score.
pub open spec fn with_layer(ev: EvidenceView, f: Facts, size: u64, kind: MediaKind) -> EvidenceView {
    if ev.excluded {
        ev
    } else {
        match kind {
            MediaKind::Photo => layered(ev, f.photo_points(size), f.photo_trail(size)),
            MediaKind::Video => layered(ev, f.video_points(size), f.video_trail(size)),
        }
    }
}

/// An evidence view after a layer of `points` and `trail`, with its verdict recomputed.
pub open spec fn layered(ev: EvidenceView, points: int, trail: Seq<Seq<char>>) -> EvidenceView {
    EvidenceView {
        is_tiktok: is_match_score(ev.score + points),
        score: ev.score + points,
        trail: ev.trail + trail,
        indicators: ev.indicators,
        verdict: verdict_of(ev.score + points),
        excluded: ev.excluded,
    }
}

impl Facts {
    pub open spec fn shot_dims(self) -> bool {
        self.dims is Some && screenshot_dimensions().contains(self.dims.unwrap())
    }

    pub open spec fn tight_band(self) -> bool {
        self.dims is Some && ratio_within(self.dims.unwrap().0, self.dims.unwrap().1, 221, 229, 400)
    }

    pub open spec fn png_hash_name(self) -> bool {
        self.name.len() == 36 && count_char(self.name, '.') == 1 && ends_exactly(self.name, ".png"@)
    }

    /// Points of the photo layer.
    pub open spec fn photo_points(self, size: u64) -> int {
        pts(self.shot_dims(), 15) + pts(self.tight_band(), 10) + pts(self.png_hash_name(), 8) + pts(
            500_000 < size < 5_000_000,
            5,
        )
    }

    /// Trail entries of the photo layer.
    pub open spec fn photo_trail(self, size: u64) -> Seq<Seq<char>> {
        opt(self.shot_dims(), "Mobile screenshot dimensions: "@ + dims_text(self.dims.unwrap()))
            + opt(self.tight_band(), "Perfect 9:16 aspect ratio (TikTok standard)"@) + opt(
            self.png_hash_name(),
            "32-character hash filename with PNG extension"@,
        ) + opt(500_000 < size < 5_000_000, "File size typical of mobile screenshot"@)
    }

    pub open spec fn video_dims(self) -> bool {
        self.dims is Some && video_dimensions().contains(self.dims.unwrap())
    }

    pub open spec fn preferred_dims(self) -> bool {
        self.dims == Some((576u32, 1024u32)) || self.dims == Some((1080u32, 1920u32))
    }

    pub open spec fn narrow(self) -> bool {
        self.dims is Some && self.dims.unwrap().0 < self.dims.unwrap().1
    }

    pub open spec fn tall(self) -> bool {
        self.dims is Some && !self.band() && self.dims.unwrap().1 > 0 && 5 * self.dims.unwrap().0
            < 4 * self.dims.unwrap().1
    }

    pub open spec fn download_name(self) -> bool {
        begins_folded(self.name, "download"@) && ends_folded(self.name, ".mp4"@)
    }

    /// Points of the video layer.
    pub open spec fn video_points(self, size: u64) -> int {
        pts(self.video_dims(), 30) + pts(self.preferred_dims(), 15) + pts(self.narrow(), 10) + pts(
            self.band(),
            20,
        ) + pts(self.tall(), 8) + encoder_points(self.strs) + pts(self.download_name(), 25) + pts(
            100_000 < size < 50_000_000,
            5,
        )
    }

    /// Trail entries of the video layer.
    pub open spec fn video_trail(self, size: u64) -> Seq<Seq<char>> {
        opt(self.video_dims(), "TikTok standard video dimensions: "@ + dims_text(self.dims.unwrap()))
            + opt(self.preferred_dims(), "Exact TikTok preferred video dimensions"@) + opt(
            self.narrow(),
            "Portrait orientation (width < height)"@,
        ) + opt(self.band(), "Vertical mobile video format (9:16)"@) + opt(
            self.tall(),
            "Portrait aspect ratio: "@ + portrait_ratio_text(self.dims.unwrap()),
        ) + encoder_trail(self.strs) + opt(
            self.download_name(),
            "TikTok download naming pattern (Download*.mp4)"@,
        ) + opt(100_000 < size < 50_000_000, "File size typical of TikTok video"@)
    }

    /// The outcome of scoring a file of the given kind and size: the base table,
    /// then the kind's layer, unless the camera exclusion fired.
    pub open spec fn scored(self, size: u64, kind: MediaKind) -> EvidenceView {
        with_layer(self.base(), self, size, kind)
    }
}

/// The encoder token that `s` contains first in table order, with its weight.
pub fn encoder_token(s: &String) -> (r: Option<(&'static str, u32)>)
    ensures
        match r {
            Some(t) => encoder_hit(s@) == Some((t.0@, t.1 as int)),
            None => encoder_hit(s@) is None,
        },
{
    let h = chars_of(s.as_str());
    if contains_folded(&h, &chars_of("ByteDance")) {
        Some(("ByteDance", 25))
    } else if contains_folded(&h, &chars_of("Lavf58.76.100")) {
        Some(("Lavf58.76.100", 20))
    } else if contains_folded(&h, &chars_of("Lavf")) {
        Some(("Lavf", 10))
    } else if contains_folded(&h, &chars_of("mp4v")) {
        Some(("mp4v", 8))
    } else if contains_folded(&h, &chars_of("isom")) {
        Some(("isom", 8))
    } else if contains_folded(&h, &chars_of("Douyin")) {
        Some(("Douyin", 25))
    } else if contains_folded(&h, &chars_of("Musical.ly")) {
        Some(("Musical.ly", 8))
    } else if contains_folded(&h, &chars_of("aigc_info")) {
        Some(("aigc_info", 40))
    } else if contains_folded(&h, &chars_of("vid_md5")) {
        Some(("vid_md5", 35))
    } else {
        None
    }
}

/// The encoder layer's points are at most 40 per string.
pub proof fn encoder_points_bound(strs: Seq<Seq<char>>)
    ensures
        0 <= encoder_points(strs) <= 40 * strs.len(),
    decreases strs.len(),
{
    if strs.len() > 0 {
        encoder_points_bound(strs.drop_last());
    }
}

/// Adds the encoder tokens of the found strings to a tally.
fn apply_encoder_tokens(t: &mut Tally, strs: &Vec<String>)
    requires
        old(t).score + 40 * strs.len() <= u32::MAX,
    ensures
        final(t).score == old(t).score + encoder_points(views(strs@)),
        views(final(t).trail@) == views(old(t).trail@) + encoder_trail(views(strs@)),
        final(t).inds@ == old(t).inds@,
{
    let ghost t0 = views(t.trail@);
    let ghost sc0 = t.score;
    let mut i: usize = 0;
    while i < strs.len()
        invariant
            i <= strs.len(),
            sc0 + 40 * strs.len() <= u32::MAX,
            t.score == sc0 + encoder_points(views(strs@).take(i as int)),
            views(t.trail@) == t0 + encoder_trail(views(strs@).take(i as int)),
            t.inds@ == old(t).inds@,
        decreases strs.len() - i,
    {
        let ghost pre = views(strs@).take(i as int);
        let ghost next = views(strs@).take(i + 1);
        assert(next.drop_last() =~= pre);
        assert(next.last() == strs@[i as int]@);
        proof {
            encoder_points_bound(pre);
        }
        match encoder_token(&strs[i]) {
            Some(tok) => {
                let mut label = String::from_str("TikTok-specific metadata: ");
                label.append(tok.0);
                t.note(tok.1, label);
                assert(views(t.trail@) =~= t0 + encoder_trail(next));
            },
            None => {
                assert(encoder_trail(next) =~= encoder_trail(pre));
            },
        }
        i = i + 1;
    }
    assert(views(strs@).take(strs.len() as int) =~= views(strs@));
}

/// width / height as "0.ddd", for a frame narrower than it is tall.
pub fn portrait_ratio_string(d: (u32, u32)) -> (r: String)
    requires
        d.1 > 0,
        5 * d.0 < 4 * d.1,
    ensures
        r@ == portrait_ratio_text(d),
{
    let w = d.0 as u64;
    let h = d.1 as u64;
    let n = (2000 * w + h) / (2 * h);
    assert(n < 1000) by (nonlinear_arith)
        requires
            n == (2000 * w + h) / (2 * h),
            h > 0,
            5 * w < 4 * h,
    ;
    let mut s = String::from_str("0.");
    push_char(&mut s, digit(n / 100));
    push_char(&mut s, digit((n / 10) % 10));
    push_char(&mut s, digit(n % 10));
    assert(s@ =~= portrait_ratio_text(d));
    s
}

/// The resolution list of the photo layer.
fn screenshot_list() -> (r: Vec<(u32, u32)>)
    ensures
        r@ == screenshot_dimensions(),
{
    let r: Vec<(u32, u32)> = vec![
        (1080, 1920), (1080, 1800), (1080, 2340), (1080, 2400),
        (828, 1792), (750, 1334), (1125, 2436), (1242, 2688),
        (1284, 2778), (1170, 2532),
    ];
    assert(r@ =~= screenshot_dimensions());
    r
}

/// The resolution list of the video layer.
fn video_list() -> (r: Vec<(u32, u32)>)
    ensures
        r@ == video_dimensions(),
{
    let r: Vec<(u32, u32)> = vec![(576, 1024), (576, 1246), (576, 1280), (720, 1280), (1080, 1920)];
    assert(r@ =~= video_dimensions());
    r
}

/// Adds the photo layer to a tally.
pub fn apply_photo_layer(
    t: &mut Tally,
    filename: &str,
    dimensions: Option<(u32, u32)>,
    size: u64,
)
    requires
        old(t).score + 40 <= u32::MAX,
    ensures
        ({
            let f = Facts { name: filename@, dims: dimensions, strs: Seq::empty(), format: None };
            &&& final(t).score == old(t).score + f.photo_points(size)
            &&& views(final(t).trail@) == views(old(t).trail@) + f.photo_trail(size)
            &&& pair_views(final(t).inds@) == pair_views(old(t).inds@)
        }),
{
    let ghost f = Facts { name: filename@, dims: dimensions, strs: Seq::empty(), format: None };
    let ghost t0 = *t;
    let (w, h) = match dimensions {
        Some(d) => d,
        None => (0, 0),
    };
    let c1 = dimensions.is_some() && pair_listed(&screenshot_list(), (w, h));
    let mut label1 = String::from_str("Mobile screenshot dimensions: ");
    label1.append(dims_string((w, h)).as_str());
    apply(t, c1, 15, label1.as_str(), "", None);
    let ghost t1 = *t;
    let c2 = dimensions.is_some() && ratio_in((w, h), 221, 229, 400);
    apply(t, c2, 10, "Perfect 9:16 aspect ratio (TikTok standard)", "", None);
    let ghost t2 = *t;
    let name = chars_of(filename);
    let c3 = name.len() == 36 && count_of(&name, '.') == 1 && ends_with(&name, &chars_of(".png"));
    apply(t, c3, 8, "32-character hash filename with PNG extension", "", None);
    let ghost t3 = *t;
    let c4 = size > 500_000 && size < 5_000_000;
    apply(t, c4, 5, "File size typical of mobile screenshot", "", None);
    assert(c1 == f.shot_dims());
    assert(views(t.trail@) =~= views(t0.trail@) + f.photo_trail(size));
    assert(pair_views(t.inds@) =~= pair_views(t0.inds@));
}

/// Adds the video layer to a tally.
#[verifier::rlimit(100)]
pub fn apply_video_layer(
    t: &mut Tally,
    filename: &str,
    dimensions: Option<(u32, u32)>,
    strings_found: &Vec<String>,
    size: u64,
)
    requires
        old(t).score + 40 * strings_found.len() + 200 <= u32::MAX,
    ensures
        ({
            let f = Facts {
                name: filename@,
                dims: dimensions,
                strs: views(strings_found@),
                format: None,
            };
            &&& final(t).score == old(t).score + f.video_points(size)
            &&& views(final(t).trail@) == views(old(t).trail@) + f.video_trail(size)
            &&& pair_views(final(t).inds@) == pair_views(old(t).inds@)
        }),
{
    let ghost f = Facts {
        name: filename@,
        dims: dimensions,
        strs: views(strings_found@),
        format: None,
    };
    let ghost t0 = *t;
    let (w, h) = match dimensions {
        Some(d) => d,
        None => (0, 0),
    };
    let c1 = dimensions.is_some() && pair_listed(&video_list(), (w, h));
    let mut label1 = String::from_str("TikTok standard video dimensions: ");
    label1.append(dims_string((w, h)).as_str());
    apply(t, c1, 30, label1.as_str(), "", None);
    let ghost t1 = *t;
    let c2 = dimensions.is_some() && ((w == 576 && h == 1024) || (w == 1080 && h == 1920));
    apply(t, c2, 15, "Exact TikTok preferred video dimensions", "", None);
    let ghost t2 = *t;
    let c3 = dimensions.is_some() && w < h;
    apply(t, c3, 10, "Portrait orientation (width < height)", "", None);
    let ghost t3 = *t;
    let c4 = dimensions.is_some() && ratio_in((w, h), 55, 58, 100);
    apply(t, c4, 20, "Vertical mobile video format (9:16)", "", None);
    let ghost t4 = *t;
    let c5 = dimensions.is_some() && !c4 && h > 0 && (w as u64) * 5 < (h as u64) * 4;
    let mut label5 = String::from_str("Portrait aspect ratio: ");
    if c5 {
        label5.append(portrait_ratio_string((w, h)).as_str());
    }
    apply(t, c5, 8, label5.as_str(), "", None);
    let ghost t5 = *t;
    assert(t.score <= t0.score + 83);
    apply_encoder_tokens(t, strings_found);
    let ghost t6 = *t;
    proof {
        encoder_points_bound(views(strings_found@));
    }
    let name = chars_of(filename);
    let c7 = starts_with_folded(&name, &chars_of("download")) && ends_with_folded(
        &name,
        &chars_of(".mp4"),
    );
    apply(t, c7, 25, "TikTok download naming pattern (Download*.mp4)", "", None);
    let ghost t7 = *t;
    let c8 = size > 100_000 && size < 50_000_000;
    apply(t, c8, 5, "File size typical of TikTok video", "", None);
    assert(c1 == f.video_dims());
    assert(c2 == f.preferred_dims());
    assert(c5 == f.tall());
    assert(views(t.trail@) =~= views(t0.trail@) + f.video_trail(size));
    assert(pair_views(t.inds@) =~= pair_views(t0.inds@));
}

impl MetadataManager {
    /// Scores the evidence of one file of the given kind: the base rule table,
    /// then, unless the camera exclusion fired, the kind's layer, and the verdict
    /// of the final score.
    pub fn score(
        &self,
        filename: &str,
        dimensions: Option<(u32, u32)>,
        strings_found: &Vec<String>,
        file_format: &Option<String>,
        size: u64,
        kind: MediaKind,
    ) -> (r: TikTokEvidence)
        requires
            self.wf(),
            strings_found.len() <= 10_000_000,
        ensures
            r@ == (Facts {
                name: filename@,
                dims: dimensions,
                strs: views(strings_found@),
                format: opt_text(*file_format),
            }).scored(size, kind),
    {
        let ev = self.analyze_tiktok_evidence(filename, dimensions, strings_found, file_format);
        layer_kind(ev, filename, dimensions, strings_found, file_format, size, kind)
    }
}

/// Adds the layer of `kind` to a result and recomputes its verdict from the
/// final score; an excluded result is returned as it is.
pub fn layer_kind(
    ev: TikTokEvidence,
    filename: &str,
    dimensions: Option<(u32, u32)>,
    strings_found: &Vec<String>,
    file_format: &Option<String>,
    size: u64,
    kind: MediaKind,
) -> (r: TikTokEvidence)
    requires
        ev.confidence_score + 40 * strings_found.len() + 200 <= u32::MAX,
    ensures
        r@ == with_layer(
            ev@,
            Facts {
                name: filename@,
                dims: dimensions,
                strs: views(strings_found@),
                format: opt_text(*file_format),
            },
            size,
            kind,
        ),
{
    if ev.excluded {
        return ev;
    }
    let mut t = Tally { score: ev.confidence_score, trail: ev.evidence_found, inds: ev.indicators };
    match kind {
        MediaKind::Photo => apply_photo_layer(&mut t, filename, dimensions, size),
        MediaKind::Video => apply_video_layer(&mut t, filename, dimensions, strings_found, size),
    }
    let score = t.score;
    TikTokEvidence {
        is_tiktok: score >= 40,
        confidence_score: score,
        evidence_found: t.trail,
        indicators: t.inds,
        verdict: verdict_for(score),
        excluded: false,
    }
}

/// When the found strings carry camera metadata, the file scores exactly 0 with
/// verdict Unlikely and a single exclusion entry, whatever else its evidence holds
/// and whichever kind it is scored as.
pub proof fn camera_exclusion_wins(f: Facts, size: u64, kind: MediaKind)
    requires
        camera_marked(f.strs),
    ensures
        f.scored(size, kind).score == 0,
        f.scored(size, kind).verdict == Verdict::Unlikely,
        !f.scored(size, kind).is_tiktok,
        f.scored(size, kind).trail == seq![excluded_label()],
{
}

/// Scoring is a function of its inputs: two results obtained for the same
/// evidence, size and kind are identical.
pub proof fn scoring_is_deterministic(
    a: TikTokEvidence,
    b: TikTokEvidence,
    f: Facts,
    size: u64,
    kind: MediaKind,
)
    requires
        a@ == f.scored(size, kind),
        b@ == f.scored(size, kind),
    ensures
        a@ == b@,
{
}

/// The verdict of a result is always the tier of its final score, and the
/// match flag is set exactly from the Likely tier up.
pub proof fn verdict_follows_score(f: Facts, size: u64, kind: MediaKind)
    ensures
        f.scored(size, kind).verdict == verdict_of(f.scored(size, kind).score),
        f.scored(size, kind).is_tiktok == is_match_score(f.scored(size, kind).score),
{
}

/// After the layer of either kind, on any well-formed incoming result, the
/// verdict is the tier of the final score and the match flag is set exactly
/// from Likely up.
pub proof fn layer_verdict_follows_score(ev: EvidenceView, f: Facts, size: u64, kind: MediaKind)
    requires
        ev.excluded ==> ev == excluded_view(),
    ensures
        with_layer(ev, f, size, kind).verdict == verdict_of(with_layer(ev, f, size, kind).score),
        with_layer(ev, f, size, kind).is_tiktok == is_match_score(
            with_layer(ev, f, size, kind).score,
        ),
{
}

/// The layer of either kind leaves the exclusion result unchanged: score 0,
/// verdict Unlikely, whatever the dimensions, strings, name and size.
pub proof fn layer_keeps_exclusion(f: Facts, size: u64, kind: MediaKind)
    ensures
        with_layer(excluded_view(), f, size, kind) == excluded_view(),
        with_layer(excluded_view(), f, size, kind).score == 0,
        with_layer(excluded_view(), f, size, kind).verdict == Verdict::Unlikely,
        !with_layer(excluded_view(), f, size, kind).is_tiktok,
{
}

/// A layer on a result that is not excluded adds its points, keeps the
/// findings, and only appends to the trail: the score never falls.
pub proof fn layer_only_adds(ev: EvidenceView, f: Facts, size: u64, kind: MediaKind)
    requires
        !ev.excluded,
    ensures
        with_layer(ev, f, size, kind).score >= ev.score,
        with_layer(ev, f, size, kind).indicators == ev.indicators,
        with_layer(ev, f, size, kind).trail.take(ev.trail.len() as int) == ev.trail,
{
    encoder_points_bound(f.strs);
    assert(with_layer(ev, f, size, kind).trail.take(ev.trail.len() as int) =~= ev.trail);
}

/// A higher score never lands in a lower tier.
pub proof fn verdict_is_monotone(a: int, b: int)
    requires
        a <= b,
    ensures
        tier_rank(verdict_of(a)) <= tier_rank(verdict_of(b)),
{
}

/// Each score falls in exactly one tier: Confirmed from 70, Likely from 40 to 69,
/// Possible from 20 to 39, Unlikely below 20.
pub proof fn verdict_tiers(s: int)
    ensures
        verdict_of(s) == Verdict::Confirmed <==> 70 <= s,
        verdict_of(s) == Verdict::Likely <==> 40 <= s < 70,
        verdict_of(s) == Verdict::Possible <==> 20 <= s < 40,
        verdict_of(s) == Verdict::Unlikely <==> s < 20,
{
}

} // verus!
