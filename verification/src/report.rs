//! Rendering of recognition results as the text and JSON reports the tool
//! prints.
//!
//! Confidences and corner points are floating-point values; the caller
//! renders them (`{:.2}` of the confidence in percent, `{:.3}` of the
//! confidence rounded to three places, `{}` of each coordinate) and hands
//! the rendered text in, so that this module holds no floating point.

use vstd::prelude::*;
use vstd::string::*;
use crate::text::{
    decimal, decimal_string, pad_left, pad_right, push_padded_left, push_padded_right,
    push_char, unsigned_string,
};

verus! {

/// A corner point, each coordinate already rendered as `{}` renders it.
pub struct PointText {
    pub x: String,
    pub y: String,
}

/// One recognised text region.
pub struct TextRegion {
    /// The recognised text.
    pub text: String,
    /// The confidence in percent, rendered with two decimals.
    pub confidence_percent: String,
    /// The confidence rounded to three decimals, rendered with three.
    pub confidence_rounded: String,
    /// The bounding box.
    pub left: i32,
    pub top: i32,
    pub width: u32,
    pub height: u32,
    /// The four corners of a rotated box, when the detector gave them.
    pub points: Option<Vec<PointText>>,
}

/// The mathematical value of a [`PointText`].
pub struct PointModel {
    pub x: Seq<char>,
    pub y: Seq<char>,
}

/// The mathematical value of a [`TextRegion`].
pub struct RegionModel {
    pub text: Seq<char>,
    pub confidence_percent: Seq<char>,
    pub confidence_rounded: Seq<char>,
    pub left: i32,
    pub top: i32,
    pub width: u32,
    pub height: u32,
    pub points: Option<Seq<PointModel>>,
}

impl View for PointText {
    type V = PointModel;

    open spec fn view(&self) -> PointModel {
        PointModel { x: self.x@, y: self.y@ }
    }
}

/// The values of a list of points.
pub open spec fn point_views(ps: Seq<PointText>) -> Seq<PointModel> {
    ps.map_values(|p: PointText| p@)
}

impl View for TextRegion {
    type V = RegionModel;

    open spec fn view(&self) -> RegionModel {
        RegionModel {
            text: self.text@,
            confidence_percent: self.confidence_percent@,
            confidence_rounded: self.confidence_rounded@,
            left: self.left,
            top: self.top,
            width: self.width,
            height: self.height,
            points: match self.points {
                Some(ps) => Some(point_views(ps@)),
                None => None,
            },
        }
    }
}

/// The values of a list of regions.
pub open spec fn region_views(rs: Seq<TextRegion>) -> Seq<RegionModel> {
    rs.map_values(|r: TextRegion| r@)
}

// ---------------------------------------------------------------- text ----

/// The text report's line for the region with index `i` (numbered from 1):
/// `[{:2}] {:6.2}%  ({:4},{:4}) {:4}x{:<4}  {text}` and a line break.
pub open spec fn text_line(i: int, r: RegionModel) -> Seq<char> {
    "["@ + pad_left(decimal(i + 1), 2) + "] "@ + pad_left(r.confidence_percent, 6) + "%  ("@
        + pad_left(decimal(r.left as int), 4) + ","@ + pad_left(decimal(r.top as int), 4) + ") "@
        + pad_left(decimal(r.width as int), 4) + "x"@ + pad_right(decimal(r.height as int), 4)
        + "  "@ + r.text + "\n"@
}

/// The lines of the first `n` regions.
pub open spec fn text_lines(rs: Seq<RegionModel>, n: int) -> Seq<char>
    decreases n,
{
    if n <= 0 {
        Seq::empty()
    } else {
        text_lines(rs, n - 1) + text_line(n - 1, rs[n - 1])
    }
}

/// The summary that closes a non-empty text report unless it is quiet.
pub open spec fn text_summary(count: int, avg_percent: Seq<char>) -> Seq<char> {
    "\n共 "@ + decimal(count) + " 个区域 | 平均置信度: "@ + avg_percent + "%\n"@
}

/// What the text report prints on stdout.
pub open spec fn text_report(rs: Seq<RegionModel>, quiet: bool, avg_percent: Seq<char>) -> Seq<char> {
    text_lines(rs, rs.len() as int) + if !quiet && rs.len() > 0 {
        text_summary(rs.len() as int, avg_percent)
    } else {
        Seq::empty()
    }
}

fn push_text_line(out: &mut String, i: usize, r: &TextRegion)
    requires
        i < usize::MAX,
    ensures
        final(out)@ == old(out)@ + text_line(i as int, r@),
{
    let ghost o = out@;
    out.append("[");
    let n = unsigned_string((i + 1) as u64);
    push_padded_left(out, n.as_str(), 2);
    out.append("] ");
    push_padded_left(out, r.confidence_percent.as_str(), 6);
    out.append("%  (");
    let l = decimal_string(r.left as i64);
    push_padded_left(out, l.as_str(), 4);
    out.append(",");
    let t = decimal_string(r.top as i64);
    push_padded_left(out, t.as_str(), 4);
    out.append(") ");
    let w = unsigned_string(r.width as u64);
    push_padded_left(out, w.as_str(), 4);
    out.append("x");
    let h = unsigned_string(r.height as u64);
    push_padded_right(out, h.as_str(), 4);
    out.append("  ");
    out.append(r.text.as_str());
    out.append("\n");
    assert(out@ =~= o + text_line(i as int, r@));
}

/// Renders the text report: one line per region, then, unless `quiet` or
/// there is no region, the count and the average confidence
/// (`avg_percent`, rendered like the per-region percentages).
pub fn render_text(regions: &Vec<TextRegion>, quiet: bool, avg_percent: &str) -> (r: String)
    ensures
        r@ == text_report(region_views(regions@), quiet, avg_percent@),
{
    let ghost rs = region_views(regions@);
    let mut out = String::new();
    let mut i: usize = 0;
    while i < regions.len()
        invariant
            i <= regions@.len(),
            rs == region_views(regions@),
            out@ == text_lines(rs, i as int),
        decreases regions@.len() - i,
    {
        push_text_line(&mut out, i, &regions[i]);
        i += 1;
    }
    if !quiet && regions.len() > 0 {
        let ghost before = out@;
        out.append("\n共 ");
        let c = unsigned_string(regions.len() as u64);
        out.append(c.as_str());
        out.append(" 个区域 | 平均置信度: ");
        out.append(avg_percent);
        out.append("%\n");
        assert(out@ =~= before + text_summary(rs.len() as int, avg_percent@));
    } else {
        assert(out@ =~= out@ + Seq::<char>::empty());
    }
    out
}

// ---------------------------------------------------------------- json ----

/// A hexadecimal digit (lowercase) for `0 <= d < 16`.
pub open spec fn hex_digit(d: int) -> char {
    if d < 10 {
        ((d + 48) as u8) as char
    } else {
        ((d + 87) as u8) as char
    }
}

/// How a character is written inside a JSON string: `"` and `\` and the
/// control characters below U+0020 are escaped (the short forms `\b`,
/// `\t`, `\n`, `\f`, `\r` where JSON has them, else `\u00XX`); every
/// other character stands for itself.
pub open spec fn json_escape_char(c: char) -> Seq<char> {
    if c == '"' {
        seq!['\\', '"']
    } else if c == '\\' {
        seq!['\\', '\\']
    } else if c == '\n' {
        seq!['\\', 'n']
    } else if c == '\r' {
        seq!['\\', 'r']
    } else if c == '\t' {
        seq!['\\', 't']
    } else if c == '\u{8}' {
        seq!['\\', 'b']
    } else if c == '\u{c}' {
        seq!['\\', 'f']
    } else if (c as u32) < 0x20 {
        seq!['\\', 'u', '0', '0', hex_digit((c as u32 / 16) as int), hex_digit((c as u32 % 16) as int)]
    } else {
        seq![c]
    }
}

/// The escaped form of the first `n` characters.
pub open spec fn json_escaped(s: Seq<char>, n: int) -> Seq<char>
    decreases n,
{
    if n <= 0 {
        Seq::empty()
    } else {
        json_escaped(s, n - 1) + json_escape_char(s[n - 1])
    }
}

/// A string as a JSON string literal.
pub open spec fn json_quoted(s: Seq<char>) -> Seq<char> {
    seq!['"'] + json_escaped(s, s.len() as int) + seq!['"']
}

fn hex_char(d: u32) -> (c: char)
    requires
        d < 16,
    ensures
        c == hex_digit(d as int),
{
    if d < 10 {
        ((d as u8) + 48) as char
    } else {
        ((d as u8) + 87) as char
    }
}

fn push_json_escaped_char(out: &mut String, c: char)
    ensures
        final(out)@ == old(out)@ + json_escape_char(c),
{
    let ghost o = out@;
    if c == '"' {
        push_char(out, '\\');
        push_char(out, '"');
    } else if c == '\\' {
        push_char(out, '\\');
        push_char(out, '\\');
    } else if c == '\n' {
        push_char(out, '\\');
        push_char(out, 'n');
    } else if c == '\r' {
        push_char(out, '\\');
        push_char(out, 'r');
    } else if c == '\t' {
        push_char(out, '\\');
        push_char(out, 't');
    } else if c == '\u{8}' {
        push_char(out, '\\');
        push_char(out, 'b');
    } else if c == '\u{c}' {
        push_char(out, '\\');
        push_char(out, 'f');
    } else if (c as u32) < 0x20 {
        let v = c as u32;
        push_char(out, '\\');
        push_char(out, 'u');
        push_char(out, '0');
        push_char(out, '0');
        push_char(out, hex_char(v / 16));
        push_char(out, hex_char(v % 16));
    } else {
        push_char(out, c);
    }
    assert(out@ =~= o + json_escape_char(c));
}

/// Appends a string as a JSON string literal.
pub fn push_json_string(out: &mut String, s: &str)
    ensures
        final(out)@ == old(out)@ + json_quoted(s@),
{
    let ghost o = out@;
    push_char(out, '"');
    let ghost h = out@;
    let n = s.unicode_len();
    let mut i: usize = 0;
    while i < n
        invariant
            n == s@.len(),
            i <= n,
            out@ == h + json_escaped(s@, i as int),
        decreases n - i,
    {
        push_json_escaped_char(out, s.get_char(i));
        assert(out@ =~= h + json_escaped(s@, i + 1));
        i += 1;
    }
    push_char(out, '"');
    assert(out@ =~= o + json_quoted(s@));
}

/// One corner in the JSON report.
pub open spec fn json_point(p: PointModel) -> Seq<char> {
    "{\"x\": "@ + p.x + ", \"y\": "@ + p.y + "}"@
}

/// The first `n` corners, separated by `, `.
pub open spec fn json_point_list(ps: Seq<PointModel>, n: int) -> Seq<char>
    decreases n,
{
    if n <= 0 {
        Seq::empty()
    } else if n == 1 {
        json_point(ps[0])
    } else {
        json_point_list(ps, n - 1) + ", "@ + json_point(ps[n - 1])
    }
}

/// The `points` member of a region, present only when it has corners.
pub open spec fn json_points(points: Option<Seq<PointModel>>) -> Seq<char> {
    match points {
        Some(ps) => ",\n      \"points\": ["@ + json_point_list(ps, ps.len() as int) + "]"@,
        None => Seq::empty(),
    }
}

/// The opening of a region's JSON object: its text and confidence.
pub open spec fn json_item_head(r: RegionModel) -> Seq<char> {
    "    {\n      \"text\": "@ + json_quoted(r.text) + ",\n"@ + "      \"confidence\": "@
        + r.confidence_rounded + ",\n"@
}

/// The `box` member of a region's JSON object.
pub open spec fn json_box(r: RegionModel) -> Seq<char> {
    "      \"box\": {\"left\": "@ + decimal(r.left as int) + ", \"top\": "@ + decimal(r.top as int)
        + ", \"width\": "@ + decimal(r.width as int) + ", \"height\": "@ + decimal(r.height as int)
        + "}"@
}

/// The close of a region's JSON object; `last` leaves out the comma.
pub open spec fn json_item_tail(last: bool) -> Seq<char> {
    "\n    }"@ + (if last { ""@ } else { ","@ }) + "\n"@
}

/// The JSON object of one region; `last` leaves out the trailing comma.
pub open spec fn json_item(r: RegionModel, last: bool) -> Seq<char> {
    json_item_head(r) + json_box(r) + json_points(r.points) + json_item_tail(last)
}

/// The objects of the first `n` regions.
pub open spec fn json_items(rs: Seq<RegionModel>, n: int) -> Seq<char>
    decreases n,
{
    if n <= 0 {
        Seq::empty()
    } else {
        json_items(rs, n - 1) + json_item(rs[n - 1], n == rs.len())
    }
}

/// What the JSON report prints on stdout.
pub open spec fn json_report(rs: Seq<RegionModel>, avg_rounded: Seq<char>) -> Seq<char> {
    "{\n  \"count\": "@ + decimal(rs.len() as int) + ",\n  \"avg_confidence\": "@ + avg_rounded
        + ",\n  \"results\": [\n"@ + json_items(rs, rs.len() as int) + "  ]\n}\n"@
}

fn push_json_points(out: &mut String, ps: &Vec<PointText>)
    ensures
        final(out)@ == old(out)@ + json_point_list(point_views(ps@), ps@.len() as int),
{
    let ghost o = out@;
    let ghost pv = point_views(ps@);
    let mut j: usize = 0;
    while j < ps.len()
        invariant
            j <= ps@.len(),
            pv == point_views(ps@),
            out@ == o + json_point_list(pv, j as int),
        decreases ps@.len() - j,
    {
        let ghost before = out@;
        if j > 0 {
            out.append(", ");
        }
        out.append("{\"x\": ");
        out.append(ps[j].x.as_str());
        out.append(", \"y\": ");
        out.append(ps[j].y.as_str());
        out.append("}");
        proof {
            if j == 0 {
                assert(out@ =~= o + json_point_list(pv, 1));
            } else {
                assert(out@ =~= before + ", "@ + json_point(pv[j as int]));
                assert(out@ =~= o + json_point_list(pv, j + 1));
            }
        }
        j += 1;
    }
}

fn push_json_item_head(out: &mut String, r: &TextRegion)
    ensures
        final(out)@ == old(out)@ + json_item_head(r@),
{
    let ghost o = out@;
    out.append("    {\n      \"text\": ");
    push_json_string(out, r.text.as_str());
    out.append(",\n");
    out.append("      \"confidence\": ");
    out.append(r.confidence_rounded.as_str());
    out.append(",\n");
    assert(out@ =~= o + json_item_head(r@));
}

fn push_json_box(out: &mut String, r: &TextRegion)
    ensures
        final(out)@ == old(out)@ + json_box(r@),
{
    let ghost o = out@;
    out.append("      \"box\": {\"left\": ");
    let l = decimal_string(r.left as i64);
    out.append(l.as_str());
    out.append(", \"top\": ");
    let t = decimal_string(r.top as i64);
    out.append(t.as_str());
    out.append(", \"width\": ");
    let w = unsigned_string(r.width as u64);
    out.append(w.as_str());
    out.append(", \"height\": ");
    let h = unsigned_string(r.height as u64);
    out.append(h.as_str());
    out.append("}");
    assert(out@ =~= o + json_box(r@));
}

fn push_json_item(out: &mut String, r: &TextRegion, last: bool)
    ensures
        final(out)@ == old(out)@ + json_item(r@, last),
{
    let ghost o = out@;
    push_json_item_head(out, r);
    push_json_box(out, r);
    let ghost mid = out@;
    match &r.points {
        Some(ps) => {
            out.append(",\n      \"points\": [");
            push_json_points(out, ps);
            out.append("]");
            assert(out@ =~= mid + json_points(r@.points));
        },
        None => {
            assert(out@ =~= mid + json_points(r@.points));
        },
    }
    let ghost mid2 = out@;
    out.append("\n    }");
    if last {
        out.append("");
    } else {
        out.append(",");
    }
    out.append("\n");
    assert(out@ =~= mid2 + json_item_tail(last));
    assert(out@ =~= o + json_item(r@, last));
}

/// Renders the JSON report: the count, the average confidence
/// (`avg_rounded`, rendered like the per-region rounded confidences) and one
/// object per region, commas between them.
pub fn render_json(regions: &Vec<TextRegion>, avg_rounded: &str) -> (r: String)
    ensures
        r@ == json_report(region_views(regions@), avg_rounded@),
{
    let ghost rs = region_views(regions@);
    let mut out = String::new();
    out.append("{\n  \"count\": ");
    let c = unsigned_string(regions.len() as u64);
    out.append(c.as_str());
    out.append(",\n  \"avg_confidence\": ");
    out.append(avg_rounded);
    out.append(",\n  \"results\": [\n");
    let ghost head = out@;
    let n = regions.len();
    let mut i: usize = 0;
    while i < n
        invariant
            n == regions@.len(),
            i <= n,
            rs == region_views(regions@),
            out@ == head + json_items(rs, i as int),
        decreases n - i,
    {
        push_json_item(&mut out, &regions[i], i + 1 == n);
        assert(out@ =~= head + json_items(rs, i + 1));
        i += 1;
    }
    out.append("  ]\n}\n");
    assert(out@ =~= json_report(rs, avg_rounded@));
    out
}

/// In the JSON report the objects of the regions follow one another in
/// order, each closed by `}` and, except the last, a comma: the `k`-th
/// object is followed by `,` exactly when another region comes after it.
pub proof fn law_json_objects_are_comma_separated(rs: Seq<RegionModel>, k: int)
    requires
        0 <= k < rs.len(),
    ensures
        json_items(rs, k + 1) == json_items(rs, k) + json_item_head(rs[k]) + json_box(rs[k])
            + json_points(rs[k].points) + "\n    }"@ + (if k + 1 < rs.len() { ","@ } else { ""@ })
            + "\n"@,
{
    assert(json_items(rs, k + 1) =~= json_items(rs, k) + json_item_head(rs[k]) + json_box(rs[k])
        + json_points(rs[k].points) + "\n    }"@ + (if k + 1 < rs.len() { ","@ } else { ""@ })
        + "\n"@);
}

/// The JSON report is one object: the count of regions, the average
/// confidence, and the array of the regions' objects, nothing before or
/// after.
pub proof fn law_json_report_layout(rs: Seq<RegionModel>, avg: Seq<char>)
    ensures
        json_report(rs, avg) == "{\n  \"count\": "@ + decimal(rs.len() as int)
            + ",\n  \"avg_confidence\": "@ + avg + ",\n  \"results\": [\n"@
            + json_items(rs, rs.len() as int) + "  ]\n}\n"@,
{
}

/// A text report carries the closing summary exactly when it is not quiet
/// and lists at least one region; the summary gives the number of regions.
pub proof fn law_text_summary_presence(rs: Seq<RegionModel>, quiet: bool, avg: Seq<char>)
    ensures
        !quiet && rs.len() > 0 ==> text_report(rs, quiet, avg) == text_lines(rs, rs.len() as int)
            + "\n共 "@ + decimal(rs.len() as int) + " 个区域 | 平均置信度: "@ + avg + "%\n"@,
        quiet || rs.len() == 0 ==> text_report(rs, quiet, avg) == text_lines(rs, rs.len() as int),
{
    if !quiet && rs.len() > 0 {
        assert(text_report(rs, quiet, avg) =~= text_lines(rs, rs.len() as int)
            + "\n共 "@ + decimal(rs.len() as int) + " 个区域 | 平均置信度: "@ + avg + "%\n"@);
    } else {
        assert(text_report(rs, quiet, avg) =~= text_lines(rs, rs.len() as int));
    }
}

/// The text report has one line per region, in order: the `k`-th line
/// starts with the region's number `k + 1` in brackets and ends with its
/// text and a line break.
pub proof fn law_text_lines_in_order(rs: Seq<RegionModel>, k: int)
    requires
        0 <= k < rs.len(),
    ensures
        text_lines(rs, k + 1) == text_lines(rs, k) + text_line(k, rs[k]),
        text_line(k, rs[k])[0] == '[',
        text_line(k, rs[k]).subrange(1, (1 + pad_left(decimal(k + 1), 2).len()) as int)
            == pad_left(decimal(k + 1), 2),
        text_line(k, rs[k]).len() >= rs[k].text.len() + 1,
        text_line(k, rs[k]).subrange(
            text_line(k, rs[k]).len() - rs[k].text.len() - 1,
            text_line(k, rs[k]).len() as int,
        ) == rs[k].text + "\n"@,
{
    reveal_strlit("[");
    reveal_strlit("\n");
    let t = text_line(k, rs[k]);
    let p = pad_left(decimal(k + 1), 2);
    assert(t[0] == '[');
    assert(t.subrange(1, (1 + p.len()) as int) =~= p);
    assert(t.subrange(t.len() - rs[k].text.len() - 1, t.len() as int) =~= rs[k].text + "\n"@);
}

/// The value of a lowercase hexadecimal digit.
pub open spec fn hex_value(c: char) -> int {
    if '0' <= c && c <= '9' {
        c as int - 48
    } else {
        c as int - 87
    }
}

/// A character with no special meaning in a JSON string.
pub open spec fn json_plain(c: char) -> bool {
    (c as u32) >= 0x20 && c != '"' && c != '\\'
}

/// How one character is written in a JSON string: a plain character as
/// itself; `"` and `\\` behind a backslash; a control character as a
/// backslash escape, either one of JSON's short forms or `\u00XX` whose
/// hexadecimal digits give back the character's code. No control
/// character is ever written as it is.
pub proof fn law_json_escape_char(c: char)
    ensures
        forall|i: int| 0 <= i < json_escape_char(c).len() ==> (#[trigger] json_escape_char(c)[i] as u32) >= 0x20,
        json_plain(c) ==> json_escape_char(c) == seq![c],
        !json_plain(c) ==> json_escape_char(c).len() >= 2 && json_escape_char(c)[0] == '\\',
        c == '"' ==> json_escape_char(c) == seq!['\\', '"'],
        c == '\\' ==> json_escape_char(c) == seq!['\\', '\\'],
        c == '\n' ==> json_escape_char(c) == seq!['\\', 'n'],
        c == '\t' ==> json_escape_char(c) == seq!['\\', 't'],
        (c as u32) < 0x20 && json_escape_char(c).len() != 2 ==> {
            let e = json_escape_char(c);
            &&& e.len() == 6
            &&& e[1] == 'u' && e[2] == '0' && e[3] == '0'
            &&& hex_value(e[4]) * 16 + hex_value(e[5]) == c as int
        },
{
    let e = json_escape_char(c);
    if (c as u32) < 0x20 && e.len() != 2 {
        let v = c as u32;
        assert(hex_value(hex_digit((v / 16) as int)) == (v / 16) as int);
        assert(hex_value(hex_digit((v % 16) as int)) == (v % 16) as int);
        assert((v / 16) * 16 + v % 16 == v);
    }
}

proof fn lemma_json_escaped_no_control(s: Seq<char>, n: int)
    requires
        n <= s.len(),
    ensures
        forall|i: int| 0 <= i < json_escaped(s, n).len() ==> (#[trigger] json_escaped(s, n)[i] as u32) >= 0x20,
    decreases n,
{
    if n > 0 {
        lemma_json_escaped_no_control(s, n - 1);
        law_json_escape_char(s[n - 1]);
        let a = json_escaped(s, n - 1);
        let b = json_escape_char(s[n - 1]);
        assert forall|i: int| 0 <= i < json_escaped(s, n).len() implies (#[trigger] json_escaped(s, n)[i] as u32) >= 0x20 by {
            if i < a.len() {
                assert(json_escaped(s, n)[i] == a[i]);
            } else {
                assert(json_escaped(s, n)[i] == b[i - a.len()]);
            }
        }
    }
}

proof fn lemma_json_escaped_plain(s: Seq<char>, n: int)
    requires
        0 <= n <= s.len(),
        forall|i: int| 0 <= i < s.len() ==> json_plain(#[trigger] s[i]),
    ensures
        json_escaped(s, n) == s.take(n),
    decreases n,
{
    if n > 0 {
        lemma_json_escaped_plain(s, n - 1);
        assert(s.take(n) =~= s.take(n - 1) + seq![s[n - 1]]);
    } else {
        assert(s.take(0) =~= Seq::<char>::empty());
    }
}

/// The text of a region in the JSON report is a JSON string: quoted, with no
/// control character left as it is; a text of plain characters only is
/// written unchanged between the quotes.
pub proof fn law_json_text_is_a_json_string(s: Seq<char>)
    ensures
        json_quoted(s)[0] == '"',
        json_quoted(s)[json_quoted(s).len() - 1] == '"',
        forall|i: int| 0 <= i < json_quoted(s).len() ==> (#[trigger] json_quoted(s)[i] as u32) >= 0x20,
        (forall|i: int| 0 <= i < s.len() ==> json_plain(#[trigger] s[i])) ==> json_quoted(s) == seq!['"'] + s + seq!['"'],
{
    lemma_json_escaped_no_control(s, s.len() as int);
    let q = json_quoted(s);
    let m = json_escaped(s, s.len() as int);
    assert forall|i: int| 0 <= i < q.len() implies (#[trigger] q[i] as u32) >= 0x20 by {
        if i == 0 || i == q.len() - 1 {
        } else {
            assert(q[i] == m[i - 1]);
        }
    }
    if forall|i: int| 0 <= i < s.len() ==> json_plain(#[trigger] s[i]) {
        lemma_json_escaped_plain(s, s.len() as int);
        assert(s.take(s.len() as int) =~= s);
    }
}

} // verus!
