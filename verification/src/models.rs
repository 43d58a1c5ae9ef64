//! The model listing: the files of the model directory sorted and grouped
//! by kind, the model generations they belong to, and the listing's text.

use vstd::prelude::*;
use vstd::string::*;
use crate::cli::{arg_views, ModelVersion};
use crate::text::{contains_str, seq_contains_seq, seq_starts_with, starts_with_str};

verus! {

/// Code-point lexicographic order on strings (std's order on `str`, which
/// compares the UTF-8 bytes).
pub open spec fn char_seq_le(a: Seq<char>, b: Seq<char>) -> bool
    decreases a.len(),
{
    if a.len() == 0 {
        true
    } else if b.len() == 0 {
        false
    } else if a[0] != b[0] {
        (a[0] as u32) < (b[0] as u32)
    } else {
        char_seq_le(a.drop_first(), b.drop_first())
    }
}

/// The names are in ascending order.
pub open spec fn sorted_names(s: Seq<Seq<char>>) -> bool {
    forall|i: int, j: int| 0 <= i < j < s.len() ==> char_seq_le(#[trigger] s[i], #[trigger] s[j])
}

/// std's `slice::sort` on a vector of strings.
///
/// Trusted: the contract claims what std documents: the vector is
/// rearranged (same elements, same multiplicities) into ascending order,
/// strings being ordered lexicographically by their bytes, which orders
/// code points by value.
#[verifier::external_body]
fn sort_strings(v: &mut Vec<String>)
    ensures
        final(v)@.to_multiset() == old(v)@.to_multiset(),
        sorted_names(arg_views(final(v)@)),
{
    v.sort()
}

/// A detection model file.
pub open spec fn is_det(n: Seq<char>) -> bool {
    seq_contains_seq(n, "det"@)
}

/// A recognition model file.
pub open spec fn is_rec(n: Seq<char>) -> bool {
    seq_contains_seq(n, "rec"@)
}

/// A character set file.
pub open spec fn is_keys(n: Seq<char>) -> bool {
    seq_starts_with(n, "ppocr_keys"@)
}

/// An orientation model file.
pub open spec fn is_ori(n: Seq<char>) -> bool {
    seq_contains_seq(n, "ori"@) || seq_contains_seq(n, "LCNet"@)
}

/// A file of none of the four kinds.
pub open spec fn is_other(n: Seq<char>) -> bool {
    !is_det(n) && !is_rec(n) && !is_keys(n) && !is_ori(n)
}

pub open spec fn det_pred() -> spec_fn(Seq<char>) -> bool {
    |n: Seq<char>| is_det(n)
}

pub open spec fn rec_pred() -> spec_fn(Seq<char>) -> bool {
    |n: Seq<char>| is_rec(n)
}

pub open spec fn keys_pred() -> spec_fn(Seq<char>) -> bool {
    |n: Seq<char>| is_keys(n)
}

pub open spec fn ori_pred() -> spec_fn(Seq<char>) -> bool {
    |n: Seq<char>| is_ori(n)
}

pub open spec fn other_pred() -> spec_fn(Seq<char>) -> bool {
    |n: Seq<char>| is_other(n)
}

/// The generation a file name mentions: the first of `v4`, `v5`, `v6` that
/// occurs in it.
pub open spec fn version_tag(n: Seq<char>) -> Option<ModelVersion> {
    if seq_contains_seq(n, "v4"@) {
        Some(ModelVersion::V4)
    } else if seq_contains_seq(n, "v5"@) {
        Some(ModelVersion::V5)
    } else if seq_contains_seq(n, "v6"@) {
        Some(ModelVersion::V6)
    } else {
        None
    }
}

/// Some name is tagged with generation `v`.
pub open spec fn mentions_version(names: Seq<Seq<char>>, v: ModelVersion) -> bool {
    exists|i: int| 0 <= i < names.len() && version_tag(#[trigger] names[i]) == Some(v)
}

/// The generations the names mention, each once, in ascending order.
pub open spec fn versions_of(names: Seq<Seq<char>>) -> Seq<ModelVersion> {
    (if mentions_version(names, ModelVersion::V4) { seq![ModelVersion::V4] } else { Seq::empty() })
        + (if mentions_version(names, ModelVersion::V5) { seq![ModelVersion::V5] } else { Seq::empty() })
        + (if mentions_version(names, ModelVersion::V6) { seq![ModelVersion::V6] } else { Seq::empty() })
}

/// The model directory's files, sorted and grouped.
pub struct ModelListing {
    /// All file names, in ascending order.
    pub entries: Vec<String>,
    pub det: Vec<String>,
    pub rec: Vec<String>,
    pub keys: Vec<String>,
    pub ori: Vec<String>,
    pub other: Vec<String>,
    pub versions: Vec<ModelVersion>,
}

/// The listing is what sorting and grouping `names` gives.
pub open spec fn is_listing_of(l: ModelListing, names: Seq<String>) -> bool {
    let e = arg_views(l.entries@);
    &&& l.entries@.to_multiset() == names.to_multiset()
    &&& sorted_names(e)
    &&& arg_views(l.det@) == e.filter(det_pred())
    &&& arg_views(l.rec@) == e.filter(rec_pred())
    &&& arg_views(l.keys@) == e.filter(keys_pred())
    &&& arg_views(l.ori@) == e.filter(ori_pred())
    &&& arg_views(l.other@) == e.filter(other_pred())
    &&& l.versions@ == versions_of(e)
}

fn tag_of(n: &str) -> (r: Option<ModelVersion>)
    ensures
        r == version_tag(n@),
{
    if contains_str(n, "v4") {
        Some(ModelVersion::V4)
    } else if contains_str(n, "v5") {
        Some(ModelVersion::V5)
    } else if contains_str(n, "v6") {
        Some(ModelVersion::V6)
    } else {
        None
    }
}

proof fn lemma_views_push(s: Seq<String>, x: String)
    ensures
        arg_views(s.push(x)) == arg_views(s).push(x@),
{
    assert(arg_views(s.push(x)) =~= arg_views(s).push(x@));
}

fn push_if(out: &mut Vec<String>, keep: bool, name: &String, ghost_pred: Ghost<spec_fn(Seq<char>) -> bool>, ghost_seen: Ghost<Seq<Seq<char>>>)
    requires
        keep == ghost_pred@(name@),
        arg_views(old(out)@) == ghost_seen@.filter(ghost_pred@),
    ensures
        arg_views(final(out)@) == ghost_seen@.push(name@).filter(ghost_pred@),
{
    proof {
        ghost_seen@.lemma_filter_push(name@, ghost_pred@);
        lemma_views_push(old(out)@, *name);
    }
    if keep {
        out.push(name.clone());
    }
}

/// Sorts the model directory's file names and groups them by kind.
pub fn model_listing(names: Vec<String>) -> (l: ModelListing)
    ensures
        is_listing_of(l, names@),
{
    let mut entries = names;
    sort_strings(&mut entries);
    let ghost e = arg_views(entries@);
    let mut det: Vec<String> = Vec::new();
    let mut rec: Vec<String> = Vec::new();
    let mut keys: Vec<String> = Vec::new();
    let mut ori: Vec<String> = Vec::new();
    let mut other: Vec<String> = Vec::new();
    let mut v4 = false;
    let mut v5 = false;
    let mut v6 = false;
    let mut i: usize = 0;
    assert(e.take(0) =~= Seq::<Seq<char>>::empty());
    while i < entries.len()
        invariant
            i <= entries@.len(),
            e == arg_views(entries@),
            arg_views(det@) == e.take(i as int).filter(det_pred()),
            arg_views(rec@) == e.take(i as int).filter(rec_pred()),
            arg_views(keys@) == e.take(i as int).filter(keys_pred()),
            arg_views(ori@) == e.take(i as int).filter(ori_pred()),
            arg_views(other@) == e.take(i as int).filter(other_pred()),
            v4 == mentions_version(e.take(i as int), ModelVersion::V4),
            v5 == mentions_version(e.take(i as int), ModelVersion::V5),
            v6 == mentions_version(e.take(i as int), ModelVersion::V6),
        decreases entries@.len() - i,
    {
        let name = &entries[i];
        let n = name.as_str();
        let ghost seen = e.take(i as int);
        assert(e.take(i + 1) =~= seen.push(name@));
        let d = contains_str(n, "det");
        let r = contains_str(n, "rec");
        let k = starts_with_str(n, "ppocr_keys");
        let o = contains_str(n, "ori") || contains_str(n, "LCNet");
        push_if(&mut det, d, name, Ghost(det_pred()), Ghost(seen));
        push_if(&mut rec, r, name, Ghost(rec_pred()), Ghost(seen));
        push_if(&mut keys, k, name, Ghost(keys_pred()), Ghost(seen));
        push_if(&mut ori, o, name, Ghost(ori_pred()), Ghost(seen));
        push_if(&mut other, !d && !r && !k && !o, name, Ghost(other_pred()), Ghost(seen));
        let t = tag_of(n);
        proof {
            let s2 = seen.push(name@);
            assert(s2[i as int] == name@);
            assert forall|v: ModelVersion| mentions_version(s2, v) == (mentions_version(seen, v) || version_tag(name@) == Some(v)) by {
                if mentions_version(s2, v) {
                    let j = choose|j: int| 0 <= j < s2.len() && version_tag(#[trigger] s2[j]) == Some(v);
                    if j < i {
                        assert(seen[j] == s2[j]);
                    }
                }
                if mentions_version(seen, v) {
                    let j = choose|j: int| 0 <= j < seen.len() && version_tag(#[trigger] seen[j]) == Some(v);
                    assert(s2[j] == seen[j]);
                }
            }
        }
        match t {
            Some(ModelVersion::V4) => { v4 = true; },
            Some(ModelVersion::V5) => { v5 = true; },
            Some(ModelVersion::V6) => { v6 = true; },
            None => {},
        }
        i += 1;
    }
    assert(e.take(entries@.len() as int) =~= e);
    let mut versions: Vec<ModelVersion> = Vec::new();
    if v4 {
        versions.push(ModelVersion::V4);
    }
    if v5 {
        versions.push(ModelVersion::V5);
    }
    if v6 {
        versions.push(ModelVersion::V6);
    }
    assert(versions@ =~= versions_of(e));
    ModelListing { entries, det, rec, keys, ori, other, versions }
}

/// The name of a model generation as the listing prints it.
pub open spec fn version_name(v: ModelVersion) -> Seq<char> {
    match v {
        ModelVersion::V4 => "v4"@,
        ModelVersion::V5 => "v5"@,
        ModelVersion::V6 => "v6"@,
    }
}

/// The printed name of a model generation.
pub fn version_str(v: ModelVersion) -> (s: &'static str)
    ensures
        s@ == version_name(v),
{
    match v {
        ModelVersion::V4 => "v4",
        ModelVersion::V5 => "v5",
        ModelVersion::V6 => "v6",
    }
}

/// One indented line per name, for the first `n` names.
pub open spec fn name_lines(ns: Seq<Seq<char>>, n: int) -> Seq<char>
    decreases n,
{
    if n <= 0 {
        Seq::empty()
    } else {
        name_lines(ns, n - 1) + "    "@ + ns[n - 1] + "\n"@
    }
}

/// A group of the listing: nothing when it is empty, else its header, its
/// names and a blank line.
pub open spec fn section(header: Seq<char>, ns: Seq<Seq<char>>) -> Seq<char> {
    if ns.len() == 0 {
        Seq::empty()
    } else {
        header + name_lines(ns, ns.len() as int) + "\n"@
    }
}

/// The first `n` generations, separated by `, `.
pub open spec fn joined_versions(vs: Seq<ModelVersion>, n: int) -> Seq<char>
    decreases n,
{
    if n <= 0 {
        Seq::empty()
    } else if n == 1 {
        version_name(vs[0])
    } else {
        joined_versions(vs, n - 1) + ", "@ + version_name(vs[n - 1])
    }
}

/// One usage example per generation, for the first `n`.
pub open spec fn usage_lines(vs: Seq<ModelVersion>, n: int) -> Seq<char>
    decreases n,
{
    if n <= 0 {
        Seq::empty()
    } else {
        usage_lines(vs, n - 1) + "    ocr-cli photo.jpg -m "@ + version_name(vs[n - 1]) + "\n"@
    }
}

/// The closing part of the listing: the generations found and how to
/// select each; nothing when none was found.
pub open spec fn versions_part(vs: Seq<ModelVersion>) -> Seq<char> {
    if vs.len() == 0 {
        Seq::empty()
    } else {
        "  检测到的模型版本: "@ + joined_versions(vs, vs.len() as int) + "\n"@ + "\n"@
            + "  用法: ocr-cli <image> -m <版本>\n"@ + usage_lines(vs, vs.len() as int)
    }
}

/// The listing's text.
pub open spec fn listing_text(
    det: Seq<Seq<char>>,
    rec: Seq<Seq<char>>,
    keys: Seq<Seq<char>>,
    ori: Seq<Seq<char>>,
    other: Seq<Seq<char>>,
    vs: Seq<ModelVersion>,
) -> Seq<char> {
    "📦 models/ 目录中的可用文件:\n\n"@ + section("  检测模型 (Detection):\n"@, det)
        + section("  识别模型 (Recognition):\n"@, rec) + section("  字符集 (Charset):\n"@, keys)
        + section("  方向模型 (Orientation):\n"@, ori) + section("  其他文件:\n"@, other)
        + versions_part(vs)
}

fn push_section(out: &mut String, header: &str, names: &Vec<String>)
    ensures
        final(out)@ == old(out)@ + section(header@, arg_views(names@)),
{
    let ghost o = out@;
    let ghost ns = arg_views(names@);
    if names.len() == 0 {
        assert(out@ =~= o + section(header@, ns));
        return;
    }
    out.append(header);
    let ghost h = out@;
    let mut i: usize = 0;
    while i < names.len()
        invariant
            i <= names@.len(),
            ns == arg_views(names@),
            out@ == h + name_lines(ns, i as int),
        decreases names@.len() - i,
    {
        out.append("    ");
        out.append(names[i].as_str());
        out.append("\n");
        assert(out@ =~= h + name_lines(ns, i + 1));
        i += 1;
    }
    out.append("\n");
    assert(out@ =~= o + section(header@, ns));
}

fn push_versions(out: &mut String, vs: &Vec<ModelVersion>)
    ensures
        final(out)@ == old(out)@ + versions_part(vs@),
{
    let ghost o = out@;
    if vs.len() == 0 {
        assert(out@ =~= o + versions_part(vs@));
        return;
    }
    out.append("  检测到的模型版本: ");
    let ghost h = out@;
    let mut i: usize = 0;
    while i < vs.len()
        invariant
            i <= vs@.len(),
            out@ == h + joined_versions(vs@, i as int),
        decreases vs@.len() - i,
    {
        if i > 0 {
            out.append(", ");
        }
        out.append(version_str(vs[i]));
        assert(out@ =~= h + joined_versions(vs@, i + 1));
        i += 1;
    }
    out.append("\n");
    out.append("\n");
    out.append("  用法: ocr-cli <image> -m <版本>\n");
    let ghost u = out@;
    let mut j: usize = 0;
    while j < vs.len()
        invariant
            j <= vs@.len(),
            out@ == u + usage_lines(vs@, j as int),
        decreases vs@.len() - j,
    {
        out.append("    ocr-cli photo.jpg -m ");
        out.append(version_str(vs[j]));
        out.append("\n");
        assert(out@ =~= u + usage_lines(vs@, j + 1));
        j += 1;
    }
    assert(out@ =~= o + versions_part(vs@));
}

/// Renders the listing of the model directory.
pub fn render_listing(l: &ModelListing) -> (r: String)
    ensures
        r@ == listing_text(
            arg_views(l.det@),
            arg_views(l.rec@),
            arg_views(l.keys@),
            arg_views(l.ori@),
            arg_views(l.other@),
            l.versions@,
        ),
{
    let mut out = String::new();
    out.append("📦 models/ 目录中的可用文件:\n\n");
    push_section(&mut out, "  检测模型 (Detection):\n", &l.det);
    push_section(&mut out, "  识别模型 (Recognition):\n", &l.rec);
    push_section(&mut out, "  字符集 (Charset):\n", &l.keys);
    push_section(&mut out, "  方向模型 (Orientation):\n", &l.ori);
    push_section(&mut out, "  其他文件:\n", &l.other);
    push_versions(&mut out, &l.versions);
    assert(out@ =~= listing_text(
        arg_views(l.det@),
        arg_views(l.rec@),
        arg_views(l.keys@),
        arg_views(l.ori@),
        arg_views(l.other@),
        l.versions@,
    ));
    out
}

/// Every file of the listing is shown in some group: in each group whose
/// kind it is, and under "other files" exactly when it is of none of the
/// four kinds; a group shows only files of its kind.
pub proof fn law_listing_shows_every_file(l: ModelListing, names: Seq<String>, i: int)
    requires
        is_listing_of(l, names),
        0 <= i < l.entries@.len(),
    ensures
        ({
            let n = l.entries@[i]@;
            &&& is_det(n) ==> arg_views(l.det@).contains(n)
            &&& is_rec(n) ==> arg_views(l.rec@).contains(n)
            &&& is_keys(n) ==> arg_views(l.keys@).contains(n)
            &&& is_ori(n) ==> arg_views(l.ori@).contains(n)
            &&& is_other(n) ==> arg_views(l.other@).contains(n)
            &&& arg_views(l.det@).contains(n) || arg_views(l.rec@).contains(n)
                || arg_views(l.keys@).contains(n) || arg_views(l.ori@).contains(n)
                || arg_views(l.other@).contains(n)
        }),
        forall|k: int| 0 <= k < l.det@.len() ==> is_det(#[trigger] arg_views(l.det@)[k]),
        forall|k: int| 0 <= k < l.other@.len() ==> is_other(#[trigger] arg_views(l.other@)[k]),
{
    let e = arg_views(l.entries@);
    let n = e[i];
    if is_det(n) {
        e.lemma_filter_contains(det_pred(), i);
    }
    if is_rec(n) {
        e.lemma_filter_contains(rec_pred(), i);
    }
    if is_keys(n) {
        e.lemma_filter_contains(keys_pred(), i);
    }
    if is_ori(n) {
        e.lemma_filter_contains(ori_pred(), i);
    }
    if is_other(n) {
        e.lemma_filter_contains(other_pred(), i);
    }
    assert forall|k: int| 0 <= k < l.det@.len() implies is_det(#[trigger] arg_views(l.det@)[k]) by {
        e.lemma_filter_pred(det_pred(), k);
    }
    assert forall|k: int| 0 <= k < l.other@.len() implies is_other(#[trigger] arg_views(l.other@)[k]) by {
        e.lemma_filter_pred(other_pred(), k);
    }
}

/// The listing groups files by their names: a name containing `det` is a
/// detection model, `rec` a recognition model, one starting with
/// `ppocr_keys` a character set, one containing `ori` or `LCNet` an
/// orientation model; the "other files" are exactly those of none of these
/// kinds. Each group lists only files of the listing.
pub proof fn law_listing_groups_by_name(l: ModelListing, names: Seq<String>, i: int)
    requires
        is_listing_of(l, names),
        0 <= i < l.entries@.len(),
    ensures
        ({
            let n = l.entries@[i]@;
            let named_kind = seq_contains_seq(n, "det"@) || seq_contains_seq(n, "rec"@)
                || seq_starts_with(n, "ppocr_keys"@) || seq_contains_seq(n, "ori"@)
                || seq_contains_seq(n, "LCNet"@);
            &&& seq_contains_seq(n, "det"@) ==> arg_views(l.det@).contains(n)
            &&& seq_contains_seq(n, "rec"@) ==> arg_views(l.rec@).contains(n)
            &&& seq_starts_with(n, "ppocr_keys"@) ==> arg_views(l.keys@).contains(n)
            &&& seq_contains_seq(n, "ori"@) ==> arg_views(l.ori@).contains(n)
            &&& seq_contains_seq(n, "LCNet"@) ==> arg_views(l.ori@).contains(n)
            &&& !named_kind ==> arg_views(l.other@).contains(n)
        }),
        forall|k: int|
            0 <= k < l.other@.len() ==> {
                let n = #[trigger] arg_views(l.other@)[k];
                &&& !seq_contains_seq(n, "det"@)
                &&& !seq_contains_seq(n, "rec"@)
                &&& !seq_starts_with(n, "ppocr_keys"@)
                &&& !seq_contains_seq(n, "ori"@)
                &&& !seq_contains_seq(n, "LCNet"@)
            },
        forall|k: int|
            0 <= k < l.ori@.len() ==> {
                let n = #[trigger] arg_views(l.ori@)[k];
                seq_contains_seq(n, "ori"@) || seq_contains_seq(n, "LCNet"@)
            },
        forall|k: int| 0 <= k < l.ori@.len() ==> arg_views(l.entries@).contains(#[trigger] arg_views(l.ori@)[k]),
        forall|k: int| 0 <= k < l.other@.len() ==> arg_views(l.entries@).contains(#[trigger] arg_views(l.other@)[k]),
{
    let e = arg_views(l.entries@);
    let n = e[i];
    if is_det(n) {
        e.lemma_filter_contains(det_pred(), i);
    }
    if is_rec(n) {
        e.lemma_filter_contains(rec_pred(), i);
    }
    if is_keys(n) {
        e.lemma_filter_contains(keys_pred(), i);
    }
    if is_ori(n) {
        e.lemma_filter_contains(ori_pred(), i);
    }
    if is_other(n) {
        e.lemma_filter_contains(other_pred(), i);
    }
    assert forall|k: int| 0 <= k < l.other@.len() implies {
        let n = #[trigger] arg_views(l.other@)[k];
        &&& !seq_contains_seq(n, "det"@)
        &&& !seq_contains_seq(n, "rec"@)
        &&& !seq_starts_with(n, "ppocr_keys"@)
        &&& !seq_contains_seq(n, "ori"@)
        &&& !seq_contains_seq(n, "LCNet"@)
    } by {
        e.lemma_filter_pred(other_pred(), k);
    }
    assert forall|k: int| 0 <= k < l.ori@.len() implies {
        let n = #[trigger] arg_views(l.ori@)[k];
        seq_contains_seq(n, "ori"@) || seq_contains_seq(n, "LCNet"@)
    } by {
        e.lemma_filter_pred(ori_pred(), k);
    }
    assert forall|k: int| 0 <= k < l.ori@.len() implies e.contains(#[trigger] arg_views(l.ori@)[k]) by {
        assert(e.filter(ori_pred()).contains(e.filter(ori_pred())[k]));
        e.lemma_filter_contains_rev(ori_pred(), e.filter(ori_pred())[k]);
    }
    assert forall|k: int| 0 <= k < l.other@.len() implies e.contains(#[trigger] arg_views(l.other@)[k]) by {
        assert(e.filter(other_pred()).contains(e.filter(other_pred())[k]));
        e.lemma_filter_contains_rev(other_pred(), e.filter(other_pred())[k]);
    }
}

/// The generations the listing reports: `v4` when a name contains `v4`;
/// `v5` when a name contains `v5` but not `v4`; `v6` when a name contains
/// `v6` but neither `v4` nor `v5`; each at most once, in ascending order.
pub proof fn law_listing_versions(l: ModelListing, names: Seq<String>)
    requires
        is_listing_of(l, names),
    ensures
        ({
            let e = arg_views(l.entries@);
            &&& l.versions@.contains(ModelVersion::V4) <==> exists|i: int|
                0 <= i < e.len() && seq_contains_seq(#[trigger] e[i], "v4"@)
            &&& l.versions@.contains(ModelVersion::V5) <==> exists|i: int|
                0 <= i < e.len() && seq_contains_seq(#[trigger] e[i], "v5"@) && !seq_contains_seq(e[i], "v4"@)
            &&& l.versions@.contains(ModelVersion::V6) <==> exists|i: int|
                0 <= i < e.len() && seq_contains_seq(#[trigger] e[i], "v6"@) && !seq_contains_seq(e[i], "v4"@)
                    && !seq_contains_seq(e[i], "v5"@)
            &&& l.versions@.no_duplicates()
            &&& forall|a: int, b: int| 0 <= a < b < l.versions@.len() ==>
                version_rank(#[trigger] l.versions@[a]) < version_rank(#[trigger] l.versions@[b])
        }),
{
    let e = arg_views(l.entries@);
    if exists|i: int| 0 <= i < e.len() && seq_contains_seq(#[trigger] e[i], "v4"@) {
        let i = choose|i: int| 0 <= i < e.len() && seq_contains_seq(#[trigger] e[i], "v4"@);
        assert(version_tag(e[i]) == Some(ModelVersion::V4));
    }
    if exists|i: int| 0 <= i < e.len() && seq_contains_seq(#[trigger] e[i], "v5"@) && !seq_contains_seq(e[i], "v4"@) {
        let i = choose|i: int| 0 <= i < e.len() && seq_contains_seq(#[trigger] e[i], "v5"@) && !seq_contains_seq(e[i], "v4"@);
        assert(version_tag(e[i]) == Some(ModelVersion::V5));
    }
    if exists|i: int| 0 <= i < e.len() && seq_contains_seq(#[trigger] e[i], "v6"@) && !seq_contains_seq(e[i], "v4"@)
        && !seq_contains_seq(e[i], "v5"@) {
        let i = choose|i: int| 0 <= i < e.len() && seq_contains_seq(#[trigger] e[i], "v6"@) && !seq_contains_seq(e[i], "v4"@)
            && !seq_contains_seq(e[i], "v5"@);
        assert(version_tag(e[i]) == Some(ModelVersion::V6));
    }
    if mentions_version(e, ModelVersion::V4) {
        let i = choose|i: int| 0 <= i < e.len() && version_tag(#[trigger] e[i]) == Some(ModelVersion::V4);
        assert(seq_contains_seq(e[i], "v4"@));
    }
    if mentions_version(e, ModelVersion::V5) {
        let i = choose|i: int| 0 <= i < e.len() && version_tag(#[trigger] e[i]) == Some(ModelVersion::V5);
        assert(seq_contains_seq(e[i], "v5"@) && !seq_contains_seq(e[i], "v4"@));
    }
    if mentions_version(e, ModelVersion::V6) {
        let i = choose|i: int| 0 <= i < e.len() && version_tag(#[trigger] e[i]) == Some(ModelVersion::V6);
        assert(seq_contains_seq(e[i], "v6"@) && !seq_contains_seq(e[i], "v4"@) && !seq_contains_seq(e[i], "v5"@));
    }
    lemma_versions_shape(
        mentions_version(e, ModelVersion::V4),
        mentions_version(e, ModelVersion::V5),
        mentions_version(e, ModelVersion::V6),
        l.versions@,
    );
}

proof fn lemma_versions_shape(b4: bool, b5: bool, b6: bool, v: Seq<ModelVersion>)
    requires
        v == (if b4 { seq![ModelVersion::V4] } else { Seq::empty() })
            + (if b5 { seq![ModelVersion::V5] } else { Seq::empty() })
            + (if b6 { seq![ModelVersion::V6] } else { Seq::empty() }),
    ensures
        v.contains(ModelVersion::V4) <==> b4,
        v.contains(ModelVersion::V5) <==> b5,
        v.contains(ModelVersion::V6) <==> b6,
        v.no_duplicates(),
        forall|a: int, b: int| 0 <= a < b < v.len() ==> version_rank(#[trigger] v[a]) < version_rank(#[trigger] v[b]),
{
    assert forall|a: int, b: int| 0 <= a < b < v.len() implies version_rank(#[trigger] v[a]) < version_rank(#[trigger] v[b]) by {
        if b4 && b5 && b6 {
            assert(v =~= seq![ModelVersion::V4, ModelVersion::V5, ModelVersion::V6]);
        } else if b4 && b5 {
            assert(v =~= seq![ModelVersion::V4, ModelVersion::V5]);
        } else if b4 && b6 {
            assert(v =~= seq![ModelVersion::V4, ModelVersion::V6]);
        } else if b5 && b6 {
            assert(v =~= seq![ModelVersion::V5, ModelVersion::V6]);
        }
    }
    if b4 {
        assert(v[0] == ModelVersion::V4);
    }
    if b5 {
        assert(v[if b4 { 1int } else { 0int }] == ModelVersion::V5);
    }
    if b6 {
        assert(v[v.len() - 1] == ModelVersion::V6);
    }
    assert forall|a: int| 0 <= a < v.len() implies (v[a] == ModelVersion::V4 ==> b4) && (v[a] == ModelVersion::V5 ==> b5)
        && (v[a] == ModelVersion::V6 ==> b6) by {
        if b4 && b5 && b6 {
            assert(v =~= seq![ModelVersion::V4, ModelVersion::V5, ModelVersion::V6]);
        } else if b4 && b5 {
            assert(v =~= seq![ModelVersion::V4, ModelVersion::V5]);
        } else if b4 && b6 {
            assert(v =~= seq![ModelVersion::V4, ModelVersion::V6]);
        } else if b5 && b6 {
            assert(v =~= seq![ModelVersion::V5, ModelVersion::V6]);
        } else if b4 {
            assert(v =~= seq![ModelVersion::V4]);
        } else if b5 {
            assert(v =~= seq![ModelVersion::V5]);
        } else if b6 {
            assert(v =~= seq![ModelVersion::V6]);
        }
    }
    assert forall|a: int, b: int| 0 <= a < v.len() && 0 <= b < v.len() && a != b implies v[a] != v[b] by {
        if a < b {
            assert(version_rank(v[a]) < version_rank(v[b]));
        } else {
            assert(version_rank(v[b]) < version_rank(v[a]));
        }
    }
}

/// The ascending order of model generations.
pub open spec fn version_rank(v: ModelVersion) -> int {
    match v {
        ModelVersion::V4 => 4,
        ModelVersion::V5 => 5,
        ModelVersion::V6 => 6,
    }
}

} // verus!
