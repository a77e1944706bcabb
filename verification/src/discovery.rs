//! License-text discovery and confidence scoring: finds the files of a
//! package whose names plausibly hold a license text and scores each against
//! the license's reference template.

use vstd::prelude::*;
use vstd::string::StringExecFns;

use crate::license::{template_of, License, LicenseV};

verus! {

/// How well a discovered text matches the reference template. Only
/// `Confident`, `SemiConfident`, `Unsure`, `NoTemplate` and
/// `MissingLicenseFile` are comparison outcomes; the other two are
/// informational tags.
#[derive(Debug, Clone, Copy, PartialEq, Eq, Structural)]
pub enum Confidence {
    MultiplePossibleLicenseFiles,
    MissingLicenseFile,
    Confident,
    SemiConfident,
    Unsure,
    NoTemplate,
    UnspecifiedLicenseInPackage,
}

/// A per-file failure while scanning a package's sources. Listing the
/// directory itself is fatal to the scan and reported through this error.
#[derive(Debug)]
pub enum DiscoveryError {
    Io(String),
}

/// A discovered candidate license text.
#[derive(Debug)]
pub struct LicenseText {
    /// Where the text was found.
    pub path: String,
    /// The file's full contents.
    pub text: String,
    /// How well the contents match the license's template.
    pub confidence: Confidence,
}

/// The mathematical shape of a [`LicenseText`].
pub struct LicenseTextV {
    pub path: Seq<char>,
    pub text: Seq<char>,
    pub confidence: Confidence,
}

impl View for LicenseText {
    type V = LicenseTextV;

    open spec fn view(&self) -> LicenseTextV {
        LicenseTextV { path: self.path@, text: self.text@, confidence: self.confidence }
    }
}

/// The word tokens of a text: each maximal run of word characters, in order.
pub uninterp spec fn word_tokens(s: Seq<char>) -> Seq<Seq<char>>;

/// Relies on `regex::Regex` with the fixed pattern `\w+` (which always
/// compiles) and `find_iter`: each maximal run of word characters, in order.
/// The result depends on the text alone.
#[verifier::external_body]
fn split_word_tokens(text: &str) -> (r: Vec<String>)
    ensures
        r.deep_view() == word_tokens(text@),
{
    let re = regex::Regex::new(r"\w+").unwrap();
    re.find_iter(text).map(|m| m.as_str().to_string()).collect()
}

/// The case-folded form of a string.
pub uninterp spec fn lower_of(s: Seq<char>) -> Seq<char>;

/// Relies on `str::to_lowercase`: the result depends on the characters
/// alone.
#[verifier::external_body]
fn lowercase_text(s: &str) -> (r: String)
    ensures
        r@ == lower_of(s@),
{
    s.to_lowercase()
}

/// The upper-cased form of a string.
pub uninterp spec fn upper_of(s: Seq<char>) -> Seq<char>;

/// Relies on `str::to_uppercase`: the result depends on the characters
/// alone.
#[verifier::external_body]
fn uppercase_text(s: &str) -> (r: String)
    ensures
        r@ == upper_of(s@),
{
    s.to_uppercase()
}

/// The case-folded word tokens of a text: what frequency counting works on.
pub open spec fn lowered_tokens(s: Seq<char>) -> Seq<Seq<char>> {
    word_tokens(s).map_values(|w: Seq<char>| lower_of(w))
}

/// Tokenizes a text and case-folds each token.
fn lowered_word_tokens(text: &str) -> (r: Vec<String>)
    ensures
        r.deep_view() == lowered_tokens(text@),
{
    let toks = split_word_tokens(text);
    let ghost wt = word_tokens(text@);
    let mut r: Vec<String> = Vec::new();
    let mut i: usize = 0;
    while i < toks.len()
        invariant
            toks.deep_view() == wt,
            wt.len() == toks@.len(),
            0 <= i <= toks@.len(),
            r@.len() == i,
            forall|k: int| 0 <= k < i ==> #[trigger] r@[k]@ == lower_of(wt[k]),
        decreases toks@.len() - i,
    {
        proof {
            assert(toks.deep_view()[i as int] == toks@[i as int]@);
        }
        r.push(lowercase_text(toks[i].as_str()));
        i += 1;
    }
    proof {
        assert forall|k: int| 0 <= k < r@.len() implies r.deep_view()[k] == lowered_tokens(
            text@,
        )[k] by {
            assert(r.deep_view()[k] == r@[k]@);
        }
        assert(r.deep_view() =~= lowered_tokens(text@));
    }
    r
}

/// How often a word occurs in a token sequence.
pub open spec fn count_of(toks: Seq<Seq<char>>, w: Seq<char>) -> nat
    decreases toks.len(),
{
    if toks.len() == 0 {
        0
    } else {
        count_of(toks.drop_last(), w) + if toks.last() == w {
            1nat
        } else {
            0nat
        }
    }
}

/// A word's occurrence count never exceeds the number of tokens.
pub proof fn lemma_count_le_len(toks: Seq<Seq<char>>, w: Seq<char>)
    ensures
        count_of(toks, w) <= toks.len(),
    decreases toks.len(),
{
    if toks.len() > 0 {
        lemma_count_le_len(toks.drop_last(), w);
    }
}

/// One step of frequency building: the first entry for the word is bumped,
/// or a fresh entry is appended.
pub open spec fn bump(fr: Seq<(Seq<char>, u64)>, w: Seq<char>) -> Seq<(Seq<char>, u64)>
    decreases fr.len(),
{
    if fr.len() == 0 {
        seq![(w, 1u64)]
    } else if fr[0].0 == w {
        seq![(fr[0].0, (fr[0].1 + 1) as u64)] + fr.drop_first()
    } else {
        seq![fr[0]] + bump(fr.drop_first(), w)
    }
}

/// The word-to-count table of a token sequence, keys in first-seen order.
pub open spec fn build_freq(toks: Seq<Seq<char>>) -> Seq<(Seq<char>, u64)>
    decreases toks.len(),
{
    if toks.len() == 0 {
        Seq::empty()
    } else {
        bump(build_freq(toks.drop_last()), toks.last())
    }
}

/// The count stored for a word, zero when absent.
pub open spec fn assoc_get(fr: Seq<(Seq<char>, u64)>, w: Seq<char>) -> u64
    decreases fr.len(),
{
    if fr.len() == 0 {
        0
    } else if fr[0].0 == w {
        fr[0].1
    } else {
        assoc_get(fr.drop_first(), w)
    }
}

/// A word has an entry exactly when its stored count is consulted.
pub open spec fn assoc_has(fr: Seq<(Seq<char>, u64)>, w: Seq<char>) -> bool
    decreases fr.len(),
{
    if fr.len() == 0 {
        false
    } else {
        fr[0].0 == w || assoc_has(fr.drop_first(), w)
    }
}

proof fn lemma_bump_get(fr: Seq<(Seq<char>, u64)>, w: Seq<char>, v: Seq<char>)
    requires
        assoc_get(fr, w) < u64::MAX,
    ensures
        assoc_get(bump(fr, w), v) == if v == w {
            (assoc_get(fr, v) + 1) as u64
        } else {
            assoc_get(fr, v)
        },
        assoc_has(bump(fr, w), v) == (v == w || assoc_has(fr, v)),
    decreases fr.len(),
{
    if fr.len() == 0 {
        let b = bump(fr, w);
        assert(b == seq![(w, 1u64)]);
        assert(b[0] == (w, 1u64));
        assert(b.drop_first() =~= Seq::<(Seq<char>, u64)>::empty());
        assert(assoc_get(b.drop_first(), v) == 0);
        assert(assoc_has(b.drop_first(), v) == false);
    } else if fr[0].0 == w {
        let b = bump(fr, w);
        assert(b[0] == (fr[0].0, (fr[0].1 + 1) as u64));
        assert(b.drop_first() =~= fr.drop_first());
        if fr[0].0 != v {
            assert(assoc_get(fr, v) == assoc_get(fr.drop_first(), v));
            assert(assoc_get(b, v) == assoc_get(b.drop_first(), v));
        }
    } else {
        lemma_bump_get(fr.drop_first(), w, v);
        let b = bump(fr, w);
        assert(b[0] == fr[0]);
        assert(b.drop_first() =~= bump(fr.drop_first(), w));
    }
}

/// The frequency table of a token sequence stores exactly the occurrence
/// counts, and has an entry exactly for the words that occur.
pub proof fn lemma_build_freq_get(toks: Seq<Seq<char>>, v: Seq<char>)
    requires
        toks.len() < u64::MAX,
    ensures
        assoc_get(build_freq(toks), v) as nat == count_of(toks, v),
        assoc_has(build_freq(toks), v) == (count_of(toks, v) > 0),
    decreases toks.len(),
{
    if toks.len() > 0 {
        lemma_build_freq_get(toks.drop_last(), v);
        lemma_build_freq_get(toks.drop_last(), toks.last());
        lemma_count_le_len(toks.drop_last(), toks.last());
        lemma_bump_get(build_freq(toks.drop_last()), toks.last(), v);
    }
}

proof fn lemma_assoc_get_at(fr: Seq<(Seq<char>, u64)>, w: Seq<char>, j: int)
    requires
        0 <= j < fr.len(),
        fr[j].0 == w,
        forall|k: int| 0 <= k < j ==> (#[trigger] fr[k]).0 != w,
    ensures
        assoc_get(fr, w) == fr[j].1,
        assoc_has(fr, w),
    decreases j,
{
    if j > 0 {
        lemma_assoc_get_at(fr.drop_first(), w, j - 1);
    }
}

proof fn lemma_assoc_none(fr: Seq<(Seq<char>, u64)>, w: Seq<char>)
    requires
        forall|k: int| 0 <= k < fr.len() ==> (#[trigger] fr[k]).0 != w,
    ensures
        assoc_get(fr, w) == 0,
        !assoc_has(fr, w),
    decreases fr.len(),
{
    if fr.len() > 0 {
        lemma_assoc_none(fr.drop_first(), w);
    }
}

proof fn lemma_bump_at(fr: Seq<(Seq<char>, u64)>, w: Seq<char>, j: int)
    requires
        0 <= j < fr.len(),
        fr[j].0 == w,
        forall|k: int| 0 <= k < j ==> (#[trigger] fr[k]).0 != w,
    ensures
        bump(fr, w) == fr.update(j, (fr[j].0, (fr[j].1 + 1) as u64)),
    decreases j,
{
    if j == 0 {
        assert(bump(fr, w) =~= fr.update(0, (fr[0].0, (fr[0].1 + 1) as u64)));
    } else {
        lemma_bump_at(fr.drop_first(), w, j - 1);
        assert(fr.drop_first().update(j - 1, (fr[j].0, (fr[j].1 + 1) as u64)) =~= fr.update(
            j,
            (fr[j].0, (fr[j].1 + 1) as u64),
        ).drop_first());
        assert(bump(fr, w) =~= seq![fr[0]] + bump(fr.drop_first(), w));
        assert(bump(fr, w) =~= fr.update(j, (fr[j].0, (fr[j].1 + 1) as u64)));
    }
}

proof fn lemma_bump_none(fr: Seq<(Seq<char>, u64)>, w: Seq<char>)
    requires
        forall|k: int| 0 <= k < fr.len() ==> (#[trigger] fr[k]).0 != w,
    ensures
        bump(fr, w) == fr.push((w, 1u64)),
    decreases fr.len(),
{
    if fr.len() == 0 {
        assert(bump(fr, w) =~= fr.push((w, 1u64)));
    } else {
        lemma_bump_none(fr.drop_first(), w);
        assert(bump(fr, w) =~= seq![fr[0]] + fr.drop_first().push((w, 1u64)));
        assert(bump(fr, w) =~= fr.push((w, 1u64)));
    }
}

/// Finds the first entry for a word.
fn freq_index(fr: &Vec<(String, u64)>, w: &str) -> (r: Option<usize>)
    ensures
        match r {
            Some(j) => 0 <= j < fr@.len() && fr.deep_view()[j as int].0 == w@ && forall|k: int|
                0 <= k < j ==> (#[trigger] fr.deep_view()[k]).0 != w@,
            None => forall|k: int|
                0 <= k < fr@.len() ==> (#[trigger] fr.deep_view()[k]).0 != w@,
        },
{
    let mut i: usize = 0;
    while i < fr.len()
        invariant
            0 <= i <= fr@.len(),
            forall|k: int| 0 <= k < i ==> (#[trigger] fr.deep_view()[k]).0 != w@,
        decreases fr@.len() - i,
    {
        if crate::text::str_eq(fr[i].0.as_str(), w) {
            proof {
                assert(fr.deep_view()[i as int].0 == fr@[i as int].0@);
            }
            return Some(i);
        }
        proof {
            assert(fr.deep_view()[i as int].0 == fr@[i as int].0@);
        }
        i += 1;
    }
    None
}

/// The stored count of a word, zero when absent.
fn freq_get(fr: &Vec<(String, u64)>, w: &str) -> (r: u64)
    ensures
        r == assoc_get(fr.deep_view(), w@),
{
    match freq_index(fr, w) {
        Some(j) => {
            proof {
                lemma_assoc_get_at(fr.deep_view(), w@, j as int);
            }
            fr[j].1
        },
        None => {
            proof {
                lemma_assoc_none(fr.deep_view(), w@);
            }
            0
        },
    }
}

/// Whether a word has an entry.
fn freq_has(fr: &Vec<(String, u64)>, w: &str) -> (r: bool)
    ensures
        r == assoc_has(fr.deep_view(), w@),
{
    match freq_index(fr, w) {
        Some(j) => {
            proof {
                lemma_assoc_get_at(fr.deep_view(), w@, j as int);
            }
            true
        },
        None => {
            proof {
                lemma_assoc_none(fr.deep_view(), w@);
            }
            false
        },
    }
}

/// Builds the word-to-count table of a token list, keys in first-seen order.
pub fn calculate_frequency(toks: &Vec<String>) -> (r: Vec<(String, u64)>)
    ensures
        r.deep_view() == build_freq(toks.deep_view()),
{
    let ghost dv = toks.deep_view();
    let mut fr: Vec<(String, u64)> = Vec::new();
    let mut i: usize = 0;
    proof {
        assert(fr.deep_view() =~= build_freq(dv.take(0)));
    }
    while i < toks.len()
        invariant
            dv == toks.deep_view(),
            dv.len() == toks@.len(),
            0 <= i <= toks@.len(),
            fr.deep_view() == build_freq(dv.take(i as int)),
        decreases toks@.len() - i,
    {
        let ghost fs = fr.deep_view();
        let w = toks[i].as_str();
        proof {
            assert(dv[i as int] == toks@[i as int]@);
            assert(dv.take(i + 1).drop_last() =~= dv.take(i as int));
            assert(dv.take(i + 1).last() == dv[i as int]);
        }
        match freq_index(&fr, w) {
            Some(j) => {
                proof {
                    lemma_assoc_get_at(fs, w@, j as int);
                    lemma_build_freq_get(dv.take(i as int), w@);
                    lemma_count_le_len(dv.take(i as int), w@);
                    lemma_bump_at(fs, w@, j as int);
                }
                let ghost pre = fr@;
                let entry = fr.remove(j);
                let c = entry.1;
                fr.insert(j, (entry.0, c + 1));
                proof {
                    assert(fr@ =~= pre.update(j as int, (pre[j as int].0, (pre[j as int].1
                        + 1) as u64)));
                    assert forall|k: int| 0 <= k < fr@.len() implies fr.deep_view()[k] == bump(
                        fs,
                        w@,
                    )[k] by {
                        assert(fr.deep_view()[k] == (fr@[k].0@, fr@[k].1));
                        assert(fs[k] == (pre[k].0@, pre[k].1));
                    }
                    assert(fr.deep_view() =~= bump(fs, w@));
                }
            },
            None => {
                proof {
                    lemma_bump_none(fs, w@);
                }
                fr.push((String::from_str(w), 1));
                proof {
                    assert forall|k: int| 0 <= k < fr@.len() implies fr.deep_view()[k] == bump(
                        fs,
                        w@,
                    )[k] by {}
                    assert(fr.deep_view() =~= bump(fs, w@));
                }
            },
        }
        i += 1;
    }
    proof {
        assert(dv.take(dv.len() as int) =~= dv);
    }
    fr
}

/// The absolute difference of two counts.
pub open spec fn abs_diff(a: u64, b: u64) -> int {
    if a >= b {
        a - b
    } else {
        b - a
    }
}

/// The template side of the error total: for each template word, how far the
/// text's count is from the template's.
pub open spec fn sum_diffs(tmpl: Seq<(Seq<char>, u64)>, text: Seq<(Seq<char>, u64)>) -> int
    decreases tmpl.len(),
{
    if tmpl.len() == 0 {
        0
    } else {
        sum_diffs(tmpl.drop_last(), text) + abs_diff(assoc_get(text, tmpl.last().0), tmpl.last().1)
    }
}

/// The text side of the error total: words of the text that the template
/// never uses contribute their full count.
pub open spec fn sum_extras(text: Seq<(Seq<char>, u64)>, tmpl: Seq<(Seq<char>, u64)>) -> int
    decreases text.len(),
{
    if text.len() == 0 {
        0
    } else {
        sum_extras(text.drop_last(), tmpl) + if assoc_has(tmpl, text.last().0) {
            0
        } else {
            text.last().1 as int
        }
    }
}

/// The scorer's error total between a text's and a template's word counts.
pub open spec fn spec_errors(text: Seq<(Seq<char>, u64)>, tmpl: Seq<(Seq<char>, u64)>) -> int {
    sum_diffs(tmpl, text) + sum_extras(text, tmpl)
}

/// The error total clamped at `u64::MAX`; every confidence threshold lies
/// far below the clamp.
pub open spec fn cap_errors(e: int) -> int {
    if e > u64::MAX as int {
        u64::MAX as int
    } else {
        e
    }
}

/// Sums the error total between two frequency tables, saturating at
/// `u64::MAX`.
pub fn compare(text_fr: &Vec<(String, u64)>, tmpl_fr: &Vec<(String, u64)>) -> (errors: u64)
    ensures
        errors as int == cap_errors(spec_errors(text_fr.deep_view(), tmpl_fr.deep_view())),
{
    let ghost txs = text_fr.deep_view();
    let ghost tms = tmpl_fr.deep_view();
    let mut errors: u64 = 0;
    let mut j: usize = 0;
    proof {
        assert(tms.take(0) =~= Seq::<(Seq<char>, u64)>::empty());
    }
    while j < tmpl_fr.len()
        invariant
            txs == text_fr.deep_view(),
            tms == tmpl_fr.deep_view(),
            tms.len() == tmpl_fr@.len(),
            0 <= j <= tmpl_fr@.len(),
            errors as int == cap_errors(sum_diffs(tms.take(j as int), txs)),
        decreases tmpl_fr@.len() - j,
    {
        let key = &tmpl_fr[j].0;
        let c = tmpl_fr[j].1;
        let tc = freq_get(text_fr, key.as_str());
        let diff: u64 = if tc >= c {
            tc - c
        } else {
            c - tc
        };
        proof {
            assert(tms[j as int] == (tmpl_fr@[j as int].0@, tmpl_fr@[j as int].1));
            assert(tms.take(j + 1).drop_last() =~= tms.take(j as int));
            assert(tms.take(j + 1).last() == tms[j as int]);
        }
        if diff > u64::MAX - errors {
            errors = u64::MAX;
        } else {
            errors = errors + diff;
        }
        j += 1;
    }
    proof {
        assert(tms.take(tms.len() as int) =~= tms);
    }
    let ghost base = sum_diffs(tms, txs);
    let mut k: usize = 0;
    proof {
        assert(txs.take(0) =~= Seq::<(Seq<char>, u64)>::empty());
    }
    while k < text_fr.len()
        invariant
            txs == text_fr.deep_view(),
            tms == tmpl_fr.deep_view(),
            txs.len() == text_fr@.len(),
            0 <= k <= text_fr@.len(),
            base == sum_diffs(tms, txs),
            errors as int == cap_errors(base + sum_extras(txs.take(k as int), tms)),
        decreases text_fr@.len() - k,
    {
        let key = &text_fr[k].0;
        let c = text_fr[k].1;
        let present = freq_has(tmpl_fr, key.as_str());
        proof {
            assert(txs[k as int] == (text_fr@[k as int].0@, text_fr@[k as int].1));
            assert(txs.take(k + 1).drop_last() =~= txs.take(k as int));
            assert(txs.take(k + 1).last() == txs[k as int]);
        }
        if !present {
            if c > u64::MAX - errors {
                errors = u64::MAX;
            } else {
                errors = errors + c;
            }
        }
        k += 1;
    }
    proof {
        assert(txs.take(txs.len() as int) =~= txs);
    }
    errors
}

/// The confidence tier of a text's tokens against a template's tokens: the
/// error total over the number of template tokens, cut at one tenth and at
/// three twentieths. A template without tokens never scores better than
/// `Unsure`.
pub open spec fn confidence_of_tokens(text: Seq<Seq<char>>, tmpl: Seq<Seq<char>>) -> Confidence {
    let errors = spec_errors(build_freq(text), build_freq(tmpl));
    let total = tmpl.len() as int;
    if 10 * errors < total {
        Confidence::Confident
    } else if 20 * errors < 3 * total {
        Confidence::SemiConfident
    } else {
        Confidence::Unsure
    }
}

/// Scores a text's tokens against a template's tokens.
fn score_tokens(text_toks: &Vec<String>, tmpl_toks: &Vec<String>) -> (r: Confidence)
    ensures
        r == confidence_of_tokens(text_toks.deep_view(), tmpl_toks.deep_view()),
{
    let text_fr = calculate_frequency(text_toks);
    let tmpl_fr = calculate_frequency(tmpl_toks);
    let errors = compare(&text_fr, &tmpl_fr);
    let total = tmpl_toks.len();
    let ghost e = spec_errors(text_fr.deep_view(), tmpl_fr.deep_view());
    proof {
        assert(total as int <= u64::MAX as int);
        if e > u64::MAX as int {
            assert(!(10 * e < total as int));
            assert(!(20 * e < 3 * (total as int)));
        }
    }
    if (10 as u128) * (errors as u128) < (total as u128) {
        Confidence::Confident
    } else if (20 as u128) * (errors as u128) < (3 as u128) * (total as u128) {
        Confidence::SemiConfident
    } else {
        Confidence::Unsure
    }
}

/// The union of the member templates' tokens, or nothing when any member
/// lacks a template.
pub open spec fn multi_template_tokens(ls: Seq<LicenseV>) -> Option<Seq<Seq<char>>>
    decreases ls.len(),
{
    if ls.len() == 0 {
        Some(Seq::empty())
    } else {
        match (multi_template_tokens(ls.drop_last()), template_of(ls.last())) {
            (Some(acc), Some(t)) => Some(acc + lowered_tokens(t)),
            _ => None,
        }
    }
}

/// A member without a template degrades the whole union.
proof fn lemma_multi_none(ls: Seq<LicenseV>, i: int)
    requires
        0 <= i < ls.len(),
        template_of(ls[i]) is None,
    ensures
        multi_template_tokens(ls) is None,
    decreases ls.len(),
{
    if i < ls.len() - 1 {
        assert(ls.drop_last()[i] == ls[i]);
        lemma_multi_none(ls.drop_last(), i);
    }
}

/// The template tokens a license is scored against: its own template's
/// tokens, or for `Multiple` the union of the members'.
pub open spec fn template_tokens_of(l: LicenseV) -> Option<Seq<Seq<char>>> {
    match l {
        LicenseV::Multiple(ls) => multi_template_tokens(ls),
        _ => match template_of(l) {
            Some(t) => Some(lowered_tokens(t)),
            None => None,
        },
    }
}

/// How confidently a text body matches a license: `NoTemplate` when the
/// license carries none, otherwise the tiered word-frequency score.
pub open spec fn confidence_of(text: Seq<char>, l: LicenseV) -> Confidence {
    match template_tokens_of(l) {
        Some(tm) => confidence_of_tokens(lowered_tokens(text), tm),
        None => Confidence::NoTemplate,
    }
}

/// Scores one text body against a license's template(s).
pub fn check_against_template(text: &str, license: &License) -> (r: Confidence)
    ensures
        r == confidence_of(text@, license@),
{
    let text_toks = lowered_word_tokens(text);
    match license {
        License::Multiple(ls) => {
            proof {
                crate::license::lemma_lic_views_index(ls@);
            }
            let ghost lv = crate::license::lic_views(ls@);
            let mut acc: Vec<String> = Vec::new();
            let mut i: usize = 0;
            proof {
                assert(lv.take(0) =~= Seq::<LicenseV>::empty());
                assert(acc.deep_view() =~= Seq::<Seq<char>>::empty());
            }
            while i < ls.len()
                invariant
                    license@ == LicenseV::Multiple(lv),
                    lv == crate::license::lic_views(ls@),
                    lv.len() == ls@.len(),
                    forall|k: int|
                        0 <= k < ls@.len() ==> lv[k] == crate::license::lic_view(
                            #[trigger] ls@[k],
                        ),
                    0 <= i <= ls@.len(),
                    multi_template_tokens(lv.take(i as int)) == Some(acc.deep_view()),
                decreases ls@.len() - i,
            {
                let member = &ls[i];
                proof {
                    assert(lv.take(i + 1).drop_last() =~= lv.take(i as int));
                    assert(lv.take(i + 1).last() == lv[i as int]);
                }
                if let License::Multiple(_) = member {
                    proof {
                        assert(*member == ls@[i as int]);
                        assert(lv[i as int] == crate::license::lic_view(*member));
                        assert(lv[i as int] is Multiple);
                        lemma_multi_none(lv, i as int);
                    }
                    return Confidence::NoTemplate;
                }
                match member.template() {
                    Some(t) => {
                        let mut toks = lowered_word_tokens(t.as_str());
                        let ghost acc_old = acc.deep_view();
                        let ghost toks_v = toks.deep_view();
                        acc.append(&mut toks);
                        proof {
                            assert forall|k: int| 0 <= k < acc@.len() implies acc.deep_view()[k]
                                == (acc_old + toks_v)[k] by {
                                assert(acc.deep_view()[k] == acc@[k]@);
                            }
                            assert(acc.deep_view() =~= acc_old + toks_v);
                        }
                    },
                    None => {
                        proof {
                            assert(*member == ls@[i as int]);
                            assert(lv[i as int] == crate::license::lic_view(*member));
                            lemma_multi_none(lv, i as int);
                        }
                        return Confidence::NoTemplate;
                    },
                }
                i += 1;
            }
            proof {
                assert(lv.take(lv.len() as int) =~= lv);
            }
            score_tokens(&text_toks, &acc)
        },
        _ => {
            match license.template() {
                Some(t) => {
                    let tmpl_toks = lowered_word_tokens(t.as_str());
                    score_tokens(&text_toks, &tmpl_toks)
                },
                None => Confidence::NoTemplate,
            }
        },
    }
}

/// A slug matches a synonym directly or in one of the combined forms a
/// license file is usually named after.
pub open spec fn combo_match(name: Seq<char>, lic: Seq<char>) -> bool {
    ||| name == lic
    ||| name == "license-"@ + lic
    ||| name == "license-"@ + lic + "-md"@
    ||| name == "license-"@ + lic + "-txt"@
    ||| name == lic + "-license"@
    ||| name == lic + "-license-md"@
    ||| name == lic + "-license-txt"@
}

/// Executable decision for [`combo_match`].
fn combo_match_exec(name: &str, lic: &str) -> (r: bool)
    ensures
        r == combo_match(name@, lic@),
{
    if crate::text::str_eq(name, lic) {
        return true;
    }
    let front = String::from_str("license-").concat(lic);
    if crate::text::str_eq(name, front.as_str()) {
        return true;
    }
    let front_md = front.clone().concat("-md");
    if crate::text::str_eq(name, front_md.as_str()) {
        return true;
    }
    let front_txt = front.concat("-txt");
    if crate::text::str_eq(name, front_txt.as_str()) {
        return true;
    }
    let back = String::from_str(lic).concat("-license");
    if crate::text::str_eq(name, back.as_str()) {
        return true;
    }
    let back_md = String::from_str(lic).concat("-license-md");
    if crate::text::str_eq(name, back_md.as_str()) {
        return true;
    }
    let back_txt = String::from_str(lic).concat("-license-txt");
    if crate::text::str_eq(name, back_txt.as_str()) {
        return true;
    }
    false
}

/// A file name plausibly holds this license's text: its slug matches one of
/// the license's synonyms (or, for `Custom`, the slug of the custom text) in
/// one of the usual combined forms.
pub open spec fn name_matches_spec(fname: Seq<char>, l: LicenseV) -> bool {
    let name = crate::license::slug_of(fname);
    match l {
        LicenseV::Custom(c) => combo_match(name, crate::license::slug_of(c)),
        _ => exists|i: int|
            0 <= i < crate::license::synonyms_of(l).len() && combo_match(
                name,
                crate::license::synonyms_of(l)[i],
            ),
    }
}

/// Executable decision for [`name_matches_spec`].
fn name_matches(fname: &str, license: &License) -> (r: bool)
    ensures
        r == name_matches_spec(fname@, license@),
{
    let name = crate::license::slugify_text(fname);
    match license {
        License::Custom(c) => {
            let custom = crate::license::slugify_text(c.as_str());
            combo_match_exec(name.as_str(), custom.as_str())
        },
        _ => {
            let syns = license.synonyms();
            let ghost sv = crate::license::synonyms_of(license@);
            let mut i: usize = 0;
            while i < syns.len()
                invariant
                    sv == crate::license::synonyms_of(license@),
                    syns.deep_view() == sv,
                    sv.len() == syns@.len(),
                    name@ == crate::license::slug_of(fname@),
                    !(license@ is Custom),
                    0 <= i <= syns@.len(),
                    forall|k: int| 0 <= k < i ==> !combo_match(name@, #[trigger] sv[k]),
                decreases syns@.len() - i,
            {
                proof {
                    assert(syns.deep_view()[i as int] == syns@[i as int]@);
                }
                if combo_match_exec(name.as_str(), syns[i].as_str()) {
                    proof {
                        assert(0 <= i < crate::license::synonyms_of(license@).len() && combo_match(
                            crate::license::slug_of(fname@),
                            crate::license::synonyms_of(license@)[i as int],
                        ));
                    }
                    return true;
                }
                i += 1;
            }
            false
        },
    }
}

/// A file name that is generically a license file, whatever the license.
pub open spec fn generic_name_spec(fname: Seq<char>) -> bool {
    let u = upper_of(fname);
    ||| u == "LICENSE"@
    ||| u == "LICENCE"@
    ||| u == "LICENSE.MD"@
    ||| u == "LICENSE.TXT"@
    ||| u == "COPYING"@
}

/// Executable decision for [`generic_name_spec`].
fn generic_license_name(fname: &str) -> (r: bool)
    ensures
        r == generic_name_spec(fname@),
{
    let u = uppercase_text(fname);
    crate::text::str_eq(u.as_str(), "LICENSE") || crate::text::str_eq(u.as_str(), "LICENCE")
        || crate::text::str_eq(u.as_str(), "LICENSE.MD") || crate::text::str_eq(
        u.as_str(),
        "LICENSE.TXT",
    ) || crate::text::str_eq(u.as_str(), "COPYING")
}

/// One file of a package's source directory, as handed to discovery: its
/// bare name, its path and its contents. Files that could not be read are
/// omitted by the caller.
#[derive(Debug)]
pub struct SourceFile {
    pub name: String,
    pub path: String,
    pub text: String,
}

/// The mathematical shape of a [`SourceFile`].
pub struct SourceFileV {
    pub name: Seq<char>,
    pub path: Seq<char>,
    pub text: Seq<char>,
}

impl View for SourceFile {
    type V = SourceFileV;

    open spec fn view(&self) -> SourceFileV {
        SourceFileV { name: self.name@, path: self.path@, text: self.text@ }
    }
}

/// The views of a list of source files.
pub open spec fn file_views(files: Seq<SourceFile>) -> Seq<SourceFileV> {
    files.map_values(|f: SourceFile| f@)
}

/// The views of a list of discovered texts.
pub open spec fn text_views(texts: Seq<LicenseText>) -> Seq<LicenseTextV> {
    texts.map_values(|t: LicenseText| t@)
}

/// The scored candidate for one file.
pub open spec fn scored_file(f: SourceFileV, l: LicenseV) -> LicenseTextV {
    LicenseTextV { path: f.path, text: f.text, confidence: confidence_of(f.text, l) }
}

/// The files whose names match the license, each scored, in input order.
pub open spec fn matched_texts(files: Seq<SourceFileV>, l: LicenseV) -> Seq<LicenseTextV>
    decreases files.len(),
{
    if files.len() == 0 {
        Seq::empty()
    } else {
        let rest = matched_texts(files.drop_last(), l);
        if name_matches_spec(files.last().name, l) {
            rest.push(scored_file(files.last(), l))
        } else {
            rest
        }
    }
}

/// The last generically named license file that matches no synonym, scored.
pub open spec fn last_generic(files: Seq<SourceFileV>, l: LicenseV) -> Option<LicenseTextV>
    decreases files.len(),
{
    if files.len() == 0 {
        None
    } else if !name_matches_spec(files.last().name, l) && generic_name_spec(files.last().name) {
        Some(scored_file(files.last(), l))
    } else {
        last_generic(files.drop_last(), l)
    }
}

/// What discovery returns: every name-matched file scored, or the generic
/// license file when no name matches, or nothing.
pub open spec fn find_spec(files: Seq<SourceFileV>, l: LicenseV) -> Seq<LicenseTextV> {
    let m = matched_texts(files, l);
    if m.len() > 0 {
        m
    } else {
        match last_generic(files, l) {
            Some(g) => seq![g],
            None => Seq::empty(),
        }
    }
}

/// Finds every file of the package whose name plausibly holds this
/// license's text, each scored against the license's template; when none
/// matches by name, the generically named license file (if any) is the sole
/// candidate.
pub fn find_package_license(files: &Vec<SourceFile>, license: &License) -> (r: Vec<LicenseText>)
    ensures
        text_views(r@) == find_spec(file_views(files@), license@),
{
    let ghost fv = file_views(files@);
    let mut texts: Vec<LicenseText> = Vec::new();
    let mut generic: Option<LicenseText> = None;
    let mut i: usize = 0;
    proof {
        assert(fv.take(0) =~= Seq::<SourceFileV>::empty());
        assert(text_views(texts@) =~= Seq::<LicenseTextV>::empty());
    }
    while i < files.len()
        invariant
            fv == file_views(files@),
            fv.len() == files@.len(),
            0 <= i <= files@.len(),
            text_views(texts@) == matched_texts(fv.take(i as int), license@),
            match generic {
                Some(g) => last_generic(fv.take(i as int), license@) == Some(g@),
                None => last_generic(fv.take(i as int), license@) is None,
            },
        decreases files@.len() - i,
    {
        let f = &files[i];
        proof {
            assert(fv[i as int] == files@[i as int]@);
            assert(fv.take(i + 1).drop_last() =~= fv.take(i as int));
            assert(fv.take(i + 1).last() == fv[i as int]);
        }
        if name_matches(f.name.as_str(), license) {
            let conf = check_against_template(f.text.as_str(), license);
            let ghost tv_old = text_views(texts@);
            texts.push(
                LicenseText { path: f.path.clone(), text: f.text.clone(), confidence: conf },
            );
            proof {
                assert forall|k: int| 0 <= k < texts@.len() implies text_views(texts@)[k]
                    == tv_old.push(scored_file(fv[i as int], license@))[k] by {
                    assert(text_views(texts@)[k] == texts@[k]@);
                    if k < texts@.len() - 1 {
                        assert(texts@[k] == texts@.drop_last()[k]);
                        assert(tv_old[k] == texts@.drop_last()[k]@);
                    }
                }
                assert(text_views(texts@) =~= tv_old.push(scored_file(fv[i as int], license@)));
            }
        } else if generic_license_name(f.name.as_str()) {
            let conf = check_against_template(f.text.as_str(), license);
            generic = Some(
                LicenseText { path: f.path.clone(), text: f.text.clone(), confidence: conf },
            );
        }
        i += 1;
    }
    proof {
        assert(fv.take(fv.len() as int) =~= fv);
    }
    if texts.len() == 0 {
        match generic {
            Some(g) => {
                let mut r: Vec<LicenseText> = Vec::new();
                r.push(g);
                proof {
                    assert(text_views(r@) =~= seq![r@[0]@]);
                }
                r
            },
            None => texts,
        }
    } else {
        texts
    }
}

/// Keys in a frequency table are pairwise distinct, and the keys of a bump
/// are the old keys with at most the bumped word appended.
proof fn lemma_bump_keys(fr: Seq<(Seq<char>, u64)>, w: Seq<char>)
    ensures
        fr.len() <= bump(fr, w).len() <= fr.len() + 1,
        forall|i: int| 0 <= i < fr.len() ==> (#[trigger] bump(fr, w)[i]).0 == fr[i].0,
        bump(fr, w).len() == fr.len() + 1 ==> bump(fr, w)[fr.len() as int].0 == w,
    decreases fr.len(),
{
    if fr.len() == 0 {
    } else if fr[0].0 == w {
        assert(bump(fr, w) =~= seq![(fr[0].0, (fr[0].1 + 1) as u64)] + fr.drop_first());
    } else {
        lemma_bump_keys(fr.drop_first(), w);
        assert forall|i: int| 0 <= i < fr.len() implies (#[trigger] bump(fr, w)[i]).0
            == fr[i].0 by {
            if i > 0 {
                assert(bump(fr, w)[i] == bump(fr.drop_first(), w)[i - 1]);
                assert(fr.drop_first()[i - 1] == fr[i]);
            }
        }
        if bump(fr, w).len() == fr.len() + 1 {
            assert(bump(fr, w)[fr.len() as int] == bump(fr.drop_first(), w)[fr.len() - 1]);
        }
    }
}

/// Distinct keys survive a bump.
proof fn lemma_bump_distinct(fr: Seq<(Seq<char>, u64)>, w: Seq<char>)
    requires
        forall|i: int, j: int| 0 <= i < j < fr.len() ==> (#[trigger] fr[i]).0 != (#[trigger] fr[j]).0,
    ensures
        forall|i: int, j: int|
            0 <= i < j < bump(fr, w).len() ==> (#[trigger] bump(fr, w)[i]).0 != (#[trigger] bump(
                fr,
                w,
            )[j]).0,
    decreases fr.len(),
{
    lemma_bump_keys(fr, w);
    if bump(fr, w).len() == fr.len() + 1 {
        lemma_assoc_none_keys(fr, w);
    }
    assert forall|i: int, j: int|
        0 <= i < j < bump(fr, w).len() implies (#[trigger] bump(fr, w)[i]).0 != (#[trigger] bump(
        fr,
        w,
    )[j]).0 by {
        if j < fr.len() {
        } else {
            assert(bump(fr, w)[j].0 == w);
            assert(bump(fr, w)[i].0 == fr[i].0);
        }
    }
}

/// When a bump appends, the word had no entry.
proof fn lemma_assoc_none_keys(fr: Seq<(Seq<char>, u64)>, w: Seq<char>)
    requires
        bump(fr, w).len() == fr.len() + 1,
    ensures
        forall|i: int| 0 <= i < fr.len() ==> (#[trigger] fr[i]).0 != w,
    decreases fr.len(),
{
    if fr.len() > 0 {
        if fr[0].0 == w {
            assert(bump(fr, w) =~= seq![(fr[0].0, (fr[0].1 + 1) as u64)] + fr.drop_first());
        } else {
            assert(bump(fr, w).len() == 1 + bump(fr.drop_first(), w).len());
            lemma_assoc_none_keys(fr.drop_first(), w);
            assert forall|i: int| 0 <= i < fr.len() implies (#[trigger] fr[i]).0 != w by {
                if i > 0 {
                    assert(fr.drop_first()[i - 1] == fr[i]);
                }
            }
        }
    }
}

/// The keys of a token list's frequency table are pairwise distinct.
proof fn lemma_build_freq_distinct(toks: Seq<Seq<char>>)
    ensures
        forall|i: int, j: int|
            0 <= i < j < build_freq(toks).len() ==> (#[trigger] build_freq(toks)[i]).0 != (
            #[trigger] build_freq(toks)[j]).0,
    decreases toks.len(),
{
    if toks.len() > 0 {
        lemma_build_freq_distinct(toks.drop_last());
        lemma_bump_distinct(build_freq(toks.drop_last()), toks.last());
    }
}

/// A table whose stored counts the text's table reproduces contributes no
/// template-side error.
proof fn lemma_sum_diffs_zero(tmpl: Seq<(Seq<char>, u64)>, text: Seq<(Seq<char>, u64)>)
    requires
        forall|i: int|
            0 <= i < tmpl.len() ==> assoc_get(text, (#[trigger] tmpl[i]).0) == tmpl[i].1,
    ensures
        sum_diffs(tmpl, text) == 0,
    decreases tmpl.len(),
{
    if tmpl.len() > 0 {
        assert(assoc_get(text, tmpl.last().0) == tmpl.last().1);
        lemma_sum_diffs_zero(tmpl.drop_last(), text);
    }
}

/// A table all of whose keys the template knows contributes no text-side
/// error.
proof fn lemma_sum_extras_zero(text: Seq<(Seq<char>, u64)>, tmpl: Seq<(Seq<char>, u64)>)
    requires
        forall|i: int| 0 <= i < text.len() ==> assoc_has(tmpl, (#[trigger] text[i]).0),
    ensures
        sum_extras(text, tmpl) == 0,
    decreases text.len(),
{
    if text.len() > 0 {
        assert(assoc_has(tmpl, text.last().0));
        lemma_sum_extras_zero(text.drop_last(), tmpl);
    }
}

/// Scoring consults only the word tokens, so two texts with the same tokens
/// always land in the same tier: the score is deterministic and unmoved by
/// whitespace-only changes.
pub proof fn lemma_score_tokens_only(a: Seq<char>, b: Seq<char>, l: LicenseV)
    requires
        lowered_tokens(a) == lowered_tokens(b),
    ensures
        confidence_of(a, l) == confidence_of(b, l),
{
}

/// A text whose tokens are exactly the template's scores `Confident`,
/// whenever the template has any tokens at all.
pub proof fn lemma_template_scores_confident(text: Seq<Seq<char>>, tmpl: Seq<Seq<char>>)
    requires
        text == tmpl,
        tmpl.len() > 0,
    ensures
        confidence_of_tokens(text, tmpl) == Confidence::Confident,
{
    let fr = build_freq(tmpl);
    lemma_build_freq_distinct(tmpl);
    assert forall|i: int| 0 <= i < fr.len() implies assoc_get(fr, (#[trigger] fr[i]).0)
        == fr[i].1 by {
        lemma_assoc_get_at(fr, fr[i].0, i);
    }
    assert forall|i: int| 0 <= i < fr.len() implies assoc_has(fr, (#[trigger] fr[i]).0) by {
        lemma_assoc_get_at(fr, fr[i].0, i);
    }
    lemma_sum_diffs_zero(fr, fr);
    lemma_sum_extras_zero(fr, fr);
    assert(spec_errors(fr, fr) == 0);
}

} // verus!
