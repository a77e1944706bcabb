//! Verified building blocks for working with strings: equality, lexicographic
//! order, substring search, whitespace trimming and splitting.

use vstd::prelude::*;
use vstd::string::StrSliceExecFns;

verus! {

broadcast use vstd::string::group_string_axioms;

/// Verified string equality: true exactly when the character views agree.
pub fn str_eq(a: &str, b: &str) -> (r: bool)
    ensures
        r == (a@ == b@),
{
    broadcast use vstd::utf8::encode_utf8_decode_utf8;

    let av = a.as_bytes_vec();
    let bv = b.as_bytes_vec();
    if av.len() != bv.len() {
        proof {
            assert(a@ != b@);
        }
        return false;
    }
    let n = av.len();
    let mut i: usize = 0;
    while i < n
        invariant
            n == av.len() == bv.len(),
            av@ == vstd::utf8::encode_utf8(a@),
            bv@ == vstd::utf8::encode_utf8(b@),
            0 <= i <= n,
            forall|j: int| 0 <= j < i ==> av@[j] == bv@[j],
        decreases n - i,
    {
        if av[i] != bv[i] {
            proof {
                assert(av@ != bv@);
            }
            return false;
        }
        i += 1;
    }
    proof {
        assert(av@ =~= bv@);
        assert(vstd::utf8::decode_utf8(av@) == a@);
        assert(vstd::utf8::decode_utf8(bv@) == b@);
    }
    true
}

/// Lexicographic order on character sequences, by Unicode scalar value; a
/// prefix sorts before its extensions.
pub open spec fn lex_le(a: Seq<char>, b: Seq<char>) -> bool
    decreases a.len(),
{
    if a.len() == 0 {
        true
    } else if b.len() == 0 {
        false
    } else if (a[0] as u32) < (b[0] as u32) {
        true
    } else if (a[0] as u32) > (b[0] as u32) {
        false
    } else {
        lex_le(a.drop_first(), b.drop_first())
    }
}

/// Verified lexicographic comparison of two strings.
pub fn str_le(a: &str, b: &str) -> (r: bool)
    ensures
        r == lex_le(a@, b@),
{
    let an = a.unicode_len();
    let bn = b.unicode_len();
    let mut i: usize = 0;
    proof {
        assert(a@.skip(0) =~= a@);
        assert(b@.skip(0) =~= b@);
    }
    loop
        invariant
            an == a@.len(),
            bn == b@.len(),
            0 <= i <= an,
            i <= bn,
            a@.subrange(0, i as int) =~= b@.subrange(0, i as int),
            lex_le(a@, b@) == lex_le(a@.skip(i as int), b@.skip(i as int)),
        decreases an - i,
    {
        if i == an {
            proof {
                assert(lex_le(a@.skip(i as int), b@.skip(i as int)));
            }
            return true;
        }
        if i == bn {
            proof {
                assert(a@.skip(i as int).len() > 0);
                assert(!lex_le(a@.skip(i as int), b@.skip(i as int)));
            }
            return false;
        }
        let ca = a.get_char(i);
        let cb = b.get_char(i);
        proof {
            assert(a@.skip(i as int)[0] == a@[i as int]);
            assert(b@.skip(i as int)[0] == b@[i as int]);
            assert(a@.skip(i as int).drop_first() =~= a@.skip(i as int + 1));
            assert(b@.skip(i as int).drop_first() =~= b@.skip(i as int + 1));
        }
        if (ca as u32) < (cb as u32) {
            return true;
        }
        if (ca as u32) > (cb as u32) {
            return false;
        }
        proof {
            assert(a@.subrange(0, i as int + 1) =~= b@.subrange(0, i as int + 1));
        }
        i += 1;
    }
}

/// The Unicode `White_Space` code points, as `char::is_whitespace` documents
/// them.
pub open spec fn is_ws_char(c: char) -> bool {
    ||| c == ' '
    ||| c == '\t'
    ||| c == '\n'
    ||| c == '\u{0B}'
    ||| c == '\u{0C}'
    ||| c == '\r'
    ||| c == '\u{85}'
    ||| c == '\u{A0}'
    ||| c == '\u{1680}'
    ||| ((c as u32) >= 0x2000 && (c as u32) <= 0x200A)
    ||| c == '\u{2028}'
    ||| c == '\u{2029}'
    ||| c == '\u{202F}'
    ||| c == '\u{205F}'
    ||| c == '\u{3000}'
}

/// Executable decision for [`is_ws_char`].
pub fn is_whitespace_char(c: char) -> (r: bool)
    ensures
        r == is_ws_char(c),
{
    let u = c as u32;
    (u >= 0x9 && u <= 0xD) || u == 0x20 || u == 0x85 || u == 0xA0 || u == 0x1680 || (u >= 0x2000
        && u <= 0x200A) || u == 0x2028 || u == 0x2029 || u == 0x202F || u == 0x205F || u == 0x3000
}

/// The suffix that remains after dropping leading whitespace.
pub open spec fn trim_front(s: Seq<char>) -> Seq<char>
    decreases s.len(),
{
    if s.len() > 0 && is_ws_char(s[0]) {
        trim_front(s.drop_first())
    } else {
        s
    }
}

/// The prefix that remains after dropping trailing whitespace.
pub open spec fn trim_back(s: Seq<char>) -> Seq<char>
    decreases s.len(),
{
    if s.len() > 0 && is_ws_char(s[s.len() - 1]) {
        trim_back(s.drop_last())
    } else {
        s
    }
}

/// The string with leading and trailing whitespace removed.
pub open spec fn trim_of(s: Seq<char>) -> Seq<char> {
    trim_back(trim_front(s))
}

proof fn lemma_trim_front_skip(s: Seq<char>, k: int)
    requires
        0 <= k <= s.len(),
        forall|j: int| 0 <= j < k ==> is_ws_char(s[j]),
        k == s.len() || !is_ws_char(s[k]),
    ensures
        trim_front(s) == s.skip(k),
    decreases k,
{
    if k == 0 {
        assert(s.skip(0) =~= s);
    } else {
        assert(is_ws_char(s[0]));
        lemma_trim_front_skip(s.drop_first(), k - 1);
        assert(s.drop_first().skip(k - 1) =~= s.skip(k));
    }
}

proof fn lemma_trim_back_take(s: Seq<char>, k: int)
    requires
        0 <= k <= s.len(),
        forall|j: int| k <= j < s.len() ==> is_ws_char(s[j]),
        k == 0 || !is_ws_char(s[k - 1]),
    ensures
        trim_back(s) == s.take(k),
    decreases s.len() - k,
{
    if k == s.len() {
        assert(s.take(k) =~= s);
    } else {
        assert(is_ws_char(s[s.len() - 1]));
        lemma_trim_back_take(s.drop_last(), k);
        assert(s.drop_last().take(k) =~= s.take(k));
    }
}

/// Verified counterpart of `str::trim`: removes leading and trailing
/// whitespace.
pub fn trim<'a>(s: &'a str) -> (r: &'a str)
    ensures
        r@ == trim_of(s@),
{
    let n = s.unicode_len();
    let mut start: usize = 0;
    while start < n && is_whitespace_char(s.get_char(start))
        invariant
            n == s@.len(),
            0 <= start <= n,
            forall|j: int| 0 <= j < start ==> is_ws_char(s@[j]),
        decreases n - start,
    {
        start += 1;
    }
    let mut end: usize = n;
    if start == n {
        proof {
            lemma_trim_front_skip(s@, n as int);
            assert(s@.skip(n as int).len() == 0);
            lemma_trim_back_take(s@.skip(n as int), 0);
            assert(s@.skip(n as int).take(0) =~= s@.subrange(n as int, n as int));
        }
        let r = s.substring_char(n, n);
        return r;
    }
    while end > start && is_whitespace_char(s.get_char(end - 1))
        invariant
            n == s@.len(),
            0 <= start <= end <= n,
            forall|j: int| end <= j < n ==> is_ws_char(s@[j]),
        decreases end,
    {
        end -= 1;
    }
    proof {
        lemma_trim_front_skip(s@, start as int);
        let t = s@.skip(start as int);
        assert(forall|j: int| end - start <= j < t.len() ==> is_ws_char(#[trigger] t[j]));
        assert(end > start);
        assert(!is_ws_char(s@[end - 1]));
        assert(t[end - start - 1] == s@[end - 1]);
        lemma_trim_back_take(t, end - start as int);
        assert(t.take(end - start as int) =~= s@.subrange(start as int, end as int));
    }
    s.substring_char(start, end)
}

/// The needle occurs in the haystack starting at position `i`.
pub open spec fn matches_at(hay: Seq<char>, needle: Seq<char>, i: int) -> bool {
    0 <= i && i + needle.len() <= hay.len() && hay.subrange(i, i + needle.len()) == needle
}

/// The needle occurs somewhere in the haystack.
pub open spec fn seq_contains(hay: Seq<char>, needle: Seq<char>) -> bool {
    exists|i: int| matches_at(hay, needle, i)
}

/// Decides whether the needle occurs in the haystack at position `i`.
fn match_at(hay: &str, needle: &str, i: usize) -> (r: bool)
    requires
        i + needle@.len() <= hay@.len(),
    ensures
        r == matches_at(hay@, needle@, i as int),
{
    let hn = hay.unicode_len();
    let nn = needle.unicode_len();
    let mut k: usize = 0;
    proof {
        assert(hay@.subrange(i as int, i as int) =~= needle@.subrange(0, 0));
    }
    while k < nn
        invariant
            hn == hay@.len(),
            nn == needle@.len(),
            i + nn <= hay@.len(),
            0 <= k <= nn,
            hay@.subrange(i as int, i + k) == needle@.subrange(0, k as int),
        decreases nn - k,
    {
        if hay.get_char(i + k) != needle.get_char(k) {
            proof {
                if matches_at(hay@, needle@, i as int) {
                    assert(hay@.subrange(i as int, i + nn)[k as int] == hay@[i + k]);
                }
            }
            return false;
        }
        proof {
            assert(hay@.subrange(i as int, i + k + 1) =~= hay@.subrange(i as int, i + k).push(
                hay@[i + k],
            ));
            assert(needle@.subrange(0, k + 1) =~= needle@.subrange(0, k as int).push(
                needle@[k as int],
            ));
        }
        k += 1;
    }
    proof {
        assert(needle@.subrange(0, nn as int) =~= needle@);
    }
    true
}

/// Verified substring search.
pub fn contains_substr(hay: &str, needle: &str) -> (r: bool)
    ensures
        r == seq_contains(hay@, needle@),
{
    let hn = hay.unicode_len();
    let nn = needle.unicode_len();
    if nn > hn {
        proof {
            assert forall|i: int| !matches_at(hay@, needle@, i) by {}
        }
        return false;
    }
    let mut i: usize = 0;
    loop
        invariant
            hn == hay@.len(),
            nn == needle@.len(),
            nn <= hn,
            0 <= i <= hn - nn,
            forall|j: int| 0 <= j < i ==> !matches_at(hay@, needle@, j),
        decreases hn - nn - i,
    {
        if match_at(hay, needle, i) {
            return true;
        }
        if i == hn - nn {
            proof {
                assert forall|j: int| !matches_at(hay@, needle@, j) by {
                    if 0 <= j && j + needle@.len() <= hay@.len() {
                        assert(j <= i);
                    }
                }
            }
            return false;
        }
        i += 1;
    }
}

/// An alternatives delimiter (`/` or ` OR `) begins at position `i`.
pub open spec fn delim_at(s: Seq<char>, i: int) -> bool {
    0 <= i < s.len() && (s[i] == '/' || matches_at(s, " OR "@, i))
}

/// How many characters the delimiter at position `i` occupies.
pub open spec fn delim_len(s: Seq<char>, i: int) -> int {
    if s[i] == '/' {
        1
    } else {
        4
    }
}

/// The position of the first delimiter at or after `i`, if any.
pub open spec fn first_delim_from(s: Seq<char>, i: int) -> Option<int>
    decreases s.len() - i,
{
    if i < 0 || i >= s.len() {
        None
    } else if delim_at(s, i) {
        Some(i)
    } else {
        first_delim_from(s, i + 1)
    }
}

/// The pieces of `s` between its delimiters, scanning left to right; a string
/// without delimiters is a single piece, and pieces may be empty.
pub open spec fn split_alt(s: Seq<char>) -> Seq<Seq<char>>
    decreases s.len(),
{
    match first_delim_from(s, 0) {
        Option::None => seq![s],
        Option::Some(p) => if 0 <= p < s.len() && 1 <= delim_len(s, p) && p + delim_len(s, p)
            <= s.len() {
            seq![s.take(p)] + split_alt(s.skip(p + delim_len(s, p)))
        } else {
            seq![s]
        },
    }
}

/// Every position scanned so far held no delimiter, so the first delimiter
/// from `from` is the first from `i`.
proof fn lemma_first_delim_step(s: Seq<char>, from: int, i: int)
    requires
        0 <= from <= i <= s.len(),
        forall|j: int| from <= j < i ==> !delim_at(s, j),
    ensures
        first_delim_from(s, from) == first_delim_from(s, i),
    decreases i - from,
{
    if from < i {
        lemma_first_delim_step(s, from + 1, i);
    }
}

/// Searches for the first delimiter at or after `from`.
fn find_first_delim(s: &str, from: usize) -> (r: Option<usize>)
    requires
        from <= s@.len(),
    ensures
        match r {
            Option::Some(p) => first_delim_from(s@, from as int) == Option::Some(p as int)
                && delim_at(s@, p as int),
            Option::None => first_delim_from(s@, from as int) is None,
        },
{
    let or_str = " OR ";
    proof {
        reveal_strlit(" OR ");
    }
    let n = s.unicode_len();
    let mut i: usize = from;
    while i < n
        invariant
            n == s@.len(),
            or_str@ == " OR "@,
            or_str@.len() == 4,
            from <= i <= n,
            forall|j: int| from <= j < i ==> !delim_at(s@, j),
        decreases n - i,
    {
        if s.get_char(i) == '/' {
            proof {
                lemma_first_delim_step(s@, from as int, i as int);
            }
            return Some(i);
        }
        if n >= 4 && i <= n - 4 && match_at(s, or_str, i) {
            proof {
                lemma_first_delim_step(s@, from as int, i as int);
            }
            return Some(i);
        }
        proof {
            if matches_at(s@, " OR "@, i as int) {
                assert(i + 4 <= n);
            }
            assert(!delim_at(s@, i as int));
        }
        i += 1;
    }
    proof {
        lemma_first_delim_step(s@, from as int, n as int);
    }
    None
}

/// Splits a declaration on `/` and ` OR ` delimiters, keeping empty pieces.
pub fn split_alternatives(s: &str) -> (r: Vec<String>)
    ensures
        r.deep_view() == split_alt(s@),
        r.len() >= 1,
    decreases s@.len(),
{
    proof {
        reveal_strlit(" OR ");
    }
    match find_first_delim(s, 0) {
        Option::None => {
            let mut v: Vec<String> = Vec::new();
            v.push(String::from_str(s));
            proof {
                assert(v.deep_view() =~= seq![s@]);
            }
            v
        },
        Option::Some(p) => {
            let n = s.unicode_len();
            let piece = s.substring_char(0, p);
            let l: usize = if s.get_char(p) == '/' {
                1
            } else {
                4
            };
            proof {
                if s@[p as int] != '/' {
                    assert(matches_at(s@, " OR "@, p as int));
                }
                assert(p + l <= n);
            }
            let rest = s.substring_char(p + l, n);
            proof {
                assert(rest@ =~= s@.skip(p + l));
                assert(piece@ =~= s@.take(p as int));
            }
            let tail = split_alternatives(rest);
            let mut v: Vec<String> = Vec::new();
            v.push(String::from_str(piece));
            let mut tail = tail;
            v.append(&mut tail);
            proof {
                assert(v.deep_view() =~= seq![s@.take(p as int)] + split_alt(s@.skip(p + l)));
            }
            v
        },
    }
}

/// Verified single-character search.
pub fn contains_char(s: &str, c: char) -> (r: bool)
    ensures
        r == s@.contains(c),
{
    let n = s.unicode_len();
    let mut i: usize = 0;
    while i < n
        invariant
            n == s@.len(),
            0 <= i <= n,
            forall|j: int| 0 <= j < i ==> s@[j] != c,
        decreases n - i,
    {
        if s.get_char(i) == c {
            return true;
        }
        i += 1;
    }
    false
}

} // verus!
