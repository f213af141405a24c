//! Text predicates over sequences of characters.
//!
//! Every string in this crate is viewed as a `Seq<char>`. The functions here
//! decide substring and prefix questions and strip surrounding whitespace, each
//! with a contract stated over that view.

use vstd::prelude::*;
use vstd::string::*;

verus! {

/// `needle` occurs in `hay` starting at index `at`.
pub open spec fn occurs_at(hay: Seq<char>, needle: Seq<char>, at: int) -> bool {
    &&& 0 <= at
    &&& at + needle.len() <= hay.len()
    &&& hay.subrange(at, at + needle.len()) == needle
}

/// `needle` occurs somewhere in `hay`.
pub open spec fn contains_text(hay: Seq<char>, needle: Seq<char>) -> bool {
    exists|at: int| occurs_at(hay, needle, at)
}

/// `hay` begins with `needle`.
pub open spec fn starts_with_text(hay: Seq<char>, needle: Seq<char>) -> bool {
    occurs_at(hay, needle, 0)
}

/// `needle` occurs in `hay` at index `at` and nowhere before.
pub open spec fn is_first_occurrence(hay: Seq<char>, needle: Seq<char>, at: int) -> bool {
    &&& occurs_at(hay, needle, at)
    &&& forall|k: int| 0 <= k < at ==> !occurs_at(hay, needle, k)
}

/// The first index at which `needle` occurs in `hay`, if it occurs at all.
pub open spec fn first_occurrence(hay: Seq<char>, needle: Seq<char>) -> Option<int> {
    if contains_text(hay, needle) {
        Some(choose|at: int| is_first_occurrence(hay, needle, at))
    } else {
        None
    }
}

/// An occurrence with none before it is the first occurrence.
pub proof fn lemma_first_occurrence(hay: Seq<char>, needle: Seq<char>, at: int)
    requires
        is_first_occurrence(hay, needle, at),
    ensures
        first_occurrence(hay, needle) == Some(at),
{
    let chosen = choose|i: int| is_first_occurrence(hay, needle, i);
    assert(is_first_occurrence(hay, needle, chosen));
    if chosen < at {
        assert(!occurs_at(hay, needle, chosen));
    }
    if at < chosen {
        assert(!occurs_at(hay, needle, at));
    }
}

/// Whether `c` has the Unicode `White_Space` property: the controls from tab
/// to carriage return, the space, next line, the no-break space, the Ogham
/// space mark, the spaces from en quad to hair space, the line and the
/// paragraph separator, the narrow no-break space, the medium mathematical
/// space and the ideographic space.
pub open spec fn is_whitespace(c: char) -> bool {
    let n = c as u32;
    ||| 0x09 <= n <= 0x0D
    ||| n == 0x20
    ||| n == 0x85
    ||| n == 0xA0
    ||| n == 0x1680
    ||| 0x2000 <= n <= 0x200A
    ||| n == 0x2028
    ||| n == 0x2029
    ||| n == 0x202F
    ||| n == 0x205F
    ||| n == 0x3000
}

/// The lowercase form of a string, as `str::to_lowercase` computes it.
pub uninterp spec fn lowercase(s: Seq<char>) -> Seq<char>;

/// `s` without its leading whitespace.
pub open spec fn skip_leading(s: Seq<char>) -> Seq<char>
    decreases s.len(),
{
    if s.len() > 0 && is_whitespace(s[0]) {
        skip_leading(s.drop_first())
    } else {
        s
    }
}

/// `s` without its trailing whitespace.
pub open spec fn skip_trailing(s: Seq<char>) -> Seq<char>
    decreases s.len(),
{
    if s.len() > 0 && is_whitespace(s.last()) {
        skip_trailing(s.drop_last())
    } else {
        s
    }
}

/// `s` with leading and trailing whitespace removed.
pub open spec fn trimmed(s: Seq<char>) -> Seq<char> {
    skip_trailing(skip_leading(s))
}

/// A string is blank when nothing but whitespace is in it.
pub open spec fn is_blank_text(s: Seq<char>) -> bool {
    trimmed(s).len() == 0
}

/// Whether `c` has the Unicode `White_Space` property.
pub fn is_whitespace_char(c: char) -> (r: bool)
    ensures
        r == is_whitespace(c),
{
    let n: u32 = c as u32;
    if n <= 0x20 {
        (0x09 <= n && n <= 0x0D) || n == 0x20
    } else if n <= 0x1680 {
        n == 0x85 || n == 0xA0 || n == 0x1680
    } else if n <= 0x205F {
        (0x2000 <= n && n <= 0x200A) || n == 0x2028 || n == 0x2029 || n == 0x202F || n == 0x205F
    } else {
        n == 0x3000
    }
}

/// Calls `str::to_lowercase`. The contract only names the result: the case
/// mapping is left to the standard library.
#[verifier::external_body]
pub(crate) fn to_lowercase(s: &str) -> (r: String)
    ensures
        r@ == lowercase(s@),
{
    s.to_lowercase()
}

/// The characters of `s`, in order.
pub fn to_chars(s: &str) -> (v: Vec<char>)
    ensures
        v@ == s@,
{
    let mut v: Vec<char> = Vec::new();
    for c in it: s.chars()
        invariant
            v@ == it.seq().take(it.index() as int),
            it.seq() == s@,
    {
        v.push(c);
    }
    v
}

/// Skipping whitespace one index at a time agrees with `skip_leading`.
proof fn lemma_skip_leading_from(s: Seq<char>, i: int)
    requires
        0 <= i <= s.len(),
        forall|k: int| 0 <= k < i ==> is_whitespace(#[trigger] s[k]),
    ensures
        skip_leading(s) == skip_leading(s.subrange(i, s.len() as int)),
    decreases i,
{
    if i == 0 {
        assert(s.subrange(0, s.len() as int) =~= s);
    } else {
        assert(is_whitespace(s[0]));
        let t = s.drop_first();
        assert forall|k: int| 0 <= k < i - 1 implies is_whitespace(#[trigger] t[k]) by {
            assert(t[k] == s[k + 1]);
        }
        lemma_skip_leading_from(t, i - 1);
        assert(t.subrange(i - 1, t.len() as int) =~= s.subrange(i, s.len() as int));
    }
}

/// Dropping whitespace from the end one index at a time agrees with
/// `skip_trailing`.
proof fn lemma_skip_trailing_to(s: Seq<char>, j: int)
    requires
        0 <= j <= s.len(),
        forall|k: int| j <= k < s.len() ==> is_whitespace(#[trigger] s[k]),
    ensures
        skip_trailing(s) == skip_trailing(s.subrange(0, j)),
    decreases s.len() - j,
{
    if j == s.len() {
        assert(s.subrange(0, j) =~= s);
    } else {
        assert(is_whitespace(s.last()));
        let t = s.drop_last();
        assert forall|k: int| j <= k < t.len() implies is_whitespace(#[trigger] t[k]) by {
            assert(t[k] == s[k]);
        }
        lemma_skip_trailing_to(t, j);
        assert(t.subrange(0, j) =~= s.subrange(0, j));
    }
}

/// What `skip_leading` leaves is empty exactly when `s` is all whitespace,
/// and else begins with a character that is none.
proof fn lemma_skip_leading_result(s: Seq<char>)
    ensures
        skip_leading(s).len() == 0 <==> forall|k: int|
            0 <= k < s.len() ==> is_whitespace(#[trigger] s[k]),
        skip_leading(s).len() > 0 ==> !is_whitespace(skip_leading(s)[0]),
    decreases s.len(),
{
    if s.len() > 0 && is_whitespace(s[0]) {
        let t = s.drop_first();
        lemma_skip_leading_result(t);
        if forall|k: int| 0 <= k < t.len() ==> is_whitespace(#[trigger] t[k]) {
            assert forall|k: int| 0 <= k < s.len() implies is_whitespace(#[trigger] s[k]) by {
                if k > 0 {
                    assert(t[k - 1] == s[k]);
                }
            }
        }
        if forall|k: int| 0 <= k < s.len() ==> is_whitespace(#[trigger] s[k]) {
            assert forall|k: int| 0 <= k < t.len() implies is_whitespace(#[trigger] t[k]) by {
                assert(t[k] == s[k + 1]);
            }
        }
    } else if s.len() > 0 {
        assert(!is_whitespace(s[0]));
    }
}

/// `skip_trailing` leaves something of a text that begins with a character
/// that is no whitespace.
proof fn lemma_skip_trailing_keeps_start(t: Seq<char>)
    requires
        t.len() > 0,
        !is_whitespace(t[0]),
    ensures
        skip_trailing(t).len() > 0,
    decreases t.len(),
{
    if is_whitespace(t.last()) {
        assert(t.len() >= 2);
        let u = t.drop_last();
        assert(u[0] == t[0]);
        lemma_skip_trailing_keeps_start(u);
    }
}

/// A text is blank exactly when every character of it is whitespace; the
/// empty text is blank.
pub proof fn lemma_blank_means_all_whitespace(s: Seq<char>)
    ensures
        is_blank_text(s) <==> forall|k: int| 0 <= k < s.len() ==> is_whitespace(#[trigger] s[k]),
{
    lemma_skip_leading_result(s);
    let rest = skip_leading(s);
    if rest.len() > 0 {
        lemma_skip_trailing_keeps_start(rest);
    }
}

/// For each character of `s`, whether it is whitespace.
pub fn whitespace_flags(s: &Vec<char>) -> (flags: Vec<bool>)
    ensures
        flags.len() == s.len(),
        forall|k: int| 0 <= k < s.len() ==> flags@[k] == is_whitespace(#[trigger] s@[k]),
{
    let mut flags: Vec<bool> = Vec::new();
    let mut i: usize = 0;
    while i < s.len()
        invariant
            i <= s.len(),
            flags.len() == i,
            forall|k: int| 0 <= k < i ==> flags@[k] == is_whitespace(#[trigger] s@[k]),
        decreases s.len() - i,
    {
        flags.push(is_whitespace_char(s[i]));
        i += 1;
    }
    flags
}

/// The index range `[from, to)` that is left when the leading and the
/// trailing run of set flags are cut off. Where every flag is set, the range
/// is empty and stands at the end.
pub fn kept_range(flags: &Vec<bool>) -> (r: (usize, usize))
    ensures
        r.0 <= r.1 <= flags.len(),
        forall|k: int| 0 <= k < r.0 ==> #[trigger] flags@[k],
        forall|k: int| r.1 <= k < flags.len() ==> #[trigger] flags@[k],
        r.0 < flags.len() ==> !flags@[r.0 as int],
        r.0 < r.1 ==> !flags@[r.1 - 1],
{
    let n = flags.len();
    let mut from: usize = 0;
    while from < n && flags[from]
        invariant
            from <= n,
            n == flags.len(),
            forall|k: int| 0 <= k < from ==> #[trigger] flags@[k],
        decreases n - from,
    {
        from += 1;
    }
    let mut to: usize = n;
    while to > from && flags[to - 1]
        invariant
            from <= to <= n,
            n == flags.len(),
            forall|k: int| to <= k < n ==> #[trigger] flags@[k],
        decreases to,
    {
        to -= 1;
    }
    (from, to)
}

/// The index range `[from, to)` of `s` that `trimmed` keeps.
pub fn trim_bounds(s: &Vec<char>) -> (r: (usize, usize))
    ensures
        r.0 <= r.1 <= s.len(),
        s@.subrange(r.0 as int, r.1 as int) == trimmed(s@),
        forall|k: int| 0 <= k < r.0 ==> is_whitespace(#[trigger] s@[k]),
        forall|k: int| r.1 <= k < s.len() ==> is_whitespace(#[trigger] s@[k]),
        r.0 < s.len() ==> !is_whitespace(s@[r.0 as int]),
        r.0 < r.1 ==> !is_whitespace(s@[r.1 - 1]),
{
    let flags = whitespace_flags(s);
    let (from, to) = kept_range(&flags);
    proof {
        let n = s@.len() as int;
        let rest = s@.subrange(from as int, n);
        assert forall|k: int| 0 <= k < from implies is_whitespace(#[trigger] s@[k]) by {
            assert(flags@[k]);
        }
        assert forall|k: int| to <= k < n implies is_whitespace(#[trigger] s@[k]) by {
            assert(flags@[k]);
        }
        lemma_skip_leading_from(s@, from as int);
        if from < n {
            assert(rest[0] == s@[from as int]);
        }
        assert(skip_leading(s@) == rest);
        let kept = rest.subrange(0, to - from);
        assert forall|k: int| to - from <= k < rest.len() implies is_whitespace(
            #[trigger] rest[k],
        ) by {
            assert(rest[k] == s@[from + k]);
        }
        lemma_skip_trailing_to(rest, to - from);
        if to > from {
            assert(kept.last() == s@[to - 1]);
        }
        assert(skip_trailing(rest) == kept);
        assert(kept =~= s@.subrange(from as int, to as int));
    }
    (from, to)
}

/// `s` with leading and trailing whitespace removed.
pub fn trim(s: &str) -> (r: &str)
    ensures
        r@ == trimmed(s@),
{
    let chars = to_chars(s);
    let (from, to) = trim_bounds(&chars);
    s.substring_char(from, to)
}

/// Whether `s` holds nothing but whitespace.
pub fn is_blank(s: &str) -> (r: bool)
    ensures
        r == is_blank_text(s@),
{
    let chars = to_chars(s);
    let (from, to) = trim_bounds(&chars);
    from == to
}

/// Whether `needle` occurs in `hay` at index `at`.
pub fn chars_occur_at(hay: &Vec<char>, needle: &Vec<char>, at: usize) -> (r: bool)
    ensures
        r == occurs_at(hay@, needle@, at as int),
{
    let n = needle.len();
    if n > hay.len() || at > hay.len() - n {
        return false;
    }
    let mut i: usize = 0;
    while i < n
        invariant
            i <= n,
            n == needle.len(),
            at + n <= hay.len(),
            forall|k: int| 0 <= k < i ==> hay@[at + k] == needle@[k],
        decreases n - i,
    {
        if hay[at + i] != needle[i] {
            assert(hay@.subrange(at as int, at + n)[i as int] == hay@[at + i]);
            return false;
        }
        i += 1;
    }
    assert(hay@.subrange(at as int, at + n) =~= needle@);
    true
}

/// The first index at which `needle` occurs in `hay`, if it occurs at all.
pub fn find_chars(hay: &Vec<char>, needle: &Vec<char>) -> (r: Option<usize>)
    ensures
        match r {
            Some(at) => first_occurrence(hay@, needle@) == Some(at as int) && is_first_occurrence(
                hay@,
                needle@,
                at as int,
            ),
            None => first_occurrence(hay@, needle@) is None,
        },
{
    let n = needle.len();
    if n > hay.len() {
        return None;
    }
    let last = hay.len() - n;
    let mut at: usize = 0;
    while at < last
        invariant
            at <= last,
            last + n == hay.len(),
            n == needle.len(),
            forall|k: int| 0 <= k < at ==> !occurs_at(hay@, needle@, k),
        decreases last - at,
    {
        if chars_occur_at(hay, needle, at) {
            proof {
                lemma_first_occurrence(hay@, needle@, at as int);
            }
            return Some(at);
        }
        at += 1;
    }
    if chars_occur_at(hay, needle, last) {
        proof {
            lemma_first_occurrence(hay@, needle@, last as int);
        }
        Some(last)
    } else {
        None
    }
}

/// Whether `needle` occurs somewhere in `hay`.
pub fn chars_contain(hay: &Vec<char>, needle: &Vec<char>) -> (r: bool)
    ensures
        r == contains_text(hay@, needle@),
{
    find_chars(hay, needle).is_some()
}

/// Whether `needle` occurs somewhere in `hay`.
pub fn contains(hay: &str, needle: &str) -> (r: bool)
    ensures
        r == contains_text(hay@, needle@),
{
    let h = to_chars(hay);
    let n = to_chars(needle);
    chars_contain(&h, &n)
}

/// Whether `hay` begins with `needle`.
pub fn starts_with(hay: &str, needle: &str) -> (r: bool)
    ensures
        r == starts_with_text(hay@, needle@),
{
    let h = to_chars(hay);
    let n = to_chars(needle);
    chars_occur_at(&h, &n, 0)
}

/// Whether the two strings hold the same characters.
pub fn same_text(a: &str, b: &str) -> (r: bool)
    ensures
        r == (a@ == b@),
{
    let x = to_chars(a);
    let y = to_chars(b);
    if x.len() != y.len() {
        return false;
    }
    let r = chars_occur_at(&x, &y, 0);
    proof {
        assert(x@.subrange(0, x@.len() as int) =~= x@);
    }
    r
}

/// Whether the lowercase form of `hay` contains the lowercase form of `needle`.
pub fn contains_ignoring_case(hay: &str, needle: &str) -> (r: bool)
    ensures
        r == contains_text(lowercase(hay@), lowercase(needle@)),
{
    let h = to_lowercase(hay);
    let n = to_lowercase(needle);
    contains(h.as_str(), n.as_str())
}

} // verus!
