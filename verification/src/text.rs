//! Character-sequence operations on transcripts and prompts.
//!
//! Strings are modelled by their `Seq<char>` view. The operations here (trim,
//! substring search, prefix test, replacement) are the ones std offers on
//! `str`; they are stated over the view and implemented over `Vec<char>`.

use vstd::prelude::*;

verus! {

/// `String::push` appends one character.
pub assume_specification[ String::push ](s: &mut String, ch: char)
    ensures
        final(s)@ == old(s)@.push(ch),
;

/// The characters of a string slice, in order.
pub fn chars_of(s: &str) -> (v: Vec<char>)
    ensures
        v@ == s@,
{
    let mut v: Vec<char> = Vec::new();
    for c in it: s.chars()
        invariant
            v@ == it.seq().take(it.index() as int),
    {
        v.push(c);
    }
    v
}

/// A string holding exactly the given characters.
pub fn string_of(v: &Vec<char>) -> (s: String)
    ensures
        s@ == v@,
{
    let mut s = String::new();
    let n = v.len();
    for i in 0..n
        invariant
            n == v@.len(),
            s@ == v@.take(i as int),
    {
        s.push(v[i]);
        assert(v@.take(i + 1) =~= v@.take(i as int).push(v@[i as int]));
    }
    assert(v@.take(n as int) =~= v@);
    s
}


/// Unicode `White_Space`, the property that `char::is_whitespace` tests.
pub open spec fn is_space(c: char) -> bool {
    ||| ('\u{9}' <= c && c <= '\u{d}')
    ||| c == ' '
    ||| c == '\u{85}'
    ||| c == '\u{a0}'
    ||| c == '\u{1680}'
    ||| ('\u{2000}' <= c && c <= '\u{200a}')
    ||| c == '\u{2028}'
    ||| c == '\u{2029}'
    ||| c == '\u{202f}'
    ||| c == '\u{205f}'
    ||| c == '\u{3000}'
}

/// `s` without its leading whitespace.
pub open spec fn trim_start(s: Seq<char>) -> Seq<char>
    decreases s.len(),
{
    if s.len() > 0 && is_space(s[0]) {
        trim_start(s.skip(1))
    } else {
        s
    }
}

/// `s` without its trailing whitespace.
pub open spec fn trim_end(s: Seq<char>) -> Seq<char>
    decreases s.len(),
{
    if s.len() > 0 && is_space(s.last()) {
        trim_end(s.drop_last())
    } else {
        s
    }
}

/// `s` without leading and trailing whitespace, as `str::trim` gives it.
pub open spec fn trim(s: Seq<char>) -> Seq<char> {
    trim_end(trim_start(s))
}

/// Whether `s` holds nothing but whitespace.
pub open spec fn is_blank(s: Seq<char>) -> bool {
    trim(s).len() == 0
}

/// `p` occurs in `s` starting at position `i`.
pub open spec fn occurs_at(s: Seq<char>, p: Seq<char>, i: int) -> bool {
    0 <= i && i + p.len() <= s.len() && s.subrange(i, i + p.len()) == p
}

/// `p` occurs somewhere in `s`, as `str::contains` tests.
pub open spec fn contains(s: Seq<char>, p: Seq<char>) -> bool {
    exists|i: int| occurs_at(s, p, i)
}

/// `s` begins with `p`, as `str::starts_with` tests.
pub open spec fn starts_with(s: Seq<char>, p: Seq<char>) -> bool {
    occurs_at(s, p, 0)
}

/// `s` ends with `p`, as `str::ends_with` tests.
pub open spec fn ends_with(s: Seq<char>, p: Seq<char>) -> bool {
    p.len() <= s.len() && occurs_at(s, p, s.len() - p.len())
}

/// Every non-overlapping occurrence of `p` in `s`, taken from left to right,
/// replaced by `r`, as `str::replace` does for a non-empty pattern.
pub open spec fn replace_all(s: Seq<char>, p: Seq<char>, r: Seq<char>) -> Seq<char>
    decreases s.len(),
{
    if p.len() == 0 || s.len() < p.len() {
        s
    } else if s.take(p.len() as int) == p {
        r + replace_all(s.skip(p.len() as int), p, r)
    } else {
        seq![s[0]] + replace_all(s.skip(1), p, r)
    }
}

/// Replacing a pattern that does not occur leaves the text as it is.
pub proof fn lemma_replace_absent(s: Seq<char>, p: Seq<char>, r: Seq<char>)
    requires
        p.len() > 0,
        !contains(s, p),
    ensures
        replace_all(s, p, r) == s,
    decreases s.len(),
{
    if s.len() >= p.len() {
        assert(!occurs_at(s, p, 0));
        assert(s.subrange(0, p.len() as int) =~= s.take(p.len() as int));
        let t = s.skip(1);
        assert forall|i: int| !occurs_at(t, p, i) by {
            if occurs_at(t, p, i) {
                assert(s.subrange(i + 1, i + 1 + p.len()) =~= t.subrange(i, i + p.len()));
                assert(occurs_at(s, p, i + 1));
            }
        }
        lemma_replace_absent(t, p, r);
        assert(seq![s[0]] + t =~= s);
    }
}


/// Whether a character is Unicode whitespace.
pub fn is_space_char(c: char) -> (b: bool)
    ensures
        b == is_space(c),
{
    ('\u{9}' <= c && c <= '\u{d}') || c == ' ' || c == '\u{85}' || c == '\u{a0}' || c
        == '\u{1680}' || ('\u{2000}' <= c && c <= '\u{200a}') || c == '\u{2028}' || c
        == '\u{2029}' || c == '\u{202f}' || c == '\u{205f}' || c == '\u{3000}'
}

proof fn lemma_trim_start_skip(s: Seq<char>, i: int)
    requires
        0 <= i <= s.len(),
        forall|k: int| 0 <= k < i ==> is_space(#[trigger] s[k]),
    ensures
        trim_start(s) == trim_start(s.skip(i)),
    decreases i,
{
    if i > 0 {
        assert(is_space(s[0]));
        let t = s.skip(1);
        assert forall|k: int| 0 <= k < i - 1 implies is_space(#[trigger] t[k]) by {
            assert(t[k] == s[k + 1]);
        }
        lemma_trim_start_skip(t, i - 1);
        assert(t.skip(i - 1) =~= s.skip(i));
    } else {
        assert(s.skip(0) =~= s);
    }
}

proof fn lemma_trim_end_take(s: Seq<char>, j: int)
    requires
        0 <= j <= s.len(),
        forall|k: int| j <= k < s.len() ==> is_space(#[trigger] s[k]),
    ensures
        trim_end(s) == trim_end(s.take(j)),
    decreases s.len() - j,
{
    if j < s.len() {
        let t = s.drop_last();
        assert forall|k: int| j <= k < t.len() implies is_space(#[trigger] t[k]) by {
            assert(t[k] == s[k]);
        }
        lemma_trim_end_take(t, j);
        assert(t.take(j) =~= s.take(j));
    } else {
        assert(s.take(j) =~= s);
    }
}

/// `trim_start(s)` drops the whitespace before position `a`, where `s[a]`
/// (if any) is not whitespace.
pub proof fn lemma_trim_start_shape(s: Seq<char>) -> (a: int)
    ensures
        0 <= a <= s.len(),
        trim_start(s) == s.skip(a),
        a < s.len() ==> !is_space(s[a]),
        forall|k: int| 0 <= k < a ==> is_space(#[trigger] s[k]),
    decreases s.len(),
{
    if s.len() > 0 && is_space(s[0]) {
        let t = s.skip(1);
        let a0 = lemma_trim_start_shape(t);
        assert(t.skip(a0) =~= s.skip(a0 + 1));
        assert forall|k: int| 0 <= k < a0 + 1 implies is_space(#[trigger] s[k]) by {
            if k > 0 {
                assert(s[k] == t[k - 1]);
            }
        }
        a0 + 1
    } else {
        assert(s.skip(0) =~= s);
        0
    }
}

/// `trim_end(s)` keeps the characters before position `b`, where `s[b - 1]`
/// (if any) is not whitespace and all that follows is whitespace.
pub proof fn lemma_trim_end_shape(s: Seq<char>) -> (b: int)
    ensures
        0 <= b <= s.len(),
        trim_end(s) == s.take(b),
        b > 0 ==> !is_space(s[b - 1]),
        forall|k: int| b <= k < s.len() ==> is_space(#[trigger] s[k]),
    decreases s.len(),
{
    if s.len() > 0 && is_space(s.last()) {
        let t = s.drop_last();
        let b0 = lemma_trim_end_shape(t);
        assert(t.take(b0) =~= s.take(b0));
        assert forall|k: int| b0 <= k < s.len() implies is_space(#[trigger] s[k]) by {
            if k < s.len() - 1 {
                assert(s[k] == t[k]);
            }
        }
        b0
    } else {
        assert(s.take(s.len() as int) =~= s);
        s.len() as int
    }
}

/// `trim(s)` is the stretch of `s` between its leading and trailing
/// whitespace; when not empty it begins and ends with non-whitespace, and
/// when empty `s` holds only whitespace.
pub proof fn lemma_trim_shape(s: Seq<char>) -> (ab: (int, int))
    ensures
        0 <= ab.0 <= ab.1 <= s.len(),
        trim(s) == s.subrange(ab.0, ab.1),
        trim(s).len() > 0 ==> !is_space(trim(s)[0]) && !is_space(trim(s).last()),
        trim(s).len() == 0 <==> forall|k: int| 0 <= k < s.len() ==> is_space(#[trigger] s[k]),
{
    let a = lemma_trim_start_shape(s);
    let t = s.skip(a);
    let b = lemma_trim_end_shape(t);
    assert(t.take(b) =~= s.subrange(a, a + b));
    if b > 0 {
        assert(trim(s)[0] == s[a]);
    }
    if b == 0 {
        assert forall|k: int| 0 <= k < s.len() implies is_space(#[trigger] s[k]) by {
            if k >= a {
                assert(s[k] == t[k - a]);
            }
        }
    }
    (a, a + b)
}

/// The positions `(start, end)` such that `v[start..end]` is `v` trimmed.
pub fn trim_bounds(v: &Vec<char>) -> (r: (usize, usize))
    ensures
        r.0 <= r.1 <= v@.len(),
        v@.subrange(r.0 as int, r.1 as int) == trim(v@),
{
    let n = v.len();
    let mut i: usize = 0;
    while i < n && is_space_char(v[i])
        invariant
            i <= n == v@.len(),
            forall|k: int| 0 <= k < i ==> is_space(#[trigger] v@[k]),
        decreases n - i,
    {
        i = i + 1;
    }
    proof {
        lemma_trim_start_skip(v@, i as int);
    }
    let ghost t = v@.skip(i as int);
    assert(trim_start(t) == t);
    let mut j: usize = n;
    while j > i && is_space_char(v[j - 1])
        invariant
            i <= j <= n == v@.len(),
            forall|k: int| j <= k < n ==> is_space(#[trigger] v@[k]),
        decreases j,
    {
        j = j - 1;
    }
    proof {
        let m = (j - i) as int;
        assert forall|k: int| m <= k < t.len() implies is_space(#[trigger] t[k]) by {
            assert(t[k] == v@[k + i]);
        }
        lemma_trim_end_take(t, m);
        assert(t.take(m) =~= v@.subrange(i as int, j as int));
    }
    (i, j)
}

/// The characters `v[start..end]`.
pub fn slice_chars(v: &Vec<char>, start: usize, end: usize) -> (r: Vec<char>)
    requires
        start <= end <= v@.len(),
    ensures
        r@ == v@.subrange(start as int, end as int),
{
    let mut r: Vec<char> = Vec::new();
    let mut i = start;
    while i < end
        invariant
            start <= i <= end <= v@.len(),
            r@ == v@.subrange(start as int, i as int),
        decreases end - i,
    {
        r.push(v[i]);
        assert(v@.subrange(start as int, i + 1) =~= v@.subrange(start as int, i as int).push(
            v@[i as int],
        ));
        i = i + 1;
    }
    r
}

/// `v` trimmed of leading and trailing whitespace.
pub fn trim_chars(v: &Vec<char>) -> (r: Vec<char>)
    ensures
        r@ == trim(v@),
{
    let (a, b) = trim_bounds(v);
    slice_chars(v, a, b)
}

/// Whether a string slice is empty or holds only whitespace.
pub fn is_blank_str(s: &str) -> (b: bool)
    ensures
        b == is_blank(s@),
{
    let v = chars_of(s);
    let (a, b) = trim_bounds(&v);
    a == b
}

/// Whether `p` occurs in `s` at position `i`.
pub fn occurs_at_exec(s: &Vec<char>, p: &Vec<char>, i: usize) -> (b: bool)
    ensures
        b == occurs_at(s@, p@, i as int),
{
    let n = s.len();
    let m = p.len();
    if i > n || m > n - i {
        return false;
    }
    let mut k: usize = 0;
    while k < m
        invariant
            i + m <= n == s@.len(),
            m == p@.len(),
            k <= m,
            forall|t: int| 0 <= t < k ==> s@[i + t] == p@[t],
        decreases m - k,
    {
        if s[i + k] != p[k] {
            assert(s@.subrange(i as int, i + m)[k as int] != p@[k as int]);
            return false;
        }
        k = k + 1;
    }
    assert(s@.subrange(i as int, i + m) =~= p@);
    true
}

/// Whether `p` occurs anywhere in `s`.
pub fn contains_chars(s: &Vec<char>, p: &Vec<char>) -> (b: bool)
    ensures
        b == contains(s@, p@),
{
    let n = s.len();
    if p.len() > n {
        return false;
    }
    let last = n - p.len();
    let mut i: usize = 0;
    while i < last
        invariant
            last == s@.len() - p@.len(),
            i <= last,
            forall|t: int| 0 <= t < i ==> !occurs_at(s@, p@, t),
        decreases last - i,
    {
        if occurs_at_exec(s, p, i) {
            return true;
        }
        i = i + 1;
    }
    let found = occurs_at_exec(s, p, last);
    assert(!found ==> forall|t: int| !occurs_at(s@, p@, t)) by {
        if !found {
            assert forall|t: int| !occurs_at(s@, p@, t) by {
                if 0 <= t && t < i {
                }
            }
        }
    }
    found
}

/// Whether `s` begins with `p`.
pub fn starts_with_chars(s: &Vec<char>, p: &Vec<char>) -> (b: bool)
    ensures
        b == starts_with(s@, p@),
{
    occurs_at_exec(s, p, 0)
}


proof fn lemma_replace_step_match(s: Seq<char>, p: Seq<char>, r: Seq<char>, i: int)
    requires
        p.len() > 0,
        occurs_at(s, p, i),
    ensures
        replace_all(s.skip(i), p, r) == r + replace_all(s.skip(i + p.len()), p, r),
{
    let t = s.skip(i);
    assert(t.take(p.len() as int) =~= s.subrange(i, i + p.len()));
    assert(t.skip(p.len() as int) =~= s.skip(i + p.len()));
}

proof fn lemma_replace_step_plain(s: Seq<char>, p: Seq<char>, r: Seq<char>, i: int)
    requires
        p.len() > 0,
        0 <= i < s.len(),
        !occurs_at(s, p, i),
    ensures
        replace_all(s.skip(i), p, r) == seq![s[i]] + replace_all(s.skip(i + 1), p, r),
{
    let t = s.skip(i);
    assert(t.skip(1) =~= s.skip(i + 1));
    if t.len() >= p.len() {
        assert(t.take(p.len() as int) =~= s.subrange(i, i + p.len()));
    } else {
        assert(s.skip(i + 1).len() < p.len());
        assert(t =~= seq![s[i]] + s.skip(i + 1));
    }
}

/// `s` with every non-overlapping occurrence of `p`, from left to right,
/// replaced by `r`.
pub fn replace_chars(s: &Vec<char>, p: &Vec<char>, r: &Vec<char>) -> (out: Vec<char>)
    requires
        p@.len() > 0,
    ensures
        out@ == replace_all(s@, p@, r@),
{
    let n = s.len();
    let m = p.len();
    let mut out: Vec<char> = Vec::new();
    let mut i: usize = 0;
    assert(s@.skip(0) =~= s@);
    while i < n
        invariant
            n == s@.len(),
            m == p@.len() > 0,
            i <= n,
            out@ + replace_all(s@.skip(i as int), p@, r@) == replace_all(s@, p@, r@),
        decreases n - i,
    {
        if occurs_at_exec(s, p, i) {
            proof {
                lemma_replace_step_match(s@, p@, r@, i as int);
            }
            let ghost before = out@;
            let mut k: usize = 0;
            while k < r.len()
                invariant
                    out@ == before + r@.take(k as int),
                    k <= r@.len(),
                decreases r@.len() - k,
            {
                out.push(r[k]);
                assert(r@.take(k + 1) =~= r@.take(k as int).push(r@[k as int]));
                k = k + 1;
            }
            assert(r@.take(r@.len() as int) =~= r@);
            assert(out@ + replace_all(s@.skip(i + m), p@, r@) =~= before + (r@ + replace_all(
                s@.skip(i + m),
                p@,
                r@,
            )));
            i = i + m;
        } else {
            proof {
                lemma_replace_step_plain(s@, p@, r@, i as int);
            }
            let ghost before = out@;
            out.push(s[i]);
            assert(out@ + replace_all(s@.skip(i + 1), p@, r@) =~= before + (seq![s@[i as int]]
                + replace_all(s@.skip(i + 1), p@, r@)));
            i = i + 1;
        }
    }
    assert(s@.skip(n as int) =~= Seq::<char>::empty());
    assert(out@ + replace_all(s@.skip(n as int), p@, r@) =~= out@);
    out
}



/// Whether two string slices hold the same characters.
pub fn same_text(a: &str, b: &str) -> (r: bool)
    ensures
        r == (a@ == b@),
{
    let av = chars_of(a);
    let bv = chars_of(b);
    if av.len() != bv.len() {
        return false;
    }
    let n = av.len();
    for i in 0..n
        invariant
            n == av@.len() == bv@.len(),
            av@ == a@,
            bv@ == b@,
            forall|k: int| 0 <= k < i ==> av@[k] == bv@[k],
    {
        if av[i] != bv[i] {
            assert(av@[i as int] != bv@[i as int]);
            return false;
        }
    }
    assert(av@ =~= bv@);
    true
}

/// The lowercase form of a string under the Unicode case mapping that
/// `str::to_lowercase` applies (the mapping's tables are not written out).
pub uninterp spec fn lowercase(s: Seq<char>) -> Seq<char>;

/// Calls `str::to_lowercase`. The contract names the result `lowercase` of
/// the input's characters and states nothing more of it: the Unicode case
/// tables that decide each character are not restated here.
#[verifier::external_body]
pub(crate) fn to_lowercase(s: &str) -> (r: String)
    ensures
        r@ == lowercase(s@),
{
    s.to_lowercase()
}

} // verus!
