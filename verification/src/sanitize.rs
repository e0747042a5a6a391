//! Transcript sanitizing for plain transcription: the steps as character
//! sequences, their implementations, and what the result always satisfies.

use vstd::prelude::*;

use crate::text::{
    contains, is_blank, is_space, lemma_replace_absent, lemma_trim_shape, occurs_at, replace_all,
    trim, trim_end, trim_start,
};

verus! {

/// `s` with every run of spaces (U+0020) collapsed to a single space.
pub open spec fn squeeze_spaces(s: Seq<char>) -> Seq<char>
    decreases s.len(),
{
    if s.len() == 0 {
        s
    } else if s.len() >= 2 && s.last() == ' ' && s[s.len() - 2] == ' ' {
        squeeze_spaces(s.drop_last())
    } else {
        squeeze_spaces(s.drop_last()).push(s.last())
    }
}

/// A character that ends a sentence.
pub open spec fn is_sentence_end(c: char) -> bool {
    c == '.' || c == '!' || c == '?'
}

/// The ASCII uppercase form of a character; other characters are unchanged.
pub open spec fn ascii_upper(c: char) -> char {
    if 'a' <= c && c <= 'z' {
        ((c as int) - 32) as char
    } else {
        c
    }
}

/// A character that may end a sanitized transcript.
pub open spec fn is_final_mark(c: char) -> bool {
    c == '.' || c == '!' || c == '?' || c == ':' || c == '"' || c == '\''
}

/// `s` with a period appended when it is not empty and does not already end
/// with a final mark.
pub open spec fn close_sentence(s: Seq<char>) -> Seq<char> {
    if s.len() > 0 && !is_final_mark(s.last()) {
        s.push('.')
    } else {
        s
    }
}

/// The layout of sentences as the characters of a text are read: the text
/// laid out so far, the whitespace read since its last character, whether
/// the last character read (other than whitespace) ended a sentence, and
/// whether the next letter starts a sentence.
pub struct Arrangement {
    pub text: Seq<char>,
    pub pending: Seq<char>,
    pub after_mark: bool,
    pub capitalize_next: bool,
}

/// The layout before any character is read.
pub open spec fn arrangement_start() -> Arrangement {
    Arrangement {
        text: Seq::empty(),
        pending: Seq::empty(),
        after_mark: false,
        capitalize_next: true,
    }
}

/// Reading one more character: a sentence mark is laid out right after the
/// text, dropping whitespace before it; whitespace after a sentence mark is
/// dropped, other whitespace waits for the next character; any other
/// character is laid out after the waiting whitespace, or after one space
/// when it follows a sentence mark (no space before a comma), in uppercase
/// when it starts a sentence.
pub open spec fn arrange_step(a: Arrangement, c: char) -> Arrangement {
    if is_sentence_end(c) {
        Arrangement {
            text: a.text.push(c),
            pending: Seq::empty(),
            after_mark: true,
            capitalize_next: true,
        }
    } else if is_space(c) {
        if a.after_mark {
            a
        } else {
            Arrangement {
                text: a.text,
                pending: a.pending.push(c),
                after_mark: false,
                capitalize_next: a.capitalize_next,
            }
        }
    } else {
        let lead = if a.after_mark {
            if c == ',' {
                Seq::<char>::empty()
            } else {
                seq![' ']
            }
        } else {
            a.pending
        };
        let shown = if a.capitalize_next {
            ascii_upper(c)
        } else {
            c
        };
        Arrangement {
            text: a.text + lead + seq![shown],
            pending: Seq::empty(),
            after_mark: false,
            capitalize_next: false,
        }
    }
}

/// The layout after reading all of `s`.
pub open spec fn arrangement(s: Seq<char>) -> Arrangement
    decreases s.len(),
{
    if s.len() == 0 {
        arrangement_start()
    } else {
        arrange_step(arrangement(s.drop_last()), s.last())
    }
}

/// `s` with its sentences laid out: each sentence mark kept right after its
/// sentence, one space between a sentence mark and the next sentence, the
/// first letter of each sentence in uppercase, and trailing whitespace
/// dropped.
pub open spec fn arrange_sentences(s: Seq<char>) -> Seq<char> {
    arrangement(s).text
}

/// The transcript trimmed, with runs of spaces collapsed and spaces before
/// "," removed, its sentences laid out, and a final period added where no
/// final mark ends it.
pub open spec fn sanitized(s: Seq<char>) -> Seq<char> {
    let a = squeeze_spaces(trim(s));
    let b = replace_all(a, " ,"@, ","@);
    close_sentence(arrange_sentences(b))
}

/// A sanitized transcript that is not empty ends with a final mark.
pub proof fn law_sanitized_ends_with_mark(s: Seq<char>)
    ensures
        sanitized(s).len() > 0 ==> is_final_mark(sanitized(s).last()),
{
}

pub(crate) fn squeeze_spaces_chars(s: &Vec<char>) -> (r: Vec<char>)
    ensures
        r@ == squeeze_spaces(s@),
{
    let n = s.len();
    let mut r: Vec<char> = Vec::new();
    assert(s@.take(0) =~= Seq::<char>::empty());
    for i in 0..n
        invariant
            n == s@.len(),
            r@ == squeeze_spaces(s@.take(i as int)),
    {
        let ghost t = s@.take(i + 1);
        assert(t.drop_last() =~= s@.take(i as int));
        if !(i > 0 && s[i] == ' ' && s[i - 1] == ' ') {
            r.push(s[i]);
        }
    }
    assert(s@.take(n as int) =~= s@);
    r
}

fn ascii_upper_char(c: char) -> (r: char)
    ensures
        r == ascii_upper(c),
{
    if 'a' <= c && c <= 'z' {
        ((c as u8) - 32) as char
    } else {
        c
    }
}


/// The sentences of `s` laid out.
pub(crate) fn arrange_sentences_chars(s: &Vec<char>) -> (r: Vec<char>)
    ensures
        r@ == arrange_sentences(s@),
{
    let n = s.len();
    let mut text: Vec<char> = Vec::new();
    let mut pending: Vec<char> = Vec::new();
    let mut after_mark = false;
    let mut capitalize_next = true;
    assert(s@.take(0) =~= Seq::<char>::empty());
    for i in 0..n
        invariant
            n == s@.len(),
            arrangement(s@.take(i as int)) == (Arrangement {
                text: text@,
                pending: pending@,
                after_mark,
                capitalize_next,
            }),
    {
        let ghost t = s@.take(i + 1);
        assert(t.drop_last() =~= s@.take(i as int));
        let c = s[i];
        if c == '.' || c == '!' || c == '?' {
            text.push(c);
            pending = Vec::new();
            after_mark = true;
            capitalize_next = true;
        } else if crate::text::is_space_char(c) {
            if !after_mark {
                pending.push(c);
            }
        } else {
            if after_mark {
                if c != ',' {
                    text.push(' ');
                }
            } else {
                append_chars(&mut text, &pending);
            }
            let shown = if capitalize_next {
                ascii_upper_char(c)
            } else {
                c
            };
            let ghost before = text@;
            text.push(shown);
            pending = Vec::new();
            after_mark = false;
            capitalize_next = false;
        }
        assert(arrangement(t).text =~= text@);
        assert(arrangement(t).pending =~= pending@);
    }
    assert(s@.take(n as int) =~= s@);
    text
}

pub(crate) fn append_chars(out: &mut Vec<char>, v: &Vec<char>)
    ensures
        final(out)@ == old(out)@ + v@,
{
    let n = v.len();
    let ghost before = out@;
    for i in 0..n
        invariant
            n == v@.len(),
            out@ == before + v@.take(i as int),
    {
        out.push(v[i]);
        assert(v@.take(i + 1) =~= v@.take(i as int).push(v@[i as int]));
    }
    assert(v@.take(n as int) =~= v@);
}

/// Two spaces stand at positions `i` and `i + 1` of `x`.
pub open spec fn space_pair(x: Seq<char>, i: int) -> bool {
    x[i] == ' ' && x[i + 1] == ' '
}

/// `x` never holds two spaces in a row.
pub open spec fn no_double_space(x: Seq<char>) -> bool {
    forall|i: int| 0 <= i < x.len() - 1 ==> !#[trigger] space_pair(x, i)
}

/// A lowercase ASCII letter.
pub open spec fn is_ascii_lower(c: char) -> bool {
    'a' <= c && c <= 'z'
}

proof fn lemma_no_dd_concat(a: Seq<char>, b: Seq<char>)
    requires
        no_double_space(a),
        no_double_space(b),
        !(a.len() > 0 && b.len() > 0 && a.last() == ' ' && b[0] == ' '),
    ensures
        no_double_space(a + b),
{
    let c = a + b;
    assert forall|i: int| 0 <= i < c.len() - 1 implies !#[trigger] space_pair(c, i) by {
        if i < a.len() - 1 {
            assert(!space_pair(a, i));
        } else if i == a.len() - 1 {
        } else {
            assert(!space_pair(b, i - a.len()));
        }
    }
}

proof fn lemma_no_dd_subrange(x: Seq<char>, a: int, b: int)
    requires
        no_double_space(x),
        0 <= a <= b <= x.len(),
    ensures
        no_double_space(x.subrange(a, b)),
{
    let y = x.subrange(a, b);
    assert forall|i: int| 0 <= i < y.len() - 1 implies !#[trigger] space_pair(y, i) by {
        assert(!space_pair(x, i + a));
    }
}

proof fn lemma_squeeze_ends(s: Seq<char>)
    requires
        s.len() > 0,
    ensures
        squeeze_spaces(s).len() > 0,
        squeeze_spaces(s)[0] == s[0],
        squeeze_spaces(s).last() == s.last(),
    decreases s.len(),
{
    let t = s.drop_last();
    if s.len() >= 2 {
        lemma_squeeze_ends(t);
        if s.last() == ' ' && s[s.len() - 2] == ' ' {
            assert(squeeze_spaces(s) == squeeze_spaces(t));
            assert(t.last() == s[s.len() - 2]);
        } else {
            assert(squeeze_spaces(s) == squeeze_spaces(t).push(s.last()));
        }
        assert(t[0] == s[0]);
    } else {
        assert(t.len() == 0);
        assert(squeeze_spaces(t) =~= Seq::<char>::empty());
        assert(squeeze_spaces(s) == squeeze_spaces(t).push(s.last()));
    }
}

proof fn lemma_squeeze_no_dd(s: Seq<char>)
    ensures
        no_double_space(squeeze_spaces(s)),
    decreases s.len(),
{
    if s.len() > 0 {
        let t = s.drop_last();
        lemma_squeeze_no_dd(t);
        if !(s.len() >= 2 && s.last() == ' ' && s[s.len() - 2] == ' ') {
            if t.len() > 0 {
                lemma_squeeze_ends(t);
            }
            lemma_no_dd_concat(squeeze_spaces(t), seq![s.last()]);
            assert(squeeze_spaces(t).push(s.last()) =~= squeeze_spaces(t) + seq![s.last()]);
        }
    }
}

/// Replacing a pattern that begins with a space by one character that is
/// not a space keeps a text free of double spaces, keeps its first
/// character when that is not a space, and keeps it non-empty.
proof fn lemma_replace_single(s: Seq<char>, p: Seq<char>, c: char)
    requires
        p.len() > 0,
        p[0] == ' ',
        c != ' ',
    ensures
        no_double_space(s) ==> no_double_space(replace_all(s, p, seq![c])),
        replace_all(s, p, seq![c]).len() > 0 && replace_all(s, p, seq![c])[0] == ' ' ==> s.len()
            > 0 && s[0] == ' ',
        s.len() > 0 ==> replace_all(s, p, seq![c]).len() > 0,
        s.len() > 0 && s[0] != ' ' ==> replace_all(s, p, seq![c])[0] == s[0],
    decreases s.len(),
{
    let r = seq![c];
    if s.len() >= p.len() {
        if s.take(p.len() as int) == p {
            let t = s.skip(p.len() as int);
            lemma_replace_single(t, p, c);
            if no_double_space(s) {
                lemma_no_dd_subrange(s, p.len() as int, s.len() as int);
                assert(s.subrange(p.len() as int, s.len() as int) =~= t);
                lemma_no_dd_concat(r, replace_all(t, p, r));
            }
            assert(s.take(p.len() as int)[0] == s[0]);
        } else {
            let t = s.skip(1);
            lemma_replace_single(t, p, c);
            if no_double_space(s) {
                lemma_no_dd_subrange(s, 1, s.len() as int);
                assert(s.subrange(1, s.len() as int) =~= t);
                if s[0] == ' ' && replace_all(t, p, r).len() > 0 && replace_all(t, p, r)[0]
                    == ' ' {
                    assert(space_pair(s, 0));
                }
                lemma_no_dd_concat(seq![s[0]], replace_all(t, p, r));
            }
        }
    }
}


/// A space followed by a comma stands at position `i` of `x`.
pub open spec fn space_comma(x: Seq<char>, i: int) -> bool {
    x[i] == ' ' && x[i + 1] == ','
}

/// `x` never holds a space right before a comma.
pub open spec fn no_space_before_comma(x: Seq<char>) -> bool {
    forall|i: int| 0 <= i < x.len() - 1 ==> !#[trigger] space_comma(x, i)
}

/// A sentence mark stands at position `i` of `x`.
pub open spec fn mark_at(x: Seq<char>, i: int) -> bool {
    is_sentence_end(x[i])
}

/// A sentence mark followed by a space stands at position `i` of `x`.
pub open spec fn sentence_break(x: Seq<char>, i: int) -> bool {
    is_sentence_end(x[i]) && x[i + 1] == ' '
}

/// `x` begins, and every sentence break in it is followed, by a character
/// that is not a lowercase ASCII letter.
pub open spec fn sentences_capitalized(x: Seq<char>) -> bool {
    &&& (x.len() > 0 ==> !is_ascii_lower(x[0]))
    &&& forall|i: int|
        0 <= i && i + 2 < x.len() && #[trigger] sentence_break(x, i) ==> !is_ascii_lower(
            x[i + 2],
        )
}

/// What follows the sentence mark at `i`: another mark, a comma, or one
/// space and then a character that is neither whitespace, a mark nor a
/// comma.
pub open spec fn well_followed(x: Seq<char>, i: int) -> bool {
    ||| is_sentence_end(x[i + 1])
    ||| x[i + 1] == ','
    ||| (x[i + 1] == ' ' && i + 2 < x.len() && !is_space(x[i + 2]) && !is_sentence_end(x[i + 2])
        && x[i + 2] != ',')
}

/// Every sentence mark of `x` stands right after a character that is not
/// whitespace, and is well followed unless it ends `x`.
pub open spec fn marks_placed(x: Seq<char>) -> bool {
    forall|i: int|
        0 <= i < x.len() && #[trigger] mark_at(x, i) ==> (i == 0 || !is_space(x[i - 1])) && (i
            + 1 < x.len() ==> well_followed(x, i))
}

/// What reading the characters of `s` keeps of the layout.
pub open spec fn well_arranged(s: Seq<char>, a: Arrangement) -> bool {
    &&& a.pending.len() <= s.len()
    &&& a.pending == s.skip(s.len() - a.pending.len())
    &&& forall|k: int| 0 <= k < a.pending.len() ==> is_space(#[trigger] a.pending[k])
    &&& a.after_mark ==> a.pending.len() == 0 && a.text.len() > 0 && is_sentence_end(
        a.text.last(),
    )
    &&& !a.after_mark && a.text.len() > 0 ==> !is_sentence_end(a.text.last())
    &&& a.capitalize_next == (a.text.len() == 0 || a.after_mark)
    &&& a.text.len() > 0 ==> !is_space(a.text[0]) && !is_space(a.text.last())
    &&& a.text.len() == 0 ==> a.pending.len() == 0 && !a.after_mark
    &&& s.len() > 0 ==> a.text.len() > 0
    &&& no_double_space(a.text)
    &&& no_space_before_comma(a.text)
    &&& marks_placed(a.text)
    &&& sentences_capitalized(a.text)
}

/// What the text read must satisfy.
pub open spec fn ready_to_arrange(s: Seq<char>) -> bool {
    &&& no_double_space(s)
    &&& no_space_before_comma(s)
    &&& s.len() > 0 ==> !is_space(s[0])
}

proof fn lemma_no_sc_concat(a: Seq<char>, b: Seq<char>)
    requires
        no_space_before_comma(a),
        no_space_before_comma(b),
        !(a.len() > 0 && b.len() > 0 && a.last() == ' ' && b[0] == ','),
    ensures
        no_space_before_comma(a + b),
{
    let c = a + b;
    assert forall|i: int| 0 <= i < c.len() - 1 implies !#[trigger] space_comma(c, i) by {
        if i < a.len() - 1 {
            assert(!space_comma(a, i));
        } else if i == a.len() - 1 {
        } else {
            assert(!space_comma(b, i - a.len()));
        }
    }
}

proof fn lemma_no_sc_subrange(x: Seq<char>, a: int, b: int)
    requires
        no_space_before_comma(x),
        0 <= a <= b <= x.len(),
    ensures
        no_space_before_comma(x.subrange(a, b)),
{
    let y = x.subrange(a, b);
    assert forall|i: int| 0 <= i < y.len() - 1 implies !#[trigger] space_comma(y, i) by {
        assert(!space_comma(x, i + a));
    }
}

proof fn lemma_ascii_upper(c: char)
    ensures
        !is_ascii_lower(ascii_upper(c)),
        ascii_upper(c) == ' ' <==> c == ' ',
        ascii_upper(c) == ',' <==> c == ',',
        is_space(ascii_upper(c)) <==> is_space(c),
        is_sentence_end(ascii_upper(c)) <==> is_sentence_end(c),
        !is_ascii_lower(c) ==> ascii_upper(c) == c,
{
}

proof fn lemma_arrange_step(t: Seq<char>, c: char)
    requires
        ready_to_arrange(t.push(c)),
        well_arranged(t, arrangement(t)),
    ensures
        well_arranged(t.push(c), arrangement(t.push(c))),
{
    let s = t.push(c);
    assert(s.drop_last() =~= t);
    let a = arrangement(t);
    let b = arrangement(s);
    assert(b == arrange_step(a, c));
    let x = a.text;
    let l = x.len();
    if t.len() == 0 {
        assert(s[0] == c);
    }
    assert(b.pending.len() <= s.len() && b.pending =~= s.skip(s.len() - b.pending.len())) by {
        if is_space(c) && !a.after_mark {
            assert(b.pending == a.pending.push(c));
        } else if is_space(c) {
        } else {
            assert(b.pending.len() == 0);
        }
    }
    if is_sentence_end(c) {
        assert(b.text == x.push(c));
        let y = b.text;
        assert(s.skip(s.len() - 0) =~= Seq::<char>::empty());
        lemma_no_dd_concat(x, seq![c]);
        lemma_no_sc_concat(x, seq![c]);
        assert(x + seq![c] =~= y);
        assert forall|i: int|
            0 <= i < y.len() && #[trigger] mark_at(y, i) implies (i == 0 || !is_space(y[i - 1]))
            && (i + 1 < y.len() ==> well_followed(y, i)) by {
            if i < l {
                assert(mark_at(x, i));
                if i + 1 < l {
                    assert(well_followed(x, i));
                    if x[i + 1] == ' ' {
                        assert(i + 2 < l);
                    }
                }
            }
        }
        assert forall|i: int|
            0 <= i && i + 2 < y.len() && #[trigger] sentence_break(y, i) implies !is_ascii_lower(
            y[i + 2],
        ) by {
            if i + 2 < l {
                assert(sentence_break(x, i));
            }
        }
    } else if is_space(c) {
        if a.after_mark {
            assert(b == a);
            assert(s.skip(s.len() - 0) =~= Seq::<char>::empty());
        } else {
            if l == 0 {
                assert(t.len() == 0);
            }
            assert(b.pending == a.pending.push(c));
            assert(b.pending =~= s.skip(s.len() - b.pending.len()));
        }
    } else {
        let lead = if a.after_mark {
            if c == ',' {
                Seq::<char>::empty()
            } else {
                seq![' ']
            }
        } else {
            a.pending
        };
        let shown = if a.capitalize_next {
            ascii_upper(c)
        } else {
            c
        };
        lemma_ascii_upper(c);
        assert(b.text == x + lead + seq![shown]);
        let y = b.text;
        let m = lead.len();
        assert(s.skip(s.len() - 0) =~= Seq::<char>::empty());
        assert(forall|k: int| 0 <= k < m ==> is_space(#[trigger] lead[k]));
        if !a.after_mark {
            lemma_no_dd_subrange(s, t.len() - m, t.len() as int);
            lemma_no_sc_subrange(s, t.len() - m, t.len() as int);
            assert(s.subrange(t.len() - m, t.len() as int) =~= lead);
            if m > 0 {
                assert(lead.last() == t.last());
                assert(s[s.len() - 2] == t.last());
                if c == ',' {
                    assert(!space_comma(s, s.len() - 2));
                }
            }
        } else {
            assert(no_double_space(lead)) by {
                assert forall|i: int| 0 <= i < lead.len() - 1 implies !#[trigger] space_pair(
                    lead,
                    i,
                ) by {}
            }
            assert(no_space_before_comma(lead)) by {
                assert forall|i: int| 0 <= i < lead.len() - 1 implies !#[trigger] space_comma(
                    lead,
                    i,
                ) by {}
            }
        }
        if l == 0 {
            assert(m == 0);
        }
        lemma_no_dd_concat(x, lead);
        lemma_no_dd_concat(x + lead, seq![shown]);
        lemma_no_sc_concat(x, lead);
        if m > 0 && shown == ',' {
            assert((x + lead).last() == lead.last());
        }
        lemma_no_sc_concat(x + lead, seq![shown]);
        assert(y.len() == l + m + 1);
        assert forall|k: int| 0 <= k < m implies y[l as int + k] == lead[k] by {}
        assert(y[(l + m) as int] == shown);
        assert forall|i: int|
            0 <= i < y.len() && #[trigger] mark_at(y, i) implies (i == 0 || !is_space(y[i - 1]))
            && (i + 1 < y.len() ==> well_followed(y, i)) by {
            if i < l {
                assert(y[i] == x[i]);
                assert(mark_at(x, i));
                if i + 1 < l {
                    assert(well_followed(x, i));
                    if x[i + 1] == ' ' {
                        assert(i + 2 < l);
                    }
                } else {
                    assert(a.after_mark);
                }
            } else if i < l + m {
                assert(is_space(lead[i - l]));
            }
        }
        assert forall|i: int|
            0 <= i && i + 2 < y.len() && #[trigger] sentence_break(y, i) implies !is_ascii_lower(
            y[i + 2],
        ) by {
            if i + 2 < l {
                assert(sentence_break(x, i));
            } else if i + 2 == l {
                assert(y[i + 1] == x.last());
            } else if i + 1 == l {
                assert(a.after_mark);
                assert(a.capitalize_next);
                assert(m == 1);
            } else if i < l + m {
                assert(is_space(lead[i - l]));
            }
        }
        if l == 0 {
            assert(y[0] == shown);
        } else {
            assert(y[0] == x[0]);
        }
    }
}

proof fn lemma_pending_kept(s: Seq<char>, b: Arrangement)
    requires
        b.pending.len() <= s.len(),
        b.pending =~= s.skip(s.len() - b.pending.len()),
    ensures
        b.pending == s.skip(s.len() - b.pending.len()),
{
}

proof fn lemma_arrangement(s: Seq<char>)
    requires
        ready_to_arrange(s),
    ensures
        well_arranged(s, arrangement(s)),
    decreases s.len(),
{
    if s.len() == 0 {
        assert(s.skip(0) =~= Seq::<char>::empty());
    } else {
        let t = s.drop_last();
        lemma_no_dd_subrange(s, 0, t.len() as int);
        lemma_no_sc_subrange(s, 0, t.len() as int);
        assert(s.subrange(0, t.len() as int) =~= t);
        if t.len() > 0 {
            assert(t[0] == s[0]);
        }
        lemma_arrangement(t);
        assert(t.push(s.last()) =~= s);
        lemma_arrange_step(t, s.last());
    }
}


proof fn lemma_comma_fixed(x: Seq<char>)
    requires
        no_double_space(x),
    ensures
        no_space_before_comma(replace_all(x, " ,"@, ","@)),
        replace_all(x, " ,"@, ","@).len() > 0 && replace_all(x, " ,"@, ","@)[0] == ',' ==> x.len()
            > 0 && (x[0] == ',' || x[0] == ' '),
    decreases x.len(),
{
    reveal_strlit(" ,");
    reveal_strlit(",");
    let p = " ,"@;
    let r = ","@;
    let y = replace_all(x, p, r);
    if x.len() >= 2 {
        if x.take(2) == p {
            let rest = x.skip(2);
            lemma_no_dd_subrange(x, 2, x.len() as int);
            assert(x.subrange(2, x.len() as int) =~= rest);
            lemma_comma_fixed(rest);
            assert(no_space_before_comma(r)) by {
                assert forall|i: int| 0 <= i < r.len() - 1 implies !#[trigger] space_comma(r, i) by {}
            }
            lemma_no_sc_concat(r, replace_all(rest, p, r));
            assert(x[0] == ' ') by {
                assert(x.take(2)[0] == p[0]);
            }
        } else {
            let rest = x.skip(1);
            lemma_no_dd_subrange(x, 1, x.len() as int);
            assert(x.subrange(1, x.len() as int) =~= rest);
            lemma_comma_fixed(rest);
            let yr = replace_all(rest, p, r);
            assert(no_space_before_comma(seq![x[0]])) by {
                assert forall|i: int| 0 <= i < 0 implies !#[trigger] space_comma(seq![x[0]], i) by {}
            }
            if x[0] == ' ' && yr.len() > 0 && yr[0] == ',' {
                if rest[0] == ' ' {
                    assert(space_pair(x, 0));
                } else {
                    assert(x.take(2) =~= p);
                }
            }
            lemma_no_sc_concat(seq![x[0]], yr);
        }
    } else {
        assert forall|i: int| 0 <= i < y.len() - 1 implies !#[trigger] space_comma(y, i) by {}
    }
}

/// The text that the sentences are laid out from: the transcript trimmed,
/// with runs of spaces collapsed and spaces before "," removed.
pub open spec fn prepared(s: Seq<char>) -> Seq<char> {
    replace_all(squeeze_spaces(trim(s)), " ,"@, ","@)
}

proof fn lemma_prepared(s: Seq<char>)
    ensures
        ready_to_arrange(prepared(s)),
        prepared(s).len() == 0 <==> is_blank(s),
{
    let ab = lemma_trim_shape(s);
    let t = trim(s);
    let a = squeeze_spaces(t);
    reveal_strlit(" ,");
    reveal_strlit(",");
    assert(","@ =~= seq![',']);
    lemma_squeeze_no_dd(t);
    lemma_replace_single(a, " ,"@, ',');
    lemma_comma_fixed(a);
    if t.len() > 0 {
        lemma_squeeze_ends(t);
    }
}

/// A sanitized transcript: trimmed, without double spaces or spaces before
/// commas, with its sentence marks well placed and its sentences
/// capitalized, and ending with a final mark.
pub open spec fn clean(y: Seq<char>) -> bool {
    &&& y.len() > 0 ==> !is_space(y[0]) && !is_space(y.last()) && is_final_mark(y.last())
    &&& no_double_space(y)
    &&& no_space_before_comma(y)
    &&& marks_placed(y)
    &&& sentences_capitalized(y)
}

proof fn lemma_sanitized_clean(s: Seq<char>)
    ensures
        clean(sanitized(s)),
        sanitized(s).len() == 0 <==> is_blank(s),
{
    let b = prepared(s);
    lemma_prepared(s);
    lemma_arrangement(b);
    let x = arrange_sentences(b);
    let y = sanitized(s);
    if x.len() > 0 && !is_final_mark(x.last()) {
        assert(y == x.push('.'));
        lemma_no_dd_concat(x, seq!['.']);
        lemma_no_sc_concat(x, seq!['.']);
        assert(x + seq!['.'] =~= y);
        let l = x.len();
        assert forall|i: int|
            0 <= i < y.len() && #[trigger] mark_at(y, i) implies (i == 0 || !is_space(y[i - 1]))
            && (i + 1 < y.len() ==> well_followed(y, i)) by {
            if i < l {
                assert(mark_at(x, i));
                if i + 1 < l {
                    assert(well_followed(x, i));
                    if x[i + 1] == ' ' {
                        assert(i + 2 < l);
                    }
                }
            }
        }
        assert forall|i: int|
            0 <= i && i + 2 < y.len() && #[trigger] sentence_break(y, i) implies !is_ascii_lower(
            y[i + 2],
        ) by {
            if i + 2 < l {
                assert(sentence_break(x, i));
            }
        }
    }
}

/// A sanitized transcript is empty exactly when the transcript is blank.
pub proof fn law_sanitized_empty_iff_blank(s: Seq<char>)
    ensures
        sanitized(s).len() == 0 <==> is_blank(s),
{
    lemma_sanitized_clean(s);
}

/// A sanitized transcript never holds two spaces in a row.
pub proof fn law_sanitized_no_double_space(s: Seq<char>)
    ensures
        no_double_space(sanitized(s)),
{
    lemma_sanitized_clean(s);
}

/// Every sentence of a sanitized transcript begins with a capital: neither
/// its first character nor the character after a sentence mark and a space
/// is a lowercase ASCII letter.
pub proof fn law_sanitized_capitalized(s: Seq<char>)
    ensures
        sentences_capitalized(sanitized(s)),
{
    lemma_sanitized_clean(s);
}

/// In a sanitized transcript every sentence mark stands right after its
/// sentence (no whitespace before it) and is followed by another mark, a
/// comma, or one space and the next sentence.
pub proof fn law_sanitized_marks_placed(s: Seq<char>)
    ensures
        marks_placed(sanitized(s)),
        no_space_before_comma(sanitized(s)),
{
    lemma_sanitized_clean(s);
}

/// Replacing a pattern by a text that ends with a character that is not
/// whitespace keeps a last character that is not whitespace.
proof fn lemma_replace_keeps_last(s: Seq<char>, p: Seq<char>, r: Seq<char>)
    requires
        p.len() > 0,
        r.len() > 0,
        !is_space(r.last()),
        s.len() > 0,
        !is_space(s.last()),
    ensures
        replace_all(s, p, r).len() > 0,
        !is_space(replace_all(s, p, r).last()),
    decreases s.len(),
{
    if s.len() >= p.len() {
        if s.take(p.len() as int) == p {
            let t = s.skip(p.len() as int);
            let q = replace_all(t, p, r);
            if t.len() > 0 {
                assert(t.last() == s.last());
                lemma_replace_keeps_last(t, p, r);
                assert((r + q).last() == q.last());
            } else {
                assert(q.len() == 0);
                assert((r + q).last() == r.last());
            }
        } else {
            let t = s.skip(1);
            let q = replace_all(t, p, r);
            if t.len() > 0 {
                assert(t.last() == s.last());
                lemma_replace_keeps_last(t, p, r);
                assert((seq![s[0]] + q).last() == q.last());
            } else {
                assert(q.len() == 0);
                assert((seq![s[0]] + q).last() == s.last());
            }
        }
    }
}

/// Laying out a text in which no '.', '!' or '?' stands, and which does not
/// begin with whitespace, keeps every character, in place and in its case,
/// but the first, which is capitalized; whitespace at its end waits.
proof fn lemma_arrange_unbroken(u: Seq<char>)
    requires
        forall|i: int|
            0 <= i < u.len() ==> #[trigger] u[i] != '.' && u[i] != '!' && u[i] != '?',
        u.len() > 0 ==> !is_space(u[0]),
    ensures
        !arrangement(u).after_mark,
        arrangement(u).capitalize_next == (u.len() == 0),
        u.len() == 0 ==> arrangement(u).text.len() == 0 && arrangement(u).pending.len() == 0,
        u.len() > 0 ==> arrangement(u).text + arrangement(u).pending == seq![ascii_upper(u[0])]
            + u.skip(1),
        u.len() > 0 && !is_space(u.last()) ==> arrangement(u).pending.len() == 0,
    decreases u.len(),
{
    if u.len() > 0 {
        let t = u.drop_last();
        let c = u.last();
        assert(c == u[u.len() - 1]);
        if t.len() > 0 {
            assert(t[0] == u[0]);
        }
        lemma_arrange_unbroken(t);
        let a = arrangement(t);
        let b = arrangement(u);
        assert(b == arrange_step(a, c));
        if t.len() == 0 {
            assert(u.skip(1) =~= Seq::<char>::empty());
            assert(b.text =~= seq![ascii_upper(u[0])]);
        } else if is_space(c) {
            assert(b.text + b.pending =~= (a.text + a.pending).push(c));
            assert((seq![ascii_upper(u[0])] + t.skip(1)).push(c) =~= seq![ascii_upper(u[0])]
                + u.skip(1));
        } else {
            assert(b.text + b.pending =~= (a.text + a.pending) + seq![c]);
            assert((seq![ascii_upper(u[0])] + t.skip(1)) + seq![c] =~= seq![ascii_upper(u[0])]
                + u.skip(1));
        }
    }
}

/// Only '.', '!' and '?' end a sentence: when the prepared transcript holds
/// none of them, sanitizing keeps each of its characters, in place and in
/// its case, except the first, which is capitalized, and adds a period
/// unless the text ends with ':', '"' or '\''.
pub proof fn law_unbroken_sentence_kept(s: Seq<char>)
    requires
        forall|i: int|
            0 <= i < prepared(s).len() ==> #[trigger] prepared(s)[i] != '.' && prepared(s)[i]
                != '!' && prepared(s)[i] != '?',
    ensures
        prepared(s).len() == 0 ==> sanitized(s) == Seq::<char>::empty(),
        prepared(s).len() > 0 ==> sanitized(s) == (if prepared(s).last() == ':' || prepared(
            s,
        ).last() == '"' || prepared(s).last() == '\'' {
            seq![ascii_upper(prepared(s)[0])] + prepared(s).skip(1)
        } else {
            (seq![ascii_upper(prepared(s)[0])] + prepared(s).skip(1)).push('.')
        }),
{
    let u = prepared(s);
    lemma_prepared(s);
    lemma_arrange_unbroken(u);
    if u.len() > 0 {
        let t = trim(s);
        lemma_trim_shape(s);
        let a = squeeze_spaces(t);
        lemma_squeeze_ends(t);
        reveal_strlit(" ,");
        reveal_strlit(",");
        lemma_replace_keeps_last(a, " ,"@, ","@);
        let y = seq![ascii_upper(u[0])] + u.skip(1);
        assert(arrangement(u).text == y);
        assert(y.last() == u.last() || (u.len() == 1 && y.last() == ascii_upper(u[0])));
        lemma_ascii_upper(u[0]);
    }
}

/// What laying out a clean text keeps, as its characters are read.
pub open spec fn relays(z: Seq<char>, a: Arrangement) -> bool {
    &&& a.after_mark ==> a.pending.len() == 0 && a.text.len() > 0 && is_sentence_end(
        a.text.last(),
    ) && (z == a.text || z == a.text.push(' '))
    &&& !a.after_mark ==> z == a.text + a.pending && (a.text.len() > 0 ==> !is_sentence_end(
        a.text.last(),
    ))
    &&& forall|k: int| 0 <= k < a.pending.len() ==> is_space(#[trigger] a.pending[k])
    &&& a.capitalize_next == (a.text.len() == 0 || a.after_mark)
    &&& a.text.len() == 0 ==> !a.after_mark && a.pending.len() == 0
}

proof fn lemma_relays(y: Seq<char>, i: int)
    requires
        clean(y),
        0 <= i <= y.len(),
    ensures
        relays(y.take(i), arrangement(y.take(i))),
    decreases i,
{
    if i == 0 {
        assert(y.take(0) =~= Seq::<char>::empty());
    } else {
        let j = i - 1;
        let z = y.take(j);
        lemma_relays(y, j);
        let zz = y.take(i);
        assert(zz.drop_last() =~= z);
        let c = y[j];
        assert(zz.last() == c);
        let a = arrangement(z);
        let b = arrangement(zz);
        assert(b == arrange_step(a, c));
        lemma_ascii_upper(c);
        if j > 0 {
            assert(z.last() == y[j - 1]);
        }
        if a.text.len() == 0 {
            assert(z.len() == 0);
        }
        if a.after_mark && z == a.text.push(' ') {
            assert(y[j - 1] == ' ');
            assert(z[j - 2] == a.text.last());
            assert(y[j - 2] == a.text.last());
            assert(mark_at(y, j - 2));
            assert(well_followed(y, j - 2));
            assert(sentence_break(y, j - 2));
        } else if a.after_mark {
            assert(y[j - 1] == a.text.last());
            assert(mark_at(y, j - 1));
            assert(well_followed(y, j - 1));
        } else if a.pending.len() > 0 {
            assert(z.last() == a.pending.last());
        }
        if is_sentence_end(c) {
            assert(mark_at(y, j));
            assert(b.text =~= zz);
        } else if is_space(c) {
            if !a.after_mark {
                assert(zz =~= b.text + b.pending);
            } else {
                assert(zz =~= a.text.push(' '));
            }
        } else {
            assert(b.text =~= zz);
        }
    }
}

proof fn lemma_squeeze_clean(y: Seq<char>)
    requires
        no_double_space(y),
    ensures
        squeeze_spaces(y) == y,
    decreases y.len(),
{
    if y.len() > 0 {
        let t = y.drop_last();
        lemma_no_dd_subrange(y, 0, t.len() as int);
        assert(y.subrange(0, t.len() as int) =~= t);
        lemma_squeeze_clean(t);
        if y.len() >= 2 {
            assert(!space_pair(y, y.len() - 2));
        }
        assert(t.push(y.last()) =~= y);
    }
}

/// Sanitizing a sanitized transcript changes nothing.
pub proof fn law_sanitized_idempotent(s: Seq<char>)
    ensures
        sanitized(sanitized(s)) == sanitized(s),
{
    lemma_sanitized_clean(s);
    let y = sanitized(s);
    assert(trim(y) == y) by {
        if y.len() > 0 {
            assert(trim_start(y) == y);
            assert(trim_end(y) == y);
        }
    }
    lemma_squeeze_clean(y);
    reveal_strlit(" ,");
    assert(!contains(y, " ,"@)) by {
        assert forall|i: int| !occurs_at(y, " ,"@, i) by {
            if occurs_at(y, " ,"@, i) {
                assert(y.subrange(i, i + 2)[0] == ' ');
                assert(y.subrange(i, i + 2)[1] == ',');
                assert(space_comma(y, i));
            }
        }
    }
    lemma_replace_absent(y, " ,"@, ","@);
    lemma_relays(y, y.len() as int);
    assert(y.take(y.len() as int) =~= y);
    let a = arrangement(y);
    if a.pending.len() > 0 {
        assert(y.last() == a.pending.last());
    }
    if a.after_mark && y == a.text.push(' ') {
        assert(y.last() == ' ');
    }
    assert(arrange_sentences(y) == y);
}

} // verus!
