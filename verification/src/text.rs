//! Whitespace and trimming: which characters are whitespace, and a text
//! without the whitespace at its ends.

use vstd::prelude::*;

verus! {

/// Whether `c` is in the Unicode `White_Space` set.
pub open spec fn is_whitespace(c: char) -> bool {
    ||| '\u{9}' <= c <= '\u{d}'
    ||| c == ' '
    ||| c == '\u{85}'
    ||| c == '\u{a0}'
    ||| c == '\u{1680}'
    ||| '\u{2000}' <= c <= '\u{200a}'
    ||| c == '\u{2028}'
    ||| c == '\u{2029}'
    ||| c == '\u{202f}'
    ||| c == '\u{205f}'
    ||| c == '\u{3000}'
}

/// Decides membership in the `White_Space` set.
pub fn char_is_whitespace(c: char) -> (b: bool)
    ensures
        b == is_whitespace(c),
{
    ('\u{9}' <= c && c <= '\u{d}') || c == ' ' || c == '\u{85}' || c == '\u{a0}' || c
        == '\u{1680}' || ('\u{2000}' <= c && c <= '\u{200a}') || c == '\u{2028}' || c
        == '\u{2029}' || c == '\u{202f}' || c == '\u{205f}' || c == '\u{3000}'
}

/// Whether `s` holds nothing but whitespace. The empty text does.
pub open spec fn is_blank(s: Seq<char>) -> bool {
    forall|i: int| 0 <= i < s.len() ==> is_whitespace(#[trigger] s[i])
}

/// `s` without its leading whitespace.
pub open spec fn trim_start(s: Seq<char>) -> Seq<char>
    decreases s.len(),
{
    if s.len() > 0 && is_whitespace(s.first()) {
        trim_start(s.drop_first())
    } else {
        s
    }
}

/// `s` without its trailing whitespace.
pub open spec fn trim_end(s: Seq<char>) -> Seq<char>
    decreases s.len(),
{
    if s.len() > 0 && is_whitespace(s.last()) {
        trim_end(s.drop_last())
    } else {
        s
    }
}

/// `s` without its leading and trailing whitespace.
pub open spec fn trimmed(s: Seq<char>) -> Seq<char> {
    trim_end(trim_start(s))
}

/// Where everything before `a` is whitespace and the character at `a`, if
/// there is one, is not, `trim_start` cuts at `a`.
pub proof fn lemma_trim_start_at(s: Seq<char>, a: int)
    requires
        0 <= a <= s.len(),
        forall|j: int| 0 <= j < a ==> is_whitespace(#[trigger] s[j]),
        a < s.len() ==> !is_whitespace(s[a]),
    ensures
        trim_start(s) == s.subrange(a, s.len() as int),
    decreases a,
{
    if a == 0 {
        assert(s.subrange(0, s.len() as int) =~= s);
    } else {
        let rest = s.drop_first();
        assert forall|j: int| 0 <= j < a - 1 implies is_whitespace(#[trigger] rest[j]) by {
            assert(rest[j] == s[j + 1]);
        }
        lemma_trim_start_at(rest, a - 1);
        assert(rest.subrange(a - 1, rest.len() as int) =~= s.subrange(a, s.len() as int));
    }
}

/// Where everything from `b` on is whitespace and the character before `b`,
/// if there is one, is not, `trim_end` cuts at `b`.
pub proof fn lemma_trim_end_at(s: Seq<char>, b: int)
    requires
        0 <= b <= s.len(),
        forall|j: int| b <= j < s.len() ==> is_whitespace(#[trigger] s[j]),
        0 < b ==> !is_whitespace(s[b - 1]),
    ensures
        trim_end(s) == s.subrange(0, b),
    decreases s.len() - b,
{
    if b == s.len() {
        assert(s.subrange(0, b) =~= s);
    } else {
        let rest = s.drop_last();
        lemma_trim_end_at(rest, b);
        assert(rest.subrange(0, b) =~= s.subrange(0, b));
    }
}

/// `trim_start` leaves a suffix of `s` that is empty or starts with a
/// character that is not whitespace, and only removes whitespace.
pub proof fn lemma_trim_start_result(s: Seq<char>)
    ensures
        trim_start(s).len() <= s.len(),
        trim_start(s) == s.skip(s.len() - trim_start(s).len()),
        trim_start(s).len() == 0 || !is_whitespace(trim_start(s).first()),
        forall|j: int| 0 <= j < s.len() - trim_start(s).len() ==> is_whitespace(#[trigger] s[j]),
    decreases s.len(),
{
    if s.len() > 0 && is_whitespace(s.first()) {
        let rest = s.drop_first();
        lemma_trim_start_result(rest);
        let cut: int = rest.len() - trim_start(rest).len();
        assert(rest.skip(cut) =~= s.skip(cut + 1));
        assert forall|j: int| 0 <= j < s.len() - trim_start(s).len() implies is_whitespace(
            #[trigger] s[j],
        ) by {
            if j > 0 {
                assert(s[j] == rest[j - 1]);
            }
        }
    } else {
        assert(s.skip(0) =~= s);
    }
}

/// `trim_end` leaves a prefix of `s` that is empty or ends with a character
/// that is not whitespace, and only removes whitespace. It leaves something
/// of a text that starts with a character that is not whitespace.
pub proof fn lemma_trim_end_result(s: Seq<char>)
    ensures
        trim_end(s).len() <= s.len(),
        trim_end(s) == s.take(trim_end(s).len() as int),
        trim_end(s).len() == 0 || !is_whitespace(trim_end(s).last()),
        forall|j: int| trim_end(s).len() <= j < s.len() ==> is_whitespace(#[trigger] s[j]),
        s.len() > 0 && !is_whitespace(s.first()) ==> trim_end(s).len() > 0,
    decreases s.len(),
{
    if s.len() > 0 && is_whitespace(s.last()) {
        let rest = s.drop_last();
        lemma_trim_end_result(rest);
        assert(rest.take(trim_end(rest).len() as int) =~= s.take(trim_end(rest).len() as int));
        assert forall|j: int| trim_end(s).len() <= j < s.len() implies is_whitespace(
            #[trigger] s[j],
        ) by {
            if j < rest.len() {
                assert(s[j] == rest[j]);
            }
        }
    } else {
        assert(s.take(s.len() as int) =~= s);
    }
}

/// What is left after trimming is empty or has a character that is not
/// whitespace at either end.
pub proof fn lemma_trimmed_has_no_padding(s: Seq<char>)
    ensures
        trimmed(s).len() == 0 || (!is_whitespace(trimmed(s).first()) && !is_whitespace(
            trimmed(s).last(),
        )),
{
    lemma_trim_start_result(s);
    lemma_trim_end_result(trim_start(s));
}

/// Trimming what is already trimmed changes nothing.
pub proof fn lemma_trim_is_idempotent(s: Seq<char>)
    ensures
        trimmed(trimmed(s)) == trimmed(s),
{
    lemma_trimmed_has_no_padding(s);
}

/// Trimming leaves nothing exactly of the texts that hold whitespace only,
/// the empty text among them.
pub proof fn lemma_trimmed_is_empty_iff_blank(s: Seq<char>)
    ensures
        trimmed(s).len() == 0 <==> is_blank(s),
{
    let inner = trim_start(s);
    lemma_trim_start_result(s);
    lemma_trim_end_result(inner);
    if inner.len() > 0 {
        assert(inner.first() == s[s.len() - inner.len()]);
    }
}

/// The slice of `s` between its leading and its trailing whitespace.
pub fn trim(s: &str) -> (r: &str)
    ensures
        r@ == trimmed(s@),
{
    let n: usize = s.unicode_len();
    // `start..end` runs from the first to the last character so far that is
    // not whitespace; as long as there is none, both stand at `i`.
    let mut start: usize = 0;
    let mut end: usize = 0;
    let mut i: usize = 0;
    for c in it: s.chars()
        invariant
            it.seq() == s@,
            i == it.index(),
            n == s@.len(),
            start <= end <= i,
            start == end ==> start == i,
            start < end ==> !is_whitespace(s@[start as int]) && !is_whitespace(s@[end - 1]),
            forall|j: int| 0 <= j < start ==> is_whitespace(#[trigger] s@[j]),
            forall|j: int| end <= j < i ==> is_whitespace(#[trigger] s@[j]),
    {
        if !char_is_whitespace(c) {
            if start == end {
                start = i;
            }
            end = i + 1;
        } else if start == end {
            start = i + 1;
            end = i + 1;
        }
        i += 1;
    }
    proof {
        let tail = s@.subrange(start as int, n as int);
        lemma_trim_start_at(s@, start as int);
        lemma_trim_end_at(tail, end - start);
        assert(tail.subrange(0, end - start) =~= s@.subrange(start as int, end as int));
    }
    s.substring_char(start, end)
}

/// The characters of a string, one by one.
pub fn chars_of(s: &str) -> (chars: Vec<char>)
    ensures
        chars@ == s@,
{
    let mut chars: Vec<char> = Vec::new();
    for c in it: s.chars()
        invariant
            it.seq() == s@,
            chars@ == s@.take(it.index()),
    {
        chars.push(c);
        assert(chars@ =~= s@.take(it.index() + 1));
    }
    assert(s@.take(s@.len() as int) =~= s@);
    chars
}

} // verus!
