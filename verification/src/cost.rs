//! Costs: numerals for real numbers. A numeral is an optional sign, then
//! either digits with an optional fraction and exponent, or one of the words
//! `inf`, `infinity` and `nan` in any mix of upper and lower case.

use crate::count::{all_digits, is_digit};
use crate::text::chars_of;
use vstd::prelude::*;

verus! {

pub open spec fn is_sign(c: char) -> bool {
    c == '+' || c == '-'
}

/// `s` without one leading sign, if it has one.
pub open spec fn without_sign(s: Seq<char>) -> Seq<char> {
    if s.len() > 0 && is_sign(s.first()) {
        s.drop_first()
    } else {
        s
    }
}

/// Whether `c` is the lower-case letter `letter` or its capital.
pub open spec fn is_letter(c: char, letter: char) -> bool {
    c == letter || ('A' <= c <= 'Z' && c as u32 + 32 == letter as u32)
}

/// Whether `s` spells the lower-case word `word`, upper and lower case taken
/// alike.
pub open spec fn spells(s: Seq<char>, word: Seq<char>) -> bool {
    &&& s.len() == word.len()
    &&& forall|i: int| 0 <= i < s.len() ==> is_letter(#[trigger] s[i], word[i])
}

/// Whether `s` is one of the words for a value that is no finite number.
pub open spec fn is_special(s: Seq<char>) -> bool {
    ||| spells(s, seq!['i', 'n', 'f'])
    ||| spells(s, seq!['i', 'n', 'f', 'i', 'n', 'i', 't', 'y'])
    ||| spells(s, seq!['n', 'a', 'n'])
}

/// The length of the longest run of digits that `s` starts with.
pub open spec fn digit_run(s: Seq<char>) -> nat
    decreases s.len(),
{
    if s.len() > 0 && is_digit(s.first()) {
        1 + digit_run(s.drop_first())
    } else {
        0
    }
}

/// Whether `s` is an exponent: `e` or `E`, an optional sign, and one or more
/// digits.
pub open spec fn is_exponent(s: Seq<char>) -> bool {
    &&& s.len() > 0
    &&& is_letter(s.first(), 'e')
    &&& without_sign(s.drop_first()).len() > 0
    &&& all_digits(without_sign(s.drop_first()))
}

/// Whether `s` is empty or an exponent.
pub open spec fn is_optional_exponent(s: Seq<char>) -> bool {
    s.len() == 0 || is_exponent(s)
}

/// Whether `s` is an unsigned number: digits, optionally a point and more
/// digits, with a digit on at least one side of the point, and optionally an
/// exponent.
pub open spec fn is_number(s: Seq<char>) -> bool {
    let whole: nat = digit_run(s);
    let rest = s.skip(whole as int);
    if rest.len() > 0 && rest.first() == '.' {
        let fraction: nat = digit_run(rest.drop_first());
        whole + fraction > 0 && is_optional_exponent(rest.skip(1 + fraction as int))
    } else {
        whole > 0 && is_optional_exponent(rest)
    }
}

/// Whether `s` is a numeral for a real number.
pub open spec fn is_real_numeral(s: Seq<char>) -> bool {
    is_special(without_sign(s)) || is_number(without_sign(s))
}

/// The numeral for zero that stands in for a text that is no numeral.
pub open spec fn zero_numeral() -> Seq<char> {
    seq!['0']
}

/// `s` where it is a numeral for a real number, and the numeral for zero
/// where it is not.
pub open spec fn real_numeral_or_zero(s: Seq<char>) -> Seq<char> {
    if is_real_numeral(s) {
        s
    } else {
        zero_numeral()
    }
}

/// A run of digits is a prefix made of digits that ends at the end of the text
/// or before a character that is no digit.
pub proof fn lemma_digit_run(s: Seq<char>)
    ensures
        digit_run(s) <= s.len(),
        all_digits(s.take(digit_run(s) as int)),
        digit_run(s) < s.len() ==> !is_digit(s[digit_run(s) as int]),
        digit_run(s) == s.len() <==> all_digits(s),
    decreases s.len(),
{
    if s.len() > 0 && is_digit(s.first()) {
        let rest = s.drop_first();
        lemma_digit_run(rest);
        let run: int = digit_run(s) as int;
        assert forall|i: int| 0 <= i < run implies is_digit(#[trigger] s.take(run)[i]) by {
            if i > 0 {
                assert(s.take(run)[i] == rest.take(run - 1)[i - 1]);
            }
        }
        if run < s.len() {
            assert(s[run] == rest[run - 1]);
        }
        if all_digits(s) {
            assert forall|i: int| 0 <= i < rest.len() implies is_digit(#[trigger] rest[i]) by {
                assert(rest[i] == s[i + 1]);
            }
        }
        if run == s.len() {
            assert(s.take(run) =~= s);
        }
    } else {
        if s.len() > 0 {
            assert(!is_digit(s[0]));
        }
    }
}

/// Where the run of digits from `from` on ends.
fn digit_run_end(chars: &Vec<char>, from: usize) -> (end: usize)
    requires
        from <= chars.len(),
    ensures
        from <= end <= chars.len(),
        end - from == digit_run(chars@.skip(from as int)),
{
    let mut end: usize = from;
    while end < chars.len() && '0' <= chars[end] && chars[end] <= '9'
        invariant
            from <= end <= chars.len(),
            digit_run(chars@.skip(from as int)) == (end - from) + digit_run(
                chars@.skip(end as int),
            ),
        decreases chars.len() - end,
    {
        assert(chars@.skip(end as int).drop_first() =~= chars@.skip(end + 1));
        end += 1;
    }
    end
}

/// Whether the text from `from` on spells `word`.
fn spells_from(chars: &Vec<char>, from: usize, word: &[char]) -> (b: bool)
    requires
        from <= chars.len(),
    ensures
        b == spells(chars@.skip(from as int), word@),
{
    if chars.len() - from != word.len() {
        return false;
    }
    let mut i: usize = 0;
    while i < word.len()
        invariant
            from <= chars.len(),
            chars.len() - from == word.len(),
            i <= word.len(),
            forall|j: int| 0 <= j < i ==> is_letter(#[trigger] chars@.skip(from as int)[j], word@[j]),
        decreases word.len() - i,
    {
        let c = chars[from + i];
        let letter = word[i];
        assert(chars@.skip(from as int)[i as int] == c);
        if !(c == letter || ('A' <= c && c <= 'Z' && c as u32 + 32 == letter as u32)) {
            return false;
        }
        i += 1;
    }
    true
}

/// Whether the text from `from` on is one of the special words.
fn is_special_from(chars: &Vec<char>, from: usize) -> (b: bool)
    requires
        from <= chars.len(),
    ensures
        b == is_special(chars@.skip(from as int)),
{
    let inf: [char; 3] = ['i', 'n', 'f'];
    let infinity: [char; 8] = ['i', 'n', 'f', 'i', 'n', 'i', 't', 'y'];
    let nan: [char; 3] = ['n', 'a', 'n'];
    proof {
        assert(inf@ =~= seq!['i', 'n', 'f']);
        assert(infinity@ =~= seq!['i', 'n', 'f', 'i', 'n', 'i', 't', 'y']);
        assert(nan@ =~= seq!['n', 'a', 'n']);
    }
    spells_from(chars, from, inf.as_slice()) || spells_from(chars, from, infinity.as_slice())
        || spells_from(chars, from, nan.as_slice())
}

/// Whether the text from `from` on is empty or an exponent.
fn is_optional_exponent_from(chars: &Vec<char>, from: usize) -> (b: bool)
    requires
        from <= chars.len(),
    ensures
        b == is_optional_exponent(chars@.skip(from as int)),
{
    let n: usize = chars.len();
    if from == n {
        return true;
    }
    let mark = chars[from];
    let ghost tail = chars@.skip(from as int);
    assert(tail.first() == mark);
    if mark != 'e' && mark != 'E' {
        return false;
    }
    let digits_from: usize = if from + 1 < n && (chars[from + 1] == '+' || chars[from + 1] == '-') {
        from + 2
    } else {
        from + 1
    };
    let end: usize = digit_run_end(chars, digits_from);
    proof {
        assert(tail.drop_first() =~= chars@.skip(from + 1));
        if from + 1 < n {
            assert(tail.drop_first().first() == chars@[from + 1]);
            assert(chars@.skip(from + 1).drop_first() =~= chars@.skip(from + 2));
        }
        assert(without_sign(tail.drop_first()) =~= chars@.skip(digits_from as int));
        lemma_digit_run(chars@.skip(digits_from as int));
    }
    digits_from < n && end == n
}

/// Decides whether `s` is a numeral for a real number.
pub fn is_real_numeral_text(s: &str) -> (b: bool)
    ensures
        b == is_real_numeral(s@),
{
    let chars = chars_of(s);
    let n: usize = chars.len();
    let start: usize = if n > 0 && (chars[0] == '+' || chars[0] == '-') {
        1
    } else {
        0
    };
    let ghost body = chars@.skip(start as int);
    assert(without_sign(s@) =~= body);
    if is_special_from(&chars, start) {
        return true;
    }
    let whole_end: usize = digit_run_end(&chars, start);
    let ghost rest = body.skip(whole_end - start);
    assert(rest =~= chars@.skip(whole_end as int));
    if whole_end < n && chars[whole_end] == '.' {
        let fraction_end: usize = digit_run_end(&chars, whole_end + 1);
        proof {
            assert(rest.first() == chars@[whole_end as int]);
            assert(rest.drop_first() =~= chars@.skip(whole_end + 1));
            assert(rest.skip(1 + (fraction_end - (whole_end + 1))) =~= chars@.skip(
                fraction_end as int,
            ));
        }
        let exponent = is_optional_exponent_from(&chars, fraction_end);
        (whole_end > start || fraction_end > whole_end + 1) && exponent
    } else {
        proof {
            if whole_end < n {
                assert(rest.first() == chars@[whole_end as int]);
            }
        }
        let exponent = is_optional_exponent_from(&chars, whole_end);
        whole_end > start && exponent
    }
}

/// The text of `s` where it is a numeral for a real number, and the numeral
/// for zero where it is not.
pub fn real_numeral_or_zero_text(s: &str) -> (text: String)
    ensures
        text@ == real_numeral_or_zero(s@),
        is_real_numeral(text@),
{
    proof {
        lemma_zero_is_a_numeral();
    }
    if is_real_numeral_text(s) {
        s.to_string()
    } else {
        proof {
            reveal_strlit("0");
            assert("0"@ =~= zero_numeral());
        }
        "0".to_string()
    }
}

/// The numeral for zero is a numeral.
pub proof fn lemma_zero_is_a_numeral()
    ensures
        is_real_numeral(zero_numeral()),
{
    let zero = zero_numeral();
    reveal_with_fuel(digit_run, 2);
    assert(without_sign(zero) == zero);
    assert(zero.drop_first().len() == 0);
    assert(digit_run(zero) == 1);
    assert(zero.skip(1).len() == 0);
    assert(is_number(zero));
}

/// Digits followed by nothing, or by a character that is no digit, are a run
/// of digits of their own length.
pub proof fn lemma_digit_run_of_digits(digits: Seq<char>, rest: Seq<char>)
    requires
        all_digits(digits),
        rest.len() > 0 ==> !is_digit(rest.first()),
    ensures
        digit_run(digits + rest) == digits.len(),
    decreases digits.len(),
{
    let s = digits + rest;
    if digits.len() == 0 {
        assert(s =~= rest);
    } else {
        assert(s.first() == digits[0]);
        assert(s.drop_first() =~= digits.drop_first() + rest);
        assert forall|i: int| 0 <= i < digits.drop_first().len() implies is_digit(
            #[trigger] digits.drop_first()[i],
        ) by {
            assert(digits.drop_first()[i] == digits[i + 1]);
        }
        lemma_digit_run_of_digits(digits.drop_first(), rest);
    }
}

/// Digits, a point and more digits are a numeral for a real number.
pub proof fn lemma_plain_decimal_is_a_numeral(whole: Seq<char>, fraction: Seq<char>)
    requires
        whole.len() > 0,
        all_digits(whole),
        all_digits(fraction),
    ensures
        is_real_numeral(whole + seq!['.'] + fraction),
{
    let s = whole + seq!['.'] + fraction;
    let rest = seq!['.'] + fraction;
    let nothing = Seq::<char>::empty();
    assert(s.first() == whole[0]);
    assert(without_sign(s) == s);
    assert(s =~= whole + rest);
    lemma_digit_run_of_digits(whole, rest);
    assert(s.skip(whole.len() as int) =~= rest);
    assert(rest.drop_first() =~= fraction + nothing);
    lemma_digit_run_of_digits(fraction, nothing);
    assert(rest.skip(1 + fraction.len() as int) =~= nothing);
    assert(is_number(s));
}

} // verus!
