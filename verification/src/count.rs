//! Counts: unsigned decimal numerals, an optional `+` followed by one or more
//! ASCII digits, such as the quantity columns of a bill of materials hold.

use vstd::prelude::*;

verus! {

/// Whether `c` is one of the ten ASCII digits.
pub open spec fn is_digit(c: char) -> bool {
    '0' <= c <= '9'
}

/// The number a digit stands for; zero for any other character.
pub open spec fn digit_value(c: char) -> nat {
    if is_digit(c) {
        (c as u32 - '0' as u32) as nat
    } else {
        0
    }
}

/// The number that a run of digits denotes in base ten, most significant
/// digit first. The empty run denotes zero.
pub open spec fn digits_value(digits: Seq<char>) -> nat
    decreases digits.len(),
{
    if digits.len() == 0 {
        0
    } else {
        10 * digits_value(digits.drop_last()) + digit_value(digits.last())
    }
}

/// Whether `digits` holds nothing but digits. The empty text does.
pub open spec fn all_digits(digits: Seq<char>) -> bool {
    forall|i: int| 0 <= i < digits.len() ==> is_digit(#[trigger] digits[i])
}

/// `s` without one leading `+`, if it has one.
pub open spec fn without_plus(s: Seq<char>) -> Seq<char> {
    if s.len() > 0 && s.first() == '+' {
        s.drop_first()
    } else {
        s
    }
}

/// The `u32` that the numeral `s` denotes. `None` where `s` is no numeral
/// (it is empty, a lone `+`, or holds anything but digits after the optional
/// sign) or denotes a number above `u32::MAX`.
pub open spec fn parsed_u32(s: Seq<char>) -> Option<u32> {
    let digits = without_plus(s);
    if digits.len() > 0 && all_digits(digits) && digits_value(digits) <= u32::MAX {
        Some(digits_value(digits) as u32)
    } else {
        None
    }
}

/// The number that `s` denotes, and zero where it denotes none.
pub open spec fn parsed_u32_or_zero(s: Seq<char>) -> u32 {
    match parsed_u32(s) {
        Some(value) => value,
        None => 0,
    }
}

/// A prefix of a run of digits never denotes more than the whole run.
pub proof fn lemma_prefix_value_is_smaller(digits: Seq<char>, k: int)
    requires
        0 <= k <= digits.len(),
    ensures
        digits_value(digits.take(k)) <= digits_value(digits),
    decreases digits.len() - k,
{
    if k == digits.len() {
        assert(digits.take(k) =~= digits);
    } else {
        lemma_prefix_value_is_smaller(digits.drop_last(), k);
        assert(digits.drop_last().take(k) =~= digits.take(k));
    }
}

/// Reads an unsigned decimal numeral.
pub fn parse_u32(s: &str) -> (r: Option<u32>)
    ensures
        r == parsed_u32(s@),
{
    // `sign` is the length of the sign, none or one; `value` is what the
    // digits read so far denote.
    let ghost digits = without_plus(s@);
    let ghost sign: int = s@.len() - digits.len();
    let mut value: u32 = 0;
    let mut first = true;
    let mut any = false;
    for c in it: s.chars()
        invariant
            it.seq() == s@,
            digits == without_plus(s@),
            sign == s@.len() - digits.len(),
            first <==> it.index() == 0,
            !first ==> sign <= it.index(),
            any <==> sign < it.index(),
            any ==> all_digits(digits.take(it.index() - sign)),
            any ==> value == digits_value(digits.take(it.index() - sign)),
            !any ==> value == 0,
    {
        let ghost at: int = it.index() - sign;
        if first && c == '+' {
            first = false;
        } else if '0' <= c && c <= '9' {
            let wide: u64 = value as u64 * 10 + (c as u32 - '0' as u32) as u64;
            proof {
                assert(digits.take(at + 1).drop_last() =~= digits.take(at));
                assert(digits_value(digits.take(at)) == value);
                lemma_prefix_value_is_smaller(digits, at + 1);
            }
            if wide > u32::MAX as u64 {
                return None;
            }
            value = wide as u32;
            first = false;
            any = true;
        } else {
            assert(!is_digit(digits[at]));
            return None;
        }
    }
    if any {
        assert(digits.take(digits.len() as int) =~= digits);
        Some(value)
    } else {
        None
    }
}

/// Reads an unsigned decimal numeral, taking anything else for zero.
pub fn parse_u32_or_zero(s: &str) -> (value: u32)
    ensures
        value == parsed_u32_or_zero(s@),
{
    match parse_u32(s) {
        Some(value) => value,
        None => 0,
    }
}

/// The character for a digit below ten.
pub open spec fn digit_char(d: nat) -> char
    recommends
        d < 10,
{
    seq!['0', '1', '2', '3', '4', '5', '6', '7', '8', '9'][d as int]
}

/// The numeral of `n`: its digits in base ten, most significant first,
/// without a sign and without leading zeros.
pub open spec fn decimal_of(n: nat) -> Seq<char>
    decreases n,
{
    if n < 10 {
        seq![digit_char(n)]
    } else {
        decimal_of(n / 10).push(digit_char(n % 10))
    }
}

/// The numeral of a number is made of digits and denotes that number.
pub proof fn lemma_decimal_denotes(n: nat)
    ensures
        decimal_of(n).len() > 0,
        all_digits(decimal_of(n)),
        digits_value(decimal_of(n)) == n,
    decreases n,
{
    let text = decimal_of(n);
    if n < 10 {
        assert(text.drop_last() =~= Seq::<char>::empty());
        assert(digits_value(text.drop_last()) == 0);
        assert(digit_value(text.last()) == n);
    } else {
        lemma_decimal_denotes(n / 10);
        assert(text.drop_last() =~= decimal_of(n / 10));
        assert(is_digit(text.last()) && digit_value(text.last()) == n % 10);
        assert forall|i: int| 0 <= i < text.len() implies is_digit(#[trigger] text[i]) by {
            if i < text.len() - 1 {
                assert(text[i] == decimal_of(n / 10)[i]);
            }
        }
    }
}

/// Writing a count and reading it again gives the count.
pub proof fn lemma_read_back(n: u32)
    ensures
        parsed_u32(decimal_of(n as nat)) == Some(n),
{
    lemma_decimal_denotes(n as nat);
    let text = decimal_of(n as nat);
    assert(is_digit(text[0]));
}

/// The text of a digit below ten.
fn digit_text(d: u32) -> (text: &'static str)
    requires
        d < 10,
    ensures
        text@ == seq![digit_char(d as nat)],
{
    let text = match d {
        0 => "0",
        1 => "1",
        2 => "2",
        3 => "3",
        4 => "4",
        5 => "5",
        6 => "6",
        7 => "7",
        8 => "8",
        _ => "9",
    };
    proof {
        reveal_strlit("0");
        reveal_strlit("1");
        reveal_strlit("2");
        reveal_strlit("3");
        reveal_strlit("4");
        reveal_strlit("5");
        reveal_strlit("6");
        reveal_strlit("7");
        reveal_strlit("8");
        reveal_strlit("9");
        assert(text@ =~= seq![digit_char(d as nat)]);
    }
    text
}

/// Writes a count as a numeral.
pub fn u32_text(n: u32) -> (text: String)
    ensures
        text@ == decimal_of(n as nat),
    decreases n,
{
    if n < 10 {
        digit_text(n).to_string()
    } else {
        let mut text = u32_text(n / 10);
        text.append(digit_text(n % 10));
        text
    }
}

} // verus!
