//! Decimal numerals: writing a count as text and reading one back.

use vstd::prelude::*;
use vstd::string::*;

verus! {

/// The character that stands for the digit `d`.
pub open spec fn digit_char(d: nat) -> char
    recommends
        d < 10,
{
    if d == 0 {
        '0'
    } else if d == 1 {
        '1'
    } else if d == 2 {
        '2'
    } else if d == 3 {
        '3'
    } else if d == 4 {
        '4'
    } else if d == 5 {
        '5'
    } else if d == 6 {
        '6'
    } else if d == 7 {
        '7'
    } else if d == 8 {
        '8'
    } else {
        '9'
    }
}

/// The decimal numeral of `n`: most significant digit first, no leading zero
/// (but for `0` itself), no sign.
pub open spec fn decimal_text(n: nat) -> Seq<char>
    decreases n,
{
    if n < 10 {
        seq![digit_char(n)]
    } else {
        decimal_text(n / 10).push(digit_char(n % 10))
    }
}

/// Whether `c` is one of the ten decimal digits.
pub open spec fn is_digit(c: char) -> bool {
    '0' <= c <= '9'
}

/// The number that the digit `c` stands for.
pub open spec fn digit_value(c: char) -> nat
    recommends
        is_digit(c),
{
    (c as u32 - '0' as u32) as nat
}

/// Whether `s` holds decimal digits only.
pub open spec fn all_digits(s: Seq<char>) -> bool {
    forall|i: int| 0 <= i < s.len() ==> is_digit(#[trigger] s[i])
}

/// The number that the digits `s` spell, most significant digit first.
pub open spec fn digits_value(s: Seq<char>) -> nat
    decreases s.len(),
{
    if s.len() == 0 {
        0
    } else {
        digits_value(s.drop_last()) * 10 + digit_value(s.last())
    }
}

/// How many characters the sign of `s` takes: one for a leading `+`, else none.
pub open spec fn sign_len(s: Seq<char>) -> int {
    if s.len() > 0 && s[0] == '+' {
        1
    } else {
        0
    }
}

/// Whether `s` is a numeral: one or more decimal digits, which a single `+`
/// may precede. Neither a minus sign nor blanks are part of a numeral.
pub open spec fn is_numeral(s: Seq<char>) -> bool {
    s.len() > sign_len(s) && all_digits(s.skip(sign_len(s)))
}

/// The number that the numeral `s` spells.
pub open spec fn numeral_value(s: Seq<char>) -> nat
    recommends
        is_numeral(s),
{
    digits_value(s.skip(sign_len(s)))
}

/// The count that the text `s` gives: the value of a numeral that fits the
/// machine's word, and nothing for any other text.
pub open spec fn parsed_count(s: Seq<char>) -> Option<usize> {
    if is_numeral(s) && numeral_value(s) <= usize::MAX {
        Some(numeral_value(s) as usize)
    } else {
        None
    }
}

/// The digits read so far never spell more than the whole numeral does.
proof fn lemma_digits_value_prefix(s: Seq<char>, k: int)
    requires
        0 <= k <= s.len(),
    ensures
        digits_value(s.take(k)) <= digits_value(s),
    decreases s.len() - k,
{
    if k == s.len() {
        assert(s.take(k) =~= s);
    } else {
        lemma_digits_value_prefix(s.drop_last(), k);
        assert(s.drop_last().take(k) =~= s.take(k));
    }
}

/// Each digit's character is a digit and stands for that digit.
pub proof fn lemma_digit_char(d: nat)
    requires
        d < 10,
    ensures
        is_digit(digit_char(d)),
        digit_value(digit_char(d)) == d,
        digit_char(d) != '+',
{
}

/// Reading back the numeral written for `n` gives `n`.
pub proof fn lemma_decimal_text_reads_back(n: nat)
    ensures
        is_numeral(decimal_text(n)),
        numeral_value(decimal_text(n)) == n,
        sign_len(decimal_text(n)) == 0,
        decimal_text(n).len() > 0,
    decreases n,
{
    let text = decimal_text(n);
    if n < 10 {
        assert(text.skip(0) =~= text);
        assert(digits_value(text) == digits_value(text.drop_last()) * 10 + digit_value(
            text.last(),
        ));
    } else {
        lemma_decimal_text_reads_back(n / 10);
        let front = decimal_text(n / 10);
        assert(front.skip(0) =~= front);
        assert(text.skip(0) =~= text);
        assert(text.drop_last() =~= front);
        assert(all_digits(text)) by {
            assert forall|i: int| 0 <= i < text.len() implies is_digit(#[trigger] text[i]) by {
                if i < front.len() {
                }
            }
        }
    }
}

/// Reads a count from `text`. The text gives a count exactly when it is a
/// numeral whose value fits a `usize`.
pub fn parse_count(text: &str) -> (count: Option<usize>)
    ensures
        count == parsed_count(text@),
{
    let ghost s = text@;
    let ghost skip = sign_len(s);
    let mut value: usize = 0;
    let mut at_start: bool = true;
    let mut any_digit: bool = false;
    for c in it: text.chars()
        invariant
            s == text@,
            it.seq() == s,
            skip == sign_len(s),
            at_start == (it.index() == 0),
            any_digit == (it.index() > skip),
            it.index() >= skip ==> all_digits(s.subrange(skip, it.index() as int)),
            it.index() >= skip ==> value == digits_value(s.subrange(skip, it.index() as int)),
            it.index() < skip ==> value == 0,
    {
        let ghost k = it.index() as int;
        if at_start && c == '+' {
            at_start = false;
        } else {
            at_start = false;
            proof {
                assert(s.subrange(skip, k + 1).drop_last() =~= s.subrange(skip, k));
                assert(s.skip(skip).take(k + 1 - skip) =~= s.subrange(skip, k + 1));
                lemma_digits_value_prefix(s.skip(skip), k + 1 - skip);
            }
            if !('0' <= c && c <= '9') {
                return None;
            }
            let digit: usize = (c as u32 - '0' as u32) as usize;
            let next: Option<usize> = match value.checked_mul(10) {
                Some(tens) => tens.checked_add(digit),
                None => None,
            };
            match next {
                Some(v) => {
                    value = v;
                },
                None => {
                    return None;
                },
            }
            any_digit = true;
        }
    }
    if any_digit {
        Some(value)
    } else {
        None
    }
}

/// The count that `text` gives, or `fallback` where it gives none.
pub fn count_or(text: &str, fallback: usize) -> (count: usize)
    ensures
        count == match parsed_count(text@) {
            Some(value) => value,
            None => fallback,
        },
{
    match parse_count(text) {
        Some(value) => value,
        None => fallback,
    }
}

fn digit_str(d: usize) -> (s: &'static str)
    requires
        d < 10,
    ensures
        s@ == seq![digit_char(d as nat)],
{
    proof {
        reveal_strlit("0");
        reveal_strlit("1");
        reveal_strlit("2");
        reveal_strlit("3");
        reveal_strlit("4");
        reveal_strlit("5");
        reveal_strlit("6");
        reveal_strlit("7");
        reveal_strlit("8");
        reveal_strlit("9");
    }
    let s: &'static str = if d == 0 {
        "0"
    } else if d == 1 {
        "1"
    } else if d == 2 {
        "2"
    } else if d == 3 {
        "3"
    } else if d == 4 {
        "4"
    } else if d == 5 {
        "5"
    } else if d == 6 {
        "6"
    } else if d == 7 {
        "7"
    } else if d == 8 {
        "8"
    } else {
        "9"
    };
    s
}

/// Appends the decimal numeral of `n` to `out`.
pub fn push_decimal(out: &mut String, n: usize)
    ensures
        final(out)@ == old(out)@ + decimal_text(n as nat),
    decreases n,
{
    if n >= 10 {
        push_decimal(out, n / 10);
    }
    out.append(digit_str(n % 10));
}

} // verus!
