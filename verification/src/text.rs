//! Numbers and flags as text, the way messages show them.

use vstd::prelude::*;
use vstd::string::*;

verus! {

/// The character of a decimal digit.
pub open spec fn digit_char(d: int) -> char {
    if d == 0 {
        '0'
    } else if d == 1 {
        '1'
    } else if d == 2 {
        '2'
    } else if d == 3 {
        '3'
    } else if d == 4 {
        '4'
    } else if d == 5 {
        '5'
    } else if d == 6 {
        '6'
    } else if d == 7 {
        '7'
    } else if d == 8 {
        '8'
    } else {
        '9'
    }
}

/// A natural number in decimal, without leading zeros.
pub open spec fn decimal(n: nat) -> Seq<char>
    decreases n,
{
    if n < 10 {
        seq![digit_char(n as int)]
    } else {
        decimal(n / 10).push(digit_char((n % 10) as int))
    }
}

/// An integer in decimal, with `-` before a negative one.
pub open spec fn signed_decimal(i: int) -> Seq<char> {
    if i < 0 {
        seq!['-'] + decimal((-i) as nat)
    } else {
        decimal(i as nat)
    }
}

/// A flag as `true` or `false`.
pub open spec fn flag_text(flag: bool) -> Seq<char> {
    if flag {
        "true"@
    } else {
        "false"@
    }
}

/// An optional number as `Some(..)` around its decimal form, or `None`.
pub open spec fn optional_text(value: Option<i32>) -> Seq<char> {
    match value {
        Some(v) => "Some("@ + signed_decimal(v as int) + ")"@,
        None => "None"@,
    }
}

/// The text with a backslash put before every `+`.
pub open spec fn plus_escaped(text: Seq<char>) -> Seq<char>
    decreases text.len(),
{
    if text.len() == 0 {
        Seq::empty()
    } else if text.last() == '+' {
        plus_escaped(text.drop_last()) + seq!['\\', '+']
    } else {
        plus_escaped(text.drop_last()).push(text.last())
    }
}

/// Whether a character is one of `0` to `9`.
pub open spec fn is_digit(c: char) -> bool {
    48 <= c as u32 <= 57
}

/// The value of a decimal digit.
pub open spec fn digit_of(c: char) -> int {
    (c as u32) as int - 48
}

/// Every character is a decimal digit.
pub open spec fn all_digits(text: Seq<char>) -> bool {
    forall|i: int| 0 <= i < text.len() ==> is_digit(#[trigger] text[i])
}

/// The number that a sequence of decimal digits writes.
pub open spec fn number(digits: Seq<char>) -> int
    decreases digits.len(),
{
    if digits.len() == 0 {
        0
    } else {
        number(digits.drop_last()) * 10 + digit_of(digits.last())
    }
}

/// What follows the sign of a text, or the whole text where it has none.
pub open spec fn unsigned_part(text: Seq<char>) -> Seq<char> {
    if text.len() > 0 && (text[0] == '-' || text[0] == '+') {
        text.skip(1)
    } else {
        text
    }
}

/// The integer that a text writes in decimal: an optional `+` or `-`, then
/// one digit or more and nothing else, the whole within the range of `i64`.
/// Any other text writes none.
pub open spec fn parsed_i64(text: Seq<char>) -> Option<i64> {
    let digits = unsigned_part(text);
    let value = if text.len() > 0 && text[0] == '-' {
        -number(digits)
    } else {
        number(digits)
    };
    if digits.len() > 0 && all_digits(digits) && i64::MIN <= value <= i64::MAX {
        Some(value as i64)
    } else {
        None
    }
}

/// Digits never write less than their first few do.
pub proof fn lemma_number_grows(digits: Seq<char>, k: int)
    requires
        all_digits(digits),
        0 <= k <= digits.len(),
    ensures
        0 <= number(digits.take(k)) <= number(digits),
    decreases digits.len(),
{
    if k == digits.len() {
        assert(digits.take(k) =~= digits);
        if digits.len() > 0 {
            let shorter = digits.drop_last();
            assert(is_digit(digits[digits.len() - 1]));
            assert forall|i: int| 0 <= i < shorter.len() implies is_digit(#[trigger] shorter[i]) by {
                assert(shorter[i] == digits[i]);
            }
            lemma_number_grows(shorter, k - 1);
        }
    } else {
        let shorter = digits.drop_last();
        assert(is_digit(digits[digits.len() - 1]));
        assert forall|i: int| 0 <= i < shorter.len() implies is_digit(#[trigger] shorter[i]) by {
            assert(shorter[i] == digits[i]);
        }
        lemma_number_grows(shorter, k);
        lemma_number_grows(shorter, shorter.len() as int);
        assert(shorter.take(k) =~= digits.take(k));
    }
}

/// The decimal form of a number is made of digits, one at least, and writes
/// that number.
pub proof fn lemma_decimal_reads_back(n: nat)
    ensures
        decimal(n).len() >= 1,
        all_digits(decimal(n)),
        number(decimal(n)) == n,
    decreases n,
{
    if n < 10 {
        let text = decimal(n);
        assert(text.drop_last() =~= Seq::<char>::empty());
        assert(number(text.drop_last()) == 0);
    } else {
        lemma_decimal_reads_back(n / 10);
        let text = decimal(n);
        let shorter = decimal(n / 10);
        assert(text.drop_last() =~= shorter);
        assert(text.last() == digit_char((n % 10) as int));
        assert forall|i: int| 0 <= i < text.len() implies is_digit(#[trigger] text[i]) by {
            if i < shorter.len() {
                assert(text[i] == shorter[i]);
            }
        }
    }
}

/// Every integer is read back from its decimal form.
pub proof fn lemma_signed_decimal_reads_back(v: i64)
    ensures
        parsed_i64(signed_decimal(v as int)) == Some(v),
{
    let text = signed_decimal(v as int);
    if v < 0 {
        let digits = decimal((-v) as nat);
        lemma_decimal_reads_back((-v) as nat);
        assert(text[0] == '-');
        assert(text.skip(1) =~= digits);
    } else {
        lemma_decimal_reads_back(v as nat);
        assert(is_digit(text[0]));
    }
}

fn digit_str(d: u64) -> (s: &'static str)
    requires
        d < 10,
    ensures
        s@ == seq![digit_char(d as int)],
{
    proof {
        reveal_strlit("0");
        reveal_strlit("1");
        reveal_strlit("2");
        reveal_strlit("3");
        reveal_strlit("4");
        reveal_strlit("5");
        reveal_strlit("6");
        reveal_strlit("7");
        reveal_strlit("8");
        reveal_strlit("9");
    }
    let s: &'static str = if d == 0 {
        "0"
    } else if d == 1 {
        "1"
    } else if d == 2 {
        "2"
    } else if d == 3 {
        "3"
    } else if d == 4 {
        "4"
    } else if d == 5 {
        "5"
    } else if d == 6 {
        "6"
    } else if d == 7 {
        "7"
    } else if d == 8 {
        "8"
    } else {
        "9"
    };
    proof {
        assert(s@ =~= seq![digit_char(d as int)]);
    }
    s
}

/// Writes `n` in decimal.
pub fn decimal_u64(n: u64) -> (s: String)
    ensures
        s@ == decimal(n as nat),
    decreases n,
{
    if n < 10 {
        String::from_str(digit_str(n))
    } else {
        let mut s = decimal_u64(n / 10);
        let last = digit_str(n % 10);
        s.append(last);
        proof {
            assert(s@ =~= decimal((n / 10) as nat).push(digit_char((n % 10) as int)));
        }
        s
    }
}

/// Writes `i` in decimal.
pub fn decimal_i64(i: i64) -> (s: String)
    ensures
        s@ == signed_decimal(i as int),
{
    if i < 0 {
        let magnitude: u64 = if i == i64::MIN {
            9223372036854775808u64
        } else {
            (-i) as u64
        };
        proof {
            reveal_strlit("-");
            assert("-"@ =~= seq!['-']);
        }
        let mut s = String::from_str("-");
        let digits = decimal_u64(magnitude);
        s.append(digits.as_str());
        s
    } else {
        decimal_u64(i as u64)
    }
}

/// Reads an integer in decimal. An optional sign may lead; digits must
/// follow and nothing else; a number outside the range of `i64` is not read.
pub fn parse_i64(text: &str) -> (value: Option<i64>)
    ensures
        value == parsed_i64(text@),
{
    let n: usize = text.unicode_len();
    if n == 0 {
        return None;
    }
    let first: char = text.get_char(0);
    let negative: bool = first == '-';
    let start: usize = if first == '-' || first == '+' {
        1
    } else {
        0
    };
    let ghost digits = unsigned_part(text@);
    if start == n {
        return None;
    }
    let mut magnitude: u64 = 0;
    let mut i: usize = start;
    while i < n
        invariant
            start <= i <= n,
            n == text@.len(),
            digits == text@.skip(start as int),
            digits == unsigned_part(text@),
            all_digits(digits.take(i - start)),
            magnitude == number(digits.take(i - start)),
            magnitude <= 9223372036854775808u64,
        decreases n - i,
    {
        let c: char = text.get_char(i);
        let code: u32 = c as u32;
        let ghost seen = digits.take(i - start);
        let ghost grown = digits.take(i - start + 1);
        proof {
            assert(grown.drop_last() =~= seen);
            assert(grown.last() == c);
        }
        if code < 48 || code > 57 {
            proof {
                assert(!is_digit(digits[i - start]));
            }
            return None;
        }
        let next: u128 = magnitude as u128 * 10 + (code - 48) as u128;
        proof {
            assert forall|k: int| 0 <= k < grown.len() implies is_digit(#[trigger] grown[k]) by {
                if k < seen.len() {
                    assert(grown[k] == seen[k]);
                }
            }
            assert(next == number(grown));
        }
        if next > 9223372036854775808u128 {
            proof {
                if all_digits(digits) {
                    lemma_number_grows(digits, i - start + 1);
                }
            }
            return None;
        }
        magnitude = next as u64;
        i = i + 1;
    }
    proof {
        assert(digits.take(n - start) =~= digits);
    }
    if negative {
        if magnitude == 9223372036854775808u64 {
            Some(i64::MIN)
        } else {
            Some(-(magnitude as i64))
        }
    } else if magnitude == 9223372036854775808u64 {
        None
    } else {
        Some(magnitude as i64)
    }
}

/// Appends `flag` as `true` or `false`.
pub(crate) fn push_flag(out: &mut String, flag: bool)
    ensures
        final(out)@ == old(out)@ + flag_text(flag),
{
    if flag {
        out.append("true");
    } else {
        out.append("false");
    }
}

/// Appends an optional number.
pub(crate) fn push_optional(out: &mut String, value: Option<i32>)
    ensures
        final(out)@ == old(out)@ + optional_text(value),
{
    match value {
        Some(v) => {
            let digits = decimal_i64(v as i64);
            let ghost start = out@;
            out.append("Some(");
            out.append(digits.as_str());
            out.append(")");
            proof {
                assert(out@ =~= start + optional_text(value));
            }
        },
        None => {
            out.append("None");
        },
    }
}

/// Appends `i` in decimal.
pub(crate) fn push_i64(out: &mut String, i: i64)
    ensures
        final(out)@ == old(out)@ + signed_decimal(i as int),
{
    let digits = decimal_i64(i);
    out.append(digits.as_str());
}

/// Appends `n` in decimal.
pub(crate) fn push_u64(out: &mut String, n: u64)
    ensures
        final(out)@ == old(out)@ + decimal(n as nat),
{
    let digits = decimal_u64(n);
    out.append(digits.as_str());
}

/// Puts a backslash before every `+`, as the markup of messages asks.
pub fn escape_plus(text: &str) -> (out: String)
    ensures
        out@ == plus_escaped(text@),
{
    let n: usize = text.unicode_len();
    let mut out = String::new();
    let mut i: usize = 0;
    while i < n
        invariant
            i <= n,
            n == text@.len(),
            out@ == plus_escaped(text@.take(i as int)),
        decreases n - i,
    {
        let c: char = text.get_char(i);
        proof {
            assert(text@.take(i as int + 1).drop_last() =~= text@.take(i as int));
            assert(text@.take(i as int + 1).last() == c);
        }
        if c == '+' {
            proof {
                reveal_strlit("\\+");
                assert("\\+"@ =~= seq!['\\', '+']);
            }
            out.append("\\+");
        } else {
            let one = text.substring_char(i, i + 1);
            proof {
                assert(one@ =~= seq![c]);
                assert(out@ + one@ =~= out@.push(c));
            }
            out.append(one);
        }
        i = i + 1;
    }
    proof {
        assert(text@.take(i as int) =~= text@);
    }
    out
}

} // verus!
