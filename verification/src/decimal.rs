//! Decimal notation for integers: the text of a number and the number of a
//! text.

use vstd::prelude::*;

verus! {

/// Whether `c` is one of the ten ASCII digits.
pub open spec fn is_digit(c: char) -> bool {
    '0' <= c && c <= '9'
}

/// The number a digit stands for.
pub open spec fn digit_value(c: char) -> int {
    c as int - '0' as int
}

/// The digit that stands for `d`, for `0 <= d <= 9`.
pub open spec fn digit_char(d: int) -> char {
    (d + '0' as int) as char
}

/// The number written by a run of digits, most significant first. The empty
/// run writes zero.
pub open spec fn digits_value(s: Seq<char>) -> int
    decreases s.len(),
{
    if s.len() == 0 {
        0
    } else {
        10 * digits_value(s.drop_last()) + digit_value(s.last())
    }
}

/// Whether every character of `s` is a digit.
pub open spec fn all_digits(s: Seq<char>) -> bool {
    forall|i: int| 0 <= i < s.len() ==> is_digit(#[trigger] s[i])
}

/// The digits of a natural number, without leading zeros; zero is `"0"`.
pub open spec fn natural_text(n: int) -> Seq<char>
    decreases n,
{
    if n < 10 {
        seq![digit_char(n)]
    } else {
        natural_text(n / 10).push(digit_char(n % 10))
    }
}

/// The decimal text of an integer: a minus sign for a negative number, then
/// the digits of its magnitude.
pub open spec fn decimal_text(n: int) -> Seq<char> {
    if n < 0 {
        seq!['-'] + natural_text(-n)
    } else {
        natural_text(n)
    }
}

/// The one-character text of a single digit.
fn digit_str(d: u32) -> (s: &'static str)
    requires
        d < 10,
    ensures
        s@ == seq![digit_char(d as int)],
{
    proof {
        reveal_strlit("0");
        reveal_strlit("1");
        reveal_strlit("2");
        reveal_strlit("3");
        reveal_strlit("4");
        reveal_strlit("5");
        reveal_strlit("6");
        reveal_strlit("7");
        reveal_strlit("8");
        reveal_strlit("9");
    }
    let s = if d == 0 {
        "0"
    } else if d == 1 {
        "1"
    } else if d == 2 {
        "2"
    } else if d == 3 {
        "3"
    } else if d == 4 {
        "4"
    } else if d == 5 {
        "5"
    } else if d == 6 {
        "6"
    } else if d == 7 {
        "7"
    } else if d == 8 {
        "8"
    } else {
        "9"
    };
    assert(s@ =~= seq![digit_char(d as int)]);
    s
}

/// Appends the digits of `n` to `out`.
pub fn push_natural(out: &mut String, n: u32)
    ensures
        final(out)@ == old(out)@ + natural_text(n as int),
    decreases n,
{
    if n >= 10 {
        push_natural(out, n / 10);
    }
    out.append(digit_str(n % 10));
}

/// The decimal text of `n`, as `format!("{n}")` writes it.
pub fn format_i32(n: i32) -> (text: String)
    ensures
        text@ == decimal_text(n as int),
{
    let mut text = String::new();
    if n < 0 {
        proof {
            reveal_strlit("-");
        }
        text.append("-");
        let magnitude: i64 = 0 - (n as i64);
        push_natural(&mut text, magnitude as u32);
        assert(text@ =~= seq!['-'] + natural_text(-(n as int)));
    } else {
        push_natural(&mut text, n as u32);
        assert(text@ =~= natural_text(n as int));
    }
    text
}

/// The integer that `s` writes: an optional sign, `+` or `-`, and then one or
/// more digits. Anything else writes no integer.
pub open spec fn integer_value(s: Seq<char>) -> Option<int> {
    if s.len() > 0 && (s[0] == '-' || s[0] == '+') {
        let digits = s.subrange(1, s.len() as int);
        if digits.len() > 0 && all_digits(digits) {
            Some(
                if s[0] == '-' {
                    -digits_value(digits)
                } else {
                    digits_value(digits)
                },
            )
        } else {
            None
        }
    } else if s.len() > 0 && all_digits(s) {
        Some(digits_value(s))
    } else {
        None
    }
}

/// The integer that `s` writes, if it is one that an `i32` holds.
pub open spec fn i32_value(s: Seq<char>) -> Option<i32> {
    match integer_value(s) {
        Some(v) => if i32::MIN <= v <= i32::MAX {
            Some(v as i32)
        } else {
            None
        },
        None => None,
    }
}

/// A run of digits writes a number that is not negative.
pub proof fn lemma_digits_value_nonnegative(s: Seq<char>)
    requires
        all_digits(s),
    ensures
        digits_value(s) >= 0,
    decreases s.len(),
{
    if s.len() > 0 {
        lemma_digits_value_nonnegative(s.drop_last());
    }
}

/// A run of digits writes a number at least as large as any of its prefixes
/// does.
pub proof fn lemma_digits_value_prefix(s: Seq<char>, k: int)
    requires
        all_digits(s),
        0 <= k <= s.len(),
    ensures
        0 <= digits_value(s.subrange(0, k)) <= digits_value(s),
    decreases s.len(),
{
    if k == s.len() {
        assert(s.subrange(0, k) =~= s);
        lemma_digits_value_nonnegative(s);
    } else {
        lemma_digits_value_prefix(s.drop_last(), k);
        assert(s.drop_last().subrange(0, k) =~= s.subrange(0, k));
    }
}

/// A text that writes an integer holds ASCII characters only.
proof fn lemma_integer_value_is_ascii(s: Seq<char>)
    requires
        integer_value(s) is Some,
    ensures
        vstd::utf8::is_ascii_chars(s),
{
    if s[0] == '-' || s[0] == '+' {
        let digits = s.subrange(1, s.len() as int);
        assert forall|i: int| 0 <= i < s.len() implies '\0' <= #[trigger] s[i] <= '\u{7f}' by {
            if i > 0 {
                assert(is_digit(digits[i - 1]));
            }
        }
    } else {
        assert forall|i: int| 0 <= i < s.len() implies '\0' <= #[trigger] s[i] <= '\u{7f}' by {
            assert(is_digit(s[i]));
        }
    }
}

/// The largest magnitude of an `i32`, that of `i32::MIN`.
const MAGNITUDE_LIMIT: i64 = 2147483648;

/// The byte of the character `-`.
const MINUS: u8 = 45;

/// The byte of the character `+`.
const PLUS: u8 = 43;

/// The byte of the character `0`.
const ZERO: u8 = 48;

/// The byte of the character `9`.
const NINE: u8 = 57;

/// Reads a decimal integer as `str::parse::<i32>` does: an optional sign, then
/// one or more ASCII digits, and a value within the range of `i32`.
pub fn parse_i32(text: &str) -> (value: Option<i32>)
    ensures
        value == i32_value(text@),
{
    if !text.is_ascii() {
        proof {
            if integer_value(text@) is Some {
                lemma_integer_value_is_ascii(text@);
            }
        }
        return None;
    }
    let bytes = text.as_bytes();
    proof {
        vstd::string::is_ascii_spec_bytes(text);
    }
    let n: usize = bytes.len();
    assert(forall|i: int| 0 <= i < n ==> bytes@[i] == #[trigger] text@[i] as u8);
    if n == 0 {
        return None;
    }
    let negative = bytes[0] == MINUS;
    let start: usize = if bytes[0] == MINUS || bytes[0] == PLUS {
        1
    } else {
        0
    };
    if start == n {
        return None;
    }
    let ghost digits = text@.subrange(start as int, n as int);
    let mut magnitude: i64 = 0;
    let mut i: usize = start;
    while i < n
        invariant
            start <= i <= n,
            start < n,
            start == 1 <==> (text@[0] == '-' || text@[0] == '+'),
            start == 0 || start == 1,
            negative <==> text@[0] == '-',
            n == text@.len(),
            n == bytes@.len(),
            forall|j: int| 0 <= j < n ==> bytes@[j] == #[trigger] text@[j] as u8,
            vstd::utf8::is_ascii_chars(text@),
            digits == text@.subrange(start as int, n as int),
            all_digits(digits.subrange(0, i - start)),
            magnitude == digits_value(digits.subrange(0, i - start)),
            0 <= magnitude <= MAGNITUDE_LIMIT,
        decreases n - i,
    {
        let b = bytes[i];
        assert(digits[i - start] == text@[i as int]);
        if b < ZERO || b > NINE {
            assert(!is_digit(digits[i - start]));
            assert(start == 0 ==> digits =~= text@);
            return None;
        }
        let ghost before = digits.subrange(0, i - start);
        let ghost after = digits.subrange(0, i - start + 1);
        assert(after.drop_last() =~= before);
        assert(all_digits(after)) by {
            assert forall|j: int| 0 <= j < after.len() implies is_digit(#[trigger] after[j]) by {
                if j < before.len() {
                    assert(after[j] == before[j]);
                }
            }
        }
        magnitude = magnitude * 10 + (b - ZERO) as i64;
        if magnitude > MAGNITUDE_LIMIT {
            proof {
                if start == 0 {
                    assert(digits =~= text@);
                }
                if all_digits(digits) {
                    lemma_digits_value_prefix(digits, i - start + 1);
                }
            }
            return None;
        }
        i += 1;
    }
    assert(digits.subrange(0, n - start) =~= digits);
    assert(start == 0 ==> digits =~= text@);
    if negative {
        Some((0 - magnitude) as i32)
    } else if magnitude == MAGNITUDE_LIMIT {
        None
    } else {
        Some(magnitude as i32)
    }
}

/// The digits of a natural number are digits, at least one, and write that
/// number.
pub proof fn lemma_natural_text_value(n: int)
    requires
        n >= 0,
    ensures
        natural_text(n).len() >= 1,
        all_digits(natural_text(n)),
        digits_value(natural_text(n)) == n,
    decreases n,
{
    if n < 10 {
        let s = natural_text(n);
        assert(s.drop_last() =~= Seq::<char>::empty());
        assert(digits_value(s.drop_last()) == 0);
        assert(digit_value(s.last()) == n);
    } else {
        lemma_natural_text_value(n / 10);
        let head = natural_text(n / 10);
        let s = natural_text(n);
        assert(s.drop_last() =~= head);
        assert(digit_value(s.last()) == n % 10);
        assert forall|i: int| 0 <= i < s.len() implies is_digit(#[trigger] s[i]) by {
            if i < head.len() {
                assert(s[i] == head[i]);
            }
        }
    }
}

/// Reading back the decimal text of an integer gives that integer: what
/// [`format_i32`] writes, [`parse_i32`] reads as the same number.
pub proof fn lemma_decimal_round_trip(n: int)
    ensures
        integer_value(decimal_text(n)) == Some(n),
        i32::MIN <= n <= i32::MAX ==> i32_value(decimal_text(n)) == Some(n as i32),
{
    if n < 0 {
        lemma_natural_text_value(-n);
        let s = decimal_text(n);
        assert(s.subrange(1, s.len() as int) =~= natural_text(-n));
    } else {
        lemma_natural_text_value(n);
        assert(is_digit(natural_text(n)[0]));
    }
}

/// The decimal text of an integer holds digits and, for a negative number, a
/// leading minus sign: nothing else.
pub proof fn lemma_decimal_text_characters(n: int)
    ensures
        decimal_text(n).len() >= 1,
        forall|i: int|
            0 <= i < decimal_text(n).len() ==> {
                let c = #[trigger] decimal_text(n)[i];
                is_digit(c) || c == '-'
            },
{
    if n < 0 {
        lemma_natural_text_value(-n);
        let digits = natural_text(-n);
        assert forall|i: int| 0 <= i < decimal_text(n).len() implies {
            let c = #[trigger] decimal_text(n)[i];
            is_digit(c) || c == '-'
        } by {
            if i > 0 {
                assert(decimal_text(n)[i] == digits[i - 1]);
            }
        }
    } else {
        lemma_natural_text_value(n);
    }
}

/// Different integers have different decimal texts.
pub proof fn lemma_decimal_text_injective(a: int, b: int)
    requires
        decimal_text(a) == decimal_text(b),
    ensures
        a == b,
{
    lemma_decimal_round_trip(a);
    lemma_decimal_round_trip(b);
}

} // verus!
