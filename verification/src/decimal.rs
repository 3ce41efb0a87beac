//! Decimal text of integers: how a number is written and how a written
//! number is read back.
//!
//! The written form is the canonical one: an optional minus sign followed by
//! the digits without leading zeros. Reading is more lenient, as a person
//! types: a leading plus sign and leading zeros are accepted, a minus sign
//! only where the range holds negative numbers, and anything else is refused.
use vstd::prelude::*;
use vstd::string::*;

verus! {

/// `c` is one of the ten decimal digits.
pub open spec fn is_digit(c: char) -> bool {
    '0' <= c && c <= '9'
}

/// The number that the digit `c` stands for.
pub open spec fn digit_value(c: char) -> nat {
    (c as u32 - '0' as u32) as nat
}

/// The digit that stands for `d`, for `d` below ten.
pub open spec fn digit_char(d: nat) -> char {
    if d == 0 {
        '0'
    } else if d == 1 {
        '1'
    } else if d == 2 {
        '2'
    } else if d == 3 {
        '3'
    } else if d == 4 {
        '4'
    } else if d == 5 {
        '5'
    } else if d == 6 {
        '6'
    } else if d == 7 {
        '7'
    } else if d == 8 {
        '8'
    } else {
        '9'
    }
}

/// The digits of `n`, most significant first, without leading zeros.
pub open spec fn digits_of(n: nat) -> Seq<char>
    decreases n,
{
    if n < 10 {
        seq![digit_char(n)]
    } else {
        digits_of(n / 10).push(digit_char(n % 10))
    }
}

/// The canonical decimal text of `v`.
pub open spec fn format_int(v: int) -> Seq<char> {
    if v < 0 {
        seq!['-'] + digits_of((-v) as nat)
    } else {
        digits_of(v as nat)
    }
}

/// Every character of `s` is a decimal digit.
pub open spec fn all_digits(s: Seq<char>) -> bool {
    forall|i: int| 0 <= i < s.len() ==> is_digit(#[trigger] s[i])
}

/// The number that a run of digits denotes; the empty run denotes zero.
pub open spec fn digits_value(s: Seq<char>) -> nat
    decreases s.len(),
{
    if s.len() == 0 {
        0
    } else {
        digits_value(s.drop_last()) * 10 + digit_value(s.last())
    }
}

/// The digits of `s` once a sign that the range admits is taken off its
/// front: a plus sign always, a minus sign only where `lowest` is negative.
pub open spec fn unsigned_part(s: Seq<char>, lowest: int) -> Seq<char> {
    if s.len() > 0 && (s[0] == '+' || (s[0] == '-' && lowest < 0)) {
        s.skip(1)
    } else {
        s
    }
}

/// `s` starts with a minus sign that the range admits.
pub open spec fn reads_negative(s: Seq<char>, lowest: int) -> bool {
    s.len() > 0 && s[0] == '-' && lowest < 0
}

/// The number that `s` denotes when it is read as an integer between
/// `lowest` and `highest`, or `None` where it denotes none: where `s` is
/// empty or only a sign, holds anything but digits behind its sign, or names
/// a number outside the range.
pub open spec fn parse_int(s: Seq<char>, lowest: int, highest: int) -> Option<int> {
    let body = unsigned_part(s, lowest);
    let magnitude = digits_value(body) as int;
    let number = if reads_negative(s, lowest) {
        -magnitude
    } else {
        magnitude
    };
    if body.len() > 0 && all_digits(body) && lowest <= number <= highest {
        Some(number)
    } else {
        None
    }
}

/// A digit stands for the number it was made from.
pub proof fn lemma_digit_char(d: nat)
    requires
        d < 10,
    ensures
        is_digit(digit_char(d)),
        digit_value(digit_char(d)) == d,
        digit_char(d) != '-',
        digit_char(d) != '+',
{
}

/// The digits of a number are digits, at least one of them, and denote the
/// number.
pub proof fn lemma_digits_of(n: nat)
    ensures
        digits_of(n).len() >= 1,
        all_digits(digits_of(n)),
        digits_value(digits_of(n)) == n,
    decreases n,
{
    if n < 10 {
        lemma_digit_char(n);
        let s = digits_of(n);
        assert(s.drop_last() =~= Seq::<char>::empty());
        assert(digits_value(s.drop_last()) == 0);
    } else {
        lemma_digits_of(n / 10);
        lemma_digit_char(n % 10);
        let front = digits_of(n / 10);
        let s = digits_of(n);
        assert(s.drop_last() =~= front);
        assert(s.last() == digit_char(n % 10));
        assert forall|i: int| 0 <= i < s.len() implies is_digit(#[trigger] s[i]) by {
            if i < front.len() {
                assert(s[i] == front[i]);
            }
        }
    }
}

/// The canonical text has no leading zero but for zero itself.
pub proof fn lemma_digits_of_leading(n: nat)
    ensures
        n > 0 ==> digits_of(n)[0] != '0',
        n == 0 ==> digits_of(n) == seq!['0'],
    decreases n,
{
    if n >= 10 {
        lemma_digits_of_leading(n / 10);
        lemma_digits_of(n / 10);
        assert(digits_of(n)[0] == digits_of(n / 10)[0]);
    }
}

/// Reading what was written gives the number back, in every range that
/// holds it.
pub proof fn lemma_parse_format(v: int, lowest: int, highest: int)
    requires
        lowest <= v <= highest,
    ensures
        parse_int(format_int(v), lowest, highest) == Some(v),
{
    let s = format_int(v);
    if v < 0 {
        let digits = digits_of((-v) as nat);
        lemma_digits_of((-v) as nat);
        assert(s[0] == '-');
        assert(s.skip(1) =~= digits);
    } else {
        lemma_digits_of(v as nat);
        let digits = digits_of(v as nat);
        assert(is_digit(digits[0]));
    }
}

/// Two numbers with the same canonical text are the same number.
pub proof fn lemma_format_injective(a: int, b: int)
    requires
        format_int(a) == format_int(b),
    ensures
        a == b,
{
    let lowest = if a < b { a } else { b };
    let highest = if a < b { b } else { a };
    lemma_parse_format(a, lowest, highest);
    lemma_parse_format(b, lowest, highest);
}

/// A run of digits denotes at least what any of its prefixes denotes.
pub proof fn lemma_prefix_value(s: Seq<char>, k: int)
    requires
        0 <= k <= s.len(),
    ensures
        digits_value(s.take(k)) <= digits_value(s),
    decreases s.len() - k,
{
    if k == s.len() {
        assert(s.take(k) =~= s);
    } else {
        lemma_prefix_value(s.drop_last(), k);
        assert(s.drop_last().take(k) =~= s.take(k));
    }
}

/// The text of one digit.
fn digit_text(d: u8) -> (s: &'static str)
    requires
        d < 10,
    ensures
        s@ == seq![digit_char(d as nat)],
{
    proof {
        reveal_strlit("0");
        reveal_strlit("1");
        reveal_strlit("2");
        reveal_strlit("3");
        reveal_strlit("4");
        reveal_strlit("5");
        reveal_strlit("6");
        reveal_strlit("7");
        reveal_strlit("8");
        reveal_strlit("9");
    }
    let s: &'static str = if d == 0 {
        "0"
    } else if d == 1 {
        "1"
    } else if d == 2 {
        "2"
    } else if d == 3 {
        "3"
    } else if d == 4 {
        "4"
    } else if d == 5 {
        "5"
    } else if d == 6 {
        "6"
    } else if d == 7 {
        "7"
    } else if d == 8 {
        "8"
    } else {
        "9"
    };
    assert(s@ =~= seq![digit_char(d as nat)]);
    s
}

/// Appends the digits of `n` to `out`.
fn push_digits(out: &mut String, n: u128)
    ensures
        final(out)@ == old(out)@ + digits_of(n as nat),
    decreases n,
{
    if n >= 10 {
        push_digits(out, n / 10);
    }
    let d: u8 = (n % 10) as u8;
    out.append(digit_text(d));
    assert(final(out)@ =~= old(out)@ + digits_of(n as nat));
}

/// The canonical decimal text of `v`.
pub fn format_decimal(v: i128) -> (s: String)
    ensures
        s@ == format_int(v as int),
{
    let mut out = String::new();
    if v < 0 {
        proof {
            reveal_strlit("-");
        }
        out.append("-");
        let magnitude: u128 = (-(v + 1)) as u128 + 1;
        push_digits(&mut out, magnitude);
        assert(out@ =~= seq!['-'] + digits_of((-v) as nat));
    } else {
        push_digits(&mut out, v as u128);
        assert(out@ =~= digits_of(v as nat));
    }
    out
}

/// Reads `text` as an integer between `lowest` and `highest`.
///
/// Returns the number where the text is an optional sign followed by digits
/// and the number lies in the range; `None` for every other text.
pub fn parse_decimal(text: &str, lowest: i128, highest: i128) -> (r: Option<i128>)
    ensures
        match r {
            Some(v) => parse_int(text@, lowest as int, highest as int) == Some(v as int),
            None => parse_int(text@, lowest as int, highest as int).is_none(),
        },
{
    broadcast use is_ascii_spec_bytes;

    if !text.is_ascii() {
        proof {
            let s = text@;
            let i = choose|i: int| 0 <= i < s.len() && !('\0' <= #[trigger] s[i] <= '\u{7f}');
            let body = unsigned_part(s, lowest as int);
            if body.len() == s.len() {
                assert(body =~= s);
                assert(!is_digit(body[i]));
            } else if i > 0 {
                assert(body[i - 1] == s[i]);
                assert(!is_digit(body[i - 1]));
            }
        }
        return None;
    }
    let bytes = text.as_bytes();
    let n: usize = bytes.len();
    if n == 0 {
        return None;
    }
    let ghost s = text@;
    let ghost body = unsigned_part(s, lowest as int);
    assert(bytes@.len() == s.len());
    assert(forall|i: int| 0 <= i < s.len() ==> bytes@[i] == #[trigger] s[i] as u8);
    let first: u8 = bytes[0];
    let negative: bool = first == 45u8 && lowest < 0;
    let start: usize = if negative || first == 43u8 {
        1
    } else {
        0
    };
    assert(negative == reads_negative(s, lowest as int));
    assert(body =~= s.skip(start as int));
    if start == n {
        return None;
    }
    if !negative && highest < 0 {
        return None;
    }
    let limit: u128 = if negative {
        (-(lowest + 1)) as u128 + 1
    } else {
        highest as u128
    };
    let mut acc: u128 = 0;
    let mut i: usize = start;
    assert(body.take(0) =~= Seq::<char>::empty());
    while i < n
        invariant
            start <= i <= n,
            n == s.len(),
            s == text@,
            body == unsigned_part(s, lowest as int),
            negative == reads_negative(s, lowest as int),
            limit == if negative { -lowest } else { highest as int },
            body.len() == n - start,
            bytes@.len() == s.len(),
            forall|j: int| 0 <= j < s.len() ==> bytes@[j] == #[trigger] s[j] as u8,
            forall|j: int| 0 <= j < s.len() ==> '\0' <= #[trigger] s[j] <= '\u{7f}',
            all_digits(body.take(i - start)),
            acc == digits_value(body.take(i - start)),
            acc <= limit,
        decreases n - i,
    {
        let b: u8 = bytes[i];
        let ghost k = i - start;
        assert(body[k] == s[i as int]);
        if b < 48u8 || b > 57u8 {
            assert(!is_digit(body[k]));
            return None;
        }
        assert(is_digit(body[k]));
        let d: u128 = (b - 48u8) as u128;
        assert(d == digit_value(body[k]));
        proof {
            assert(body.take(k + 1).drop_last() =~= body.take(k));
            assert(body.take(k + 1).last() == body[k]);
            assert(digits_value(body.take(k + 1)) == acc * 10 + d);
            lemma_prefix_value(body, k + 1);
        }
        if acc > limit / 10 {
            return None;
        }
        let shifted: u128 = acc * 10;
        if d > limit - shifted {
            return None;
        }
        acc = shifted + d;
        i = i + 1;
        proof {
            assert forall|j: int| 0 <= j < body.take(k + 1).len() implies is_digit(
                #[trigger] body.take(k + 1)[j],
            ) by {
                if j < k {
                    assert(body.take(k + 1)[j] == body.take(k)[j]);
                }
            }
        }
    }
    assert(body.take(i - start) =~= body);
    let number: i128 = if !negative {
        acc as i128
    } else if acc > i128::MAX as u128 {
        i128::MIN
    } else {
        -(acc as i128)
    };
    if lowest <= number && number <= highest {
        Some(number)
    } else {
        None
    }
}

} // verus!
