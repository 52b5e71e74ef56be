//! Numbers as text: reading unsigned integers and decimal fractions, and
//! writing integers in decimal.

use vstd::prelude::*;
use crate::text::{first_at, find_char, slice_of};

verus! {

/// How many microseconds a second holds: decimals are read to this precision.
pub const MICROS_PER_SECOND: u64 = 1_000_000;

/// An ASCII decimal digit.
pub open spec fn is_digit(c: char) -> bool {
    '0' <= c && c <= '9'
}

/// The number that a digit stands for.
pub open spec fn digit_value(c: char) -> nat {
    (c as int - '0' as int) as nat
}

/// The digit that stands for `d`, for `d` below ten.
pub open spec fn digit_char(d: nat) -> char {
    (d + '0' as int) as char
}

/// Whether `s` consists of decimal digits; the empty text does.
pub open spec fn all_digits(s: Seq<char>) -> bool {
    forall|i: int| 0 <= i < s.len() ==> is_digit(#[trigger] s[i])
}

/// The number that the digits `s` write in base ten; zero for the empty text.
pub open spec fn digits_value(s: Seq<char>) -> nat
    decreases s.len(),
{
    if s.len() == 0 {
        0
    } else {
        digits_value(s.drop_last()) * 10 + digit_value(s.last())
    }
}

/// Ten to the power `n`.
pub open spec fn pow10(n: nat) -> nat
    decreases n,
{
    if n == 0 {
        1
    } else {
        10 * pow10((n - 1) as nat)
    }
}

/// A prefix of a digit text writes no larger a number than the whole text.
pub proof fn lemma_digits_prefix(s: Seq<char>, k: int)
    requires
        0 <= k <= s.len(),
    ensures
        digits_value(s.take(k)) <= digits_value(s),
    decreases s.len() - k,
{
    if k < s.len() {
        lemma_digits_prefix(s, k + 1);
        assert(s.take(k + 1).drop_last() == s.take(k));
    } else {
        assert(s.take(k) == s);
    }
}

/// `n` digits write a number below ten to the `n`.
pub proof fn lemma_digits_bound(s: Seq<char>)
    requires
        all_digits(s),
    ensures
        digits_value(s) < pow10(s.len()),
    decreases s.len(),
{
    if s.len() > 0 {
        lemma_digits_bound(s.drop_last());
        assert(is_digit(s[s.len() - 1]));
    }
}

/// Reads a text of digits: the number it writes, where every character is a
/// digit and the number fits; `None` otherwise. The empty text reads as zero.
pub fn parse_digits(chars: &[char]) -> (out: Option<u64>)
    ensures
        match out {
            Some(v) => all_digits(chars@) && v == digits_value(chars@),
            None => !all_digits(chars@) || digits_value(chars@) > u64::MAX,
        },
{
    let mut acc: u64 = 0;
    let mut i: usize = 0;
    while i < chars.len()
        invariant
            i <= chars.len(),
            all_digits(chars@.take(i as int)),
            acc == digits_value(chars@.take(i as int)),
        decreases chars.len() - i,
    {
        let c = chars[i];
        if !('0' <= c && c <= '9') {
            return None;
        }
        let d: u64 = (c as u64) - ('0' as u64);
        proof {
            assert(chars@.take(i + 1).drop_last() == chars@.take(i as int));
            assert(d == digit_value(c));
            lemma_digits_prefix(chars@, i + 1);
            assert forall|j: int| 0 <= j < i + 1 implies is_digit(
                #[trigger] chars@.take(i + 1)[j],
            ) by {
                if j < i {
                    assert(is_digit(chars@.take(i as int)[j]));
                }
            }
        }
        let next = match acc.checked_mul(10) {
            Some(tenfold) => tenfold.checked_add(d),
            None => None,
        };
        match next {
            Some(v) => {
                acc = v;
            },
            None => {
                return None;
            },
        }
        i += 1;
    }
    assert(chars@.take(chars.len() as int) == chars@);
    Some(acc)
}

/// The digits of an unsigned integer text: the text without a leading `+`.
pub open spec fn unsigned_digits(s: Seq<char>) -> Seq<char> {
    if s.len() > 0 && s[0] == '+' {
        s.skip(1)
    } else {
        s
    }
}

/// An unsigned integer text: an optional `+`, then one digit or more.
pub open spec fn is_unsigned(s: Seq<char>) -> bool {
    unsigned_digits(s).len() > 0 && all_digits(unsigned_digits(s))
}

/// The number that an unsigned integer text writes.
pub open spec fn unsigned_value(s: Seq<char>) -> nat {
    digits_value(unsigned_digits(s))
}

/// What reading `s` as an unsigned integer of at most `max` gives.
pub open spec fn parsed_unsigned(s: Seq<char>, max: nat) -> Option<nat> {
    if is_unsigned(s) && unsigned_value(s) <= max {
        Some(unsigned_value(s))
    } else {
        None
    }
}

/// The characters of `chars` behind a leading `+`, or all of them.
fn after_plus(chars: &[char]) -> (out: Vec<char>)
    ensures
        out@ == unsigned_digits(chars@),
{
    if chars.len() > 0 && chars[0] == '+' {
        slice_of(chars, 1, chars.len())
    } else {
        slice_of(chars, 0, chars.len())
    }
}

/// Reads an unsigned integer of at most `max`.
pub fn parse_unsigned(chars: &[char], max: u64) -> (out: Option<u64>)
    ensures
        match out {
            Some(v) => parsed_unsigned(chars@, max as nat) == Some(v as nat),
            None => parsed_unsigned(chars@, max as nat) is None,
        },
{
    let digits = after_plus(chars);
    if digits.len() == 0 {
        return None;
    }
    match parse_digits(digits.as_slice()) {
        Some(v) => if v <= max {
            Some(v)
        } else {
            None
        },
        None => None,
    }
}

/// The digits of a decimal text that stand before its point.
pub open spec fn decimal_whole(s: Seq<char>) -> Seq<char> {
    let d = unsigned_digits(s);
    d.take(first_at(d, '.', 0))
}

/// The digits of a decimal text that stand behind its point.
pub open spec fn decimal_fraction(s: Seq<char>) -> Seq<char> {
    let d = unsigned_digits(s);
    let dot = first_at(d, '.', 0);
    if dot < d.len() {
        d.skip(dot + 1)
    } else {
        Seq::empty()
    }
}

/// A decimal text: an optional `+`, digits, and optionally a point with digits
/// behind it; one digit at least. There is no sign `-`, exponent or name of a
/// special value.
pub open spec fn is_decimal(s: Seq<char>) -> bool {
    &&& all_digits(decimal_whole(s))
    &&& all_digits(decimal_fraction(s))
    &&& decimal_whole(s).len() + decimal_fraction(s).len() > 0
}

/// The millionths that the fraction digits `f` write: digits behind the sixth
/// are dropped.
pub open spec fn fraction_micros(f: Seq<char>) -> nat {
    let head = if f.len() > 6 {
        f.take(6)
    } else {
        f
    };
    digits_value(head) * pow10((6 - head.len()) as nat)
}

/// The number that a decimal text writes, in millionths, rounded down.
pub open spec fn decimal_micros(s: Seq<char>) -> nat {
    digits_value(decimal_whole(s)) * 1_000_000 + fraction_micros(decimal_fraction(s))
}

/// What reading `s` as a decimal gives, in millionths.
pub open spec fn parsed_decimal(s: Seq<char>) -> Option<nat> {
    if is_decimal(s) && decimal_micros(s) <= u64::MAX {
        Some(decimal_micros(s))
    } else {
        None
    }
}

/// Computes `fraction_micros` for a text of digits.
fn read_fraction(frac: &[char]) -> (out: Option<u64>)
    ensures
        match out {
            Some(v) => all_digits(frac@) && v == fraction_micros(frac@) && v < 1_000_000,
            None => !all_digits(frac@),
        },
{
    let mut i: usize = 0;
    while i < frac.len()
        invariant
            i <= frac.len(),
            forall|j: int| 0 <= j < i ==> is_digit(#[trigger] frac@[j]),
        decreases frac.len() - i,
    {
        let c = frac[i];
        if !('0' <= c && c <= '9') {
            return None;
        }
        i += 1;
    }
    let kept: usize = if frac.len() > 6 {
        6
    } else {
        frac.len()
    };
    let head = slice_of(frac, 0, kept);
    proof {
        assert(head@ == if frac@.len() > 6 {
            frac@.take(6)
        } else {
            frac@
        });
        lemma_digits_bound(head@);
    }
    let mut value: u64 = match parse_digits(head.as_slice()) {
        Some(v) => v,
        None => {
            proof {
                lemma_pow10_small();
            }
            return None;
        },
    };
    let mut width: usize = kept;
    while width < 6
        invariant
            kept <= width <= 6,
            value == digits_value(head@) * pow10((width - kept) as nat),
            value < pow10(width as nat),
        decreases 6 - width,
    {
        proof {
            lemma_pow10_small();
            assert(digits_value(head@) * pow10((width - kept) as nat) * 10 == digits_value(head@)
                * (10 * pow10((width - kept) as nat))) by (nonlinear_arith);
        }
        value = value * 10;
        width += 1;
    }
    proof {
        lemma_pow10_small();
    }
    Some(value)
}

/// The powers of ten up to the sixth.
pub proof fn lemma_pow10_small()
    ensures
        pow10(0) == 1,
        pow10(1) == 10,
        pow10(2) == 100,
        pow10(3) == 1_000,
        pow10(4) == 10_000,
        pow10(5) == 100_000,
        pow10(6) == 1_000_000,
{
    reveal_with_fuel(pow10, 7);
}

/// Reads a decimal text as millionths, rounded down: `1.5` reads as 1500000.
pub fn parse_decimal(chars: &[char]) -> (out: Option<u64>)
    ensures
        match out {
            Some(v) => parsed_decimal(chars@) == Some(v as nat),
            None => parsed_decimal(chars@) is None,
        },
{
    let digits = after_plus(chars);
    let dot = find_char(digits.as_slice(), '.', 0);
    let whole = slice_of(digits.as_slice(), 0, dot);
    let fraction = if dot < digits.len() {
        slice_of(digits.as_slice(), dot + 1, digits.len())
    } else {
        Vec::new()
    };
    assert(whole@ == decimal_whole(chars@));
    assert(fraction@ == decimal_fraction(chars@));
    if whole.len() + fraction.len() == 0 {
        return None;
    }
    let seconds = match parse_digits(whole.as_slice()) {
        Some(v) => v,
        None => {
            return None;
        },
    };
    let micros = match read_fraction(fraction.as_slice()) {
        Some(v) => v,
        None => {
            return None;
        },
    };
    match seconds.checked_mul(MICROS_PER_SECOND) {
        Some(scaled) => scaled.checked_add(micros),
        None => None,
    }
}

/// The decimal digits that write `n`, without leading zeros; `0` for zero.
pub open spec fn decimal_text(n: nat) -> Seq<char>
    decreases n,
{
    if n < 10 {
        seq![digit_char(n)]
    } else {
        decimal_text(n / 10).push(digit_char(n % 10))
    }
}

/// The decimal text of a number is made of digits and writes that number.
pub proof fn lemma_decimal_text_reads_back(n: nat)
    ensures
        all_digits(decimal_text(n)),
        decimal_text(n).len() > 0,
        digits_value(decimal_text(n)) == n,
    decreases n,
{
    if n < 10 {
        assert(decimal_text(n).drop_last() == Seq::<char>::empty());
        assert(digits_value(decimal_text(n).drop_last()) == 0);
    } else {
        lemma_decimal_text_reads_back(n / 10);
        assert(decimal_text(n).drop_last() == decimal_text(n / 10));
    }
}

/// Appends the decimal digits of `n` to `out`.
pub fn push_decimal(out: &mut Vec<char>, n: u64)
    ensures
        final(out)@ == old(out)@ + decimal_text(n as nat),
    decreases n,
{
    if n >= 10 {
        push_decimal(out, n / 10);
    }
    let d: u8 = (n % 10) as u8;
    let c: char = (d + 48) as char;
    assert(c == digit_char((n % 10) as nat));
    out.push(c);
}

} // verus!
