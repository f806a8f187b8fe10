//! Decimal and hexadecimal numerals: rendering and parsing of unsigned integers.
use crate::text::{chars_of, left_padded};
use vstd::prelude::*;

verus! {

/// The character that stands for the digit `d` (lower case above nine).
pub open spec fn digit_char(d: nat) -> char {
    if d < 10 {
        ('0' as u8 + d) as char
    } else {
        ('a' as u8 + d - 10) as char
    }
}

/// Whether `c` is one of `0` to `9`.
pub open spec fn is_decimal_digit(c: char) -> bool {
    '0' <= c <= '9'
}

/// Whether `c` is one of `0` to `9` or `a` to `f`.
pub open spec fn is_hex_digit(c: char) -> bool {
    '0' <= c <= '9' || 'a' <= c <= 'f'
}

/// The decimal numeral of `n`, most significant digit first, without leading
/// zeros (zero itself is the single digit `0`).
pub open spec fn decimal(n: nat) -> Seq<char>
    decreases n,
{
    if n < 10 {
        seq![digit_char(n)]
    } else {
        decimal(n / 10).push(digit_char(n % 10))
    }
}

/// The lower-case hexadecimal numeral of `n`, without leading zeros.
pub open spec fn lower_hex(n: nat) -> Seq<char>
    decreases n,
{
    if n < 16 {
        seq![digit_char(n)]
    } else {
        lower_hex(n / 16).push(digit_char(n % 16))
    }
}

fn digit_of(d: u64) -> (c: char)
    requires
        d < 16,
    ensures
        c == digit_char(d as nat),
{
    let b: u8 = d as u8;
    if b < 10 {
        (48u8 + b) as char
    } else {
        (97u8 + (b - 10)) as char
    }
}

fn push_decimal(s: &mut String, n: u64)
    ensures
        final(s)@ == old(s)@ + decimal(n as nat),
    decreases n,
{
    if n >= 10 {
        push_decimal(s, n / 10);
        s.push(digit_of(n % 10));
        assert(s@ == old(s)@ + decimal((n / 10) as nat).push(digit_char((n % 10) as nat)));
    } else {
        s.push(digit_of(n));
        assert(s@ == old(s)@ + seq![digit_char(n as nat)]);
    }
}

fn push_hex(s: &mut String, n: u64)
    ensures
        final(s)@ == old(s)@ + lower_hex(n as nat),
    decreases n,
{
    if n >= 16 {
        push_hex(s, n / 16);
        s.push(digit_of(n % 16));
        assert(s@ == old(s)@ + lower_hex((n / 16) as nat).push(digit_char((n % 16) as nat)));
    } else {
        s.push(digit_of(n));
        assert(s@ == old(s)@ + seq![digit_char(n as nat)]);
    }
}

/// Renders `n` in decimal.
pub fn u32_to_decimal(n: u32) -> (r: String)
    ensures
        r@ == decimal(n as nat),
{
    let mut r = String::new();
    push_decimal(&mut r, n as u64);
    assert(Seq::<char>::empty() + decimal(n as nat) == decimal(n as nat));
    r
}

/// Renders `n` in lower-case hexadecimal, without a prefix.
pub fn u64_to_hex(n: u64) -> (r: String)
    ensures
        r@ == lower_hex(n as nat),
{
    let mut r = String::new();
    push_hex(&mut r, n);
    assert(Seq::<char>::empty() + lower_hex(n as nat) == lower_hex(n as nat));
    r
}

/// The character that stands for the digit `d` (upper case above nine).
pub open spec fn upper_digit_char(d: nat) -> char {
    if d < 10 {
        ('0' as u8 + d) as char
    } else {
        ('A' as u8 + d - 10) as char
    }
}

/// The four upper-case hexadecimal digits of `n`, with leading zeros.
pub open spec fn upper_hex4(n: u16) -> Seq<char> {
    seq![
        upper_digit_char((n / 4096) as nat),
        upper_digit_char(((n / 256) % 16) as nat),
        upper_digit_char(((n / 16) % 16) as nat),
        upper_digit_char((n % 16) as nat),
    ]
}

fn upper_digit_of(d: u16) -> (c: char)
    requires
        d < 16,
    ensures
        c == upper_digit_char(d as nat),
{
    let b: u8 = d as u8;
    if b < 10 {
        (48u8 + b) as char
    } else {
        (65u8 + (b - 10)) as char
    }
}

/// Appends the four upper-case hexadecimal digits of `n` to `s`.
pub fn push_upper_hex4(s: &mut String, n: u16)
    ensures
        final(s)@ == old(s)@ + upper_hex4(n),
{
    s.push(upper_digit_of(n / 4096));
    s.push(upper_digit_of((n / 256) % 16));
    s.push(upper_digit_of((n / 16) % 16));
    s.push(upper_digit_of(n % 16));
    assert(s@ == old(s)@ + upper_hex4(n));
}

/// The number that a sequence of decimal digits stands for.
pub open spec fn digits_value(s: Seq<char>) -> nat
    decreases s.len(),
{
    if s.len() == 0 {
        0
    } else {
        digits_value(s.drop_last()) * 10 + (s.last() as u8 - '0' as u8) as nat
    }
}

/// Whether every character of `s` is a decimal digit.
pub open spec fn all_decimal_digits(s: Seq<char>) -> bool {
    forall|i: int| 0 <= i < s.len() ==> is_decimal_digit(#[trigger] s[i])
}

/// The digits of a numeral: what follows one optional leading `+`.
pub open spec fn unsigned_body(s: Seq<char>) -> Seq<char> {
    if s.len() > 0 && s[0] == '+' {
        s.drop_first()
    } else {
        s
    }
}

/// What `s` parses to as a `u32`: an optional `+`, then at least one decimal
/// digit and nothing else, with a value that fits; otherwise nothing.
pub open spec fn parsed_u32(s: Seq<char>) -> Option<u32> {
    let body = unsigned_body(s);
    if body.len() > 0 && all_decimal_digits(body) && digits_value(body) <= u32::MAX {
        Some(digits_value(body) as u32)
    } else {
        None
    }
}

proof fn lemma_digits_value_monotone(s: Seq<char>, k: int)
    requires
        0 <= k <= s.len(),
        all_decimal_digits(s),
    ensures
        digits_value(s.take(k)) <= digits_value(s),
    decreases s.len() - k,
{
    if k == s.len() {
        assert(s.take(k) == s);
    } else {
        assert(is_decimal_digit(s[s.len() - 1]));
        lemma_digits_value_monotone(s.drop_last(), k);
        assert(s.drop_last().take(k) == s.take(k));
    }
}

/// Parses a decimal `u32` as `str::parse::<u32>` does.
pub fn parse_u32(s: &str) -> (r: Option<u32>)
    ensures
        r == parsed_u32(s@),
{
    let cs = chars_of(s);
    let n = cs.len();
    let start: usize = if n > 0 && cs[0] == '+' {
        1
    } else {
        0
    };
    let ghost body = unsigned_body(s@);
    assert(body == cs@.skip(start as int));
    if start == n {
        return None;
    }
    let mut acc: u64 = 0;
    let mut i: usize = start;
    while i < n
        invariant
            start <= i <= n == cs.len(),
            body == cs@.skip(start as int),
            body == unsigned_body(s@),
            all_decimal_digits(body.take(i - start)),
            acc == digits_value(body.take(i - start)),
            acc <= u32::MAX,
        decreases n - i,
    {
        let c = cs[i];
        proof {
            assert(body[i - start] == c);
            assert(body.take(i - start + 1).drop_last() == body.take(i - start));
        }
        if !('0' <= c && c <= '9') {
            assert(!is_decimal_digit(body[i - start]));
            return None;
        }
        let d: u64 = (c as u8 - 48u8) as u64;
        let next: u64 = acc * 10 + d;
        assert(next == digits_value(body.take(i - start + 1)));
        assert(all_decimal_digits(body.take(i - start + 1))) by {
            assert forall|j: int| 0 <= j < i - start + 1 implies is_decimal_digit(
                #[trigger] body.take(i - start + 1)[j],
            ) by {
                if j < i - start {
                    assert(body.take(i - start + 1)[j] == body.take(i - start)[j]);
                }
            }
        }
        if next > u32::MAX as u64 {
            proof {
                if all_decimal_digits(body) {
                    lemma_digits_value_monotone(body, i - start + 1);
                }
            }
            return None;
        }
        acc = next;
        i += 1;
    }
    assert(body.take(n - start) == body);
    Some(acc as u32)
}

/// A decimal numeral is one or more decimal digits.
pub proof fn lemma_decimal_digits(n: nat)
    ensures
        decimal(n).len() >= 1,
        all_decimal_digits(decimal(n)),
    decreases n,
{
    if n >= 10 {
        lemma_decimal_digits(n / 10);
    }
}

/// A hexadecimal numeral is one or more lower-case hexadecimal digits.
pub proof fn lemma_lower_hex_digits(n: nat)
    ensures
        lower_hex(n).len() >= 1,
        forall|i: int| 0 <= i < lower_hex(n).len() ==> is_hex_digit(#[trigger] lower_hex(n)[i]),
    decreases n,
{
    if n >= 16 {
        lemma_lower_hex_digits(n / 16);
    }
}

/// Ten to the power `digits`.
pub open spec fn pow10(digits: nat) -> nat
    decreases digits,
{
    if digits == 0 {
        1
    } else {
        10 * pow10((digits - 1) as nat)
    }
}

/// A number below `10^digits` has a decimal numeral of at most `digits` digits.
pub proof fn lemma_decimal_len(n: nat, digits: nat)
    requires
        digits >= 1,
        n < pow10(digits),
    ensures
        decimal(n).len() <= digits,
    decreases digits,
{
    if n >= 10 {
        reveal_with_fuel(pow10, 2);
        lemma_decimal_len(n / 10, (digits - 1) as nat);
    }
}

/// The decimal numeral of `n` stands for `n`.
pub proof fn lemma_decimal_value(n: nat)
    ensures
        digits_value(decimal(n)) == n,
    decreases n,
{
    let last = digit_char(n % 10);
    assert((last as u8 - '0' as u8) as nat == n % 10);
    assert(decimal(n).last() == last);
    if n >= 10 {
        lemma_decimal_value(n / 10);
        assert(decimal(n).drop_last() == decimal(n / 10));
    } else {
        assert(decimal(n).drop_last() == Seq::<char>::empty());
        assert(digits_value(Seq::<char>::empty()) == 0);
    }
}

/// Left zeros change neither the digits nor the value of a numeral.
pub proof fn lemma_zero_padding_keeps_value(s: Seq<char>, width: nat)
    requires
        all_decimal_digits(s),
    ensures
        all_decimal_digits(left_padded(s, width, '0')),
        digits_value(left_padded(s, width, '0')) == digits_value(s),
        left_padded(s, width, '0').len() == if s.len() >= width {
            s.len()
        } else {
            width
        },
    decreases s.len(),
{
    let p = left_padded(s, width, '0');
    if s.len() < width {
        if s.len() == 0 {
            lemma_zeros_value(width);
            assert(p == Seq::new(width, |i: int| '0'));
        } else {
            lemma_zero_padding_keeps_value(s.drop_last(), (width - 1) as nat);
            assert(p.drop_last() == left_padded(s.drop_last(), (width - 1) as nat, '0'));
            assert(p.last() == s.last());
        }
    }
}

proof fn lemma_zeros_value(width: nat)
    ensures
        digits_value(Seq::new(width, |i: int| '0')) == 0,
    decreases width,
{
    if width > 0 {
        lemma_zeros_value((width - 1) as nat);
        assert(Seq::new(width, |i: int| '0').drop_last() == Seq::new(
            (width - 1) as nat,
            |i: int| '0',
        ));
    }
}

} // verus!
