//! Decimal integers: parsing as `str::parse` does and printing as `{}` and
//! `{:0w}` do.

use vstd::prelude::*;
use crate::text::{chars_of, string_from_chars};

verus! {

/// Whether `c` is an ASCII decimal digit.
pub open spec fn is_digit(c: char) -> bool {
    '0' <= c && c <= '9'
}

/// The value of a decimal digit.
pub open spec fn digit_value(c: char) -> int {
    (c as int) - ('0' as int)
}

/// Whether every character of `s` is a decimal digit.
pub open spec fn all_digits(s: Seq<char>) -> bool {
    forall|i: int| 0 <= i < s.len() ==> is_digit(#[trigger] s[i])
}

/// The number written by the digits `s` (most significant first).
pub open spec fn digits_value(s: Seq<char>) -> nat
    decreases s.len(),
{
    if s.len() == 0 {
        0
    } else {
        (10 * digits_value(s.drop_last()) + digit_value(s.last())) as nat
    }
}

/// The integer that `str::parse` reads from `s`: an optional `+` (or `-`
/// when `signed`) followed by at least one decimal digit and nothing else.
/// Range limits of the target type are applied by the callers.
pub open spec fn parse_int_spec(s: Seq<char>, signed: bool) -> Option<int> {
    if s.len() == 0 {
        None
    } else {
        let neg = signed && s[0] == '-';
        let ds = if s[0] == '+' || neg {
            s.drop_first()
        } else {
            s
        };
        if ds.len() == 0 || !all_digits(ds) {
            None
        } else if neg {
            Some(-(digits_value(ds) as int))
        } else {
            Some(digits_value(ds) as int)
        }
    }
}

/// Appending digits never lowers the value.
pub proof fn lemma_digits_value_monotone(s: Seq<char>, i: int)
    requires
        all_digits(s),
        0 <= i <= s.len(),
    ensures
        digits_value(s.take(i)) <= digits_value(s),
    decreases s.len(),
{
    if i < s.len() {
        assert(s.last() == s[s.len() - 1]);
        let t = s.drop_last();
        assert(all_digits(t)) by {
            assert forall|j: int| 0 <= j < t.len() implies is_digit(#[trigger] t[j]) by {
                assert(t[j] == s[j]);
            }
        }
        lemma_digits_value_monotone(t, i);
        assert(t.take(i) =~= s.take(i));
    } else {
        assert(s.take(i) =~= s);
    }
}

/// Reads the sign and the digits of `v[..]`; `Some((negative, magnitude))`
/// when the text is a well-formed decimal whose magnitude fits in 64 bits.
fn parse_magnitude(v: &Vec<char>, signed: bool) -> (r: Option<(bool, u64)>)
    ensures
        match r {
            Some((neg, m)) => parse_int_spec(v@, signed) == Some(if neg {
                -(m as int)
            } else {
                m as int
            }),
            None => parse_int_spec(v@, signed) matches Some(x) ==> (x >= 0x1_0000_0000_0000_0000
                || x <= -0x1_0000_0000_0000_0000),
        },
{
    if v.len() == 0 {
        return None;
    }
    let neg = signed && v[0] == '-';
    let start: usize = if v[0] == '+' || neg {
        1
    } else {
        0
    };
    let ghost ds = v@.skip(start as int);
    proof {
        if start == 1 {
            assert(ds =~= v@.drop_first());
        } else {
            assert(ds =~= v@);
        }
    }
    if start == v.len() {
        assert(ds.len() == 0);
        return None;
    }
    let mut acc: u64 = 0;
    let mut i = start;
    while i < v.len()
        invariant
            v.len() > 0,
            neg == (signed && v@[0] == '-'),
            start == (if v@[0] == '+' || neg {
                1int
            } else {
                0int
            }),
            start < v.len(),
            start <= i <= v.len(),
            ds == v@.skip(start as int),
            ds == (if v@[0] == '+' || neg {
                v@.drop_first()
            } else {
                v@
            }),
            all_digits(ds.take(i - start)),
            acc as int == digits_value(ds.take(i - start)),
        decreases v.len() - i,
    {
        let c = v[i];
        if !('0' <= c && c <= '9') {
            assert(ds[i - start] == c);
            assert(!all_digits(ds));
            return None;
        }
        let d = (c as u32 - '0' as u32) as u64;
        proof {
            let t = ds.take(i + 1 - start);
            assert(t.drop_last() =~= ds.take(i - start));
            assert(t.last() == c);
            assert(all_digits(t)) by {
                assert forall|j: int| 0 <= j < t.len() implies is_digit(#[trigger] t[j]) by {
                    if j < t.len() - 1 {
                        assert(t[j] == ds.take(i - start)[j]);
                    }
                }
            }
        }
        match acc.checked_mul(10) {
            Some(a10) => match a10.checked_add(d) {
                Some(next) => {
                    acc = next;
                },
                None => {
                    proof {
                        let t = ds.take(i + 1 - start);
                        if all_digits(ds) {
                            lemma_digits_value_monotone(ds, i + 1 - start);
                        }
                    }
                    return None;
                },
            },
            None => {
                proof {
                    let t = ds.take(i + 1 - start);
                    if all_digits(ds) {
                        lemma_digits_value_monotone(ds, i + 1 - start);
                    }
                }
                return None;
            },
        }
        i += 1;
    }
    assert(ds.take(i - start) =~= ds);
    Some((neg, acc))
}

/// `str::parse::<i64>`: the value when `s` is a well-formed decimal in the
/// range of `i64`.
pub open spec fn parse_i64_spec(s: Seq<char>) -> Option<i64> {
    match parse_int_spec(s, true) {
        Some(x) => if i64::MIN <= x <= i64::MAX {
            Some(x as i64)
        } else {
            None
        },
        None => None,
    }
}

/// `str::parse::<i32>`.
pub open spec fn parse_i32_spec(s: Seq<char>) -> Option<i32> {
    match parse_int_spec(s, true) {
        Some(x) => if i32::MIN <= x <= i32::MAX {
            Some(x as i32)
        } else {
            None
        },
        None => None,
    }
}

/// `str::parse::<u16>`.
pub open spec fn parse_u16_spec(s: Seq<char>) -> Option<u16> {
    match parse_int_spec(s, false) {
        Some(x) => if 0 <= x <= u16::MAX {
            Some(x as u16)
        } else {
            None
        },
        None => None,
    }
}

/// Parses a decimal `i64` as `str::parse::<i64>` does.
pub fn parse_i64(s: &str) -> (r: Option<i64>)
    ensures
        r == parse_i64_spec(s@),
{
    let v = chars_of(s);
    match parse_magnitude(&v, true) {
        Some((neg, m)) => {
            if neg {
                if m <= 0x8000_0000_0000_0000 {
                    if m == 0x8000_0000_0000_0000 {
                        Some(i64::MIN)
                    } else {
                        Some(-(m as i64))
                    }
                } else {
                    None
                }
            } else if m <= 0x7fff_ffff_ffff_ffff {
                Some(m as i64)
            } else {
                None
            }
        },
        None => None,
    }
}

/// Parses a decimal `i32` as `str::parse::<i32>` does.
pub fn parse_i32(s: &str) -> (r: Option<i32>)
    ensures
        r == parse_i32_spec(s@),
{
    let v = chars_of(s);
    match parse_magnitude(&v, true) {
        Some((neg, m)) => {
            if neg {
                if m <= 0x8000_0000 {
                    Some(-(m as i64) as i32)
                } else {
                    None
                }
            } else if m <= 0x7fff_ffff {
                Some(m as i32)
            } else {
                None
            }
        },
        None => None,
    }
}

/// Parses a decimal `u16` as `str::parse::<u16>` does.
pub fn parse_u16(s: &str) -> (r: Option<u16>)
    ensures
        r == parse_u16_spec(s@),
{
    let v = chars_of(s);
    match parse_magnitude(&v, false) {
        Some((neg, m)) => {
            if m <= 0xffff {
                Some(m as u16)
            } else {
                None
            }
        },
        None => None,
    }
}

// ---------------------------------------------------------------------------
// Printing
// ---------------------------------------------------------------------------

/// The digit character for `d` in `0..10`.
pub open spec fn digit_char(d: int) -> char {
    if d == 0 { '0' } else if d == 1 { '1' } else if d == 2 { '2' } else if d == 3 { '3' } else if d
        == 4 { '4' } else if d == 5 { '5' } else if d == 6 { '6' } else if d == 7 { '7' } else if d
        == 8 { '8' } else { '9' }
}

/// The decimal digits of `n`, without leading zeros (`{}` of an unsigned
/// integer).
pub open spec fn decimal_spec(n: nat) -> Seq<char>
    decreases n,
{
    if n < 10 {
        seq![digit_char(n as int)]
    } else {
        decimal_spec(n / 10) + seq![digit_char((n % 10) as int)]
    }
}

/// `{}` of a signed integer.
pub open spec fn signed_decimal_spec(n: int) -> Seq<char> {
    if n < 0 {
        seq!['-'] + decimal_spec((-n) as nat)
    } else {
        decimal_spec(n as nat)
    }
}

/// `count` zero characters.
pub open spec fn zeros(count: int) -> Seq<char> {
    Seq::new(if count > 0 {
        count as nat
    } else {
        0
    }, |i: int| '0')
}

/// `{:0w}` of a signed integer: the sign first, then zeros up to width `w`
/// in all, then the digits.
pub open spec fn zero_padded_spec(n: int, w: int) -> Seq<char> {
    if n < 0 {
        seq!['-'] + zeros(w - 1 - decimal_spec((-n) as nat).len()) + decimal_spec((-n) as nat)
    } else {
        zeros(w - decimal_spec(n as nat).len()) + decimal_spec(n as nat)
    }
}

/// The digit character for `d`.
fn digit_to_char(d: u64) -> (c: char)
    requires
        d < 10,
    ensures
        c == digit_char(d as int),
{
    if d == 0 { '0' } else if d == 1 { '1' } else if d == 2 { '2' } else if d == 3 { '3' } else if d
        == 4 { '4' } else if d == 5 { '5' } else if d == 6 { '6' } else if d == 7 { '7' } else if d
        == 8 { '8' } else { '9' }
}

/// Appends the decimal digits of `n` to `out`.
pub fn push_decimal(out: &mut Vec<char>, n: u64)
    ensures
        final(out)@ == old(out)@ + decimal_spec(n as nat),
    decreases n,
{
    if n < 10 {
        out.push(digit_to_char(n));
        assert(out@ =~= old(out)@ + decimal_spec(n as nat));
    } else {
        push_decimal(out, n / 10);
        out.push(digit_to_char(n % 10));
        assert(out@ =~= old(out)@ + decimal_spec(n as nat));
    }
}

/// The magnitude of an `i64` as a `u64`.
fn magnitude(n: i64) -> (m: u64)
    ensures
        m as int == if n < 0 {
            -(n as int)
        } else {
            n as int
        },
{
    if n < 0 {
        if n == i64::MIN {
            0x8000_0000_0000_0000
        } else {
            (-n) as u64
        }
    } else {
        n as u64
    }
}

/// Appends `{}` of `n` to `out`.
pub fn push_signed_decimal(out: &mut Vec<char>, n: i64)
    ensures
        final(out)@ == old(out)@ + signed_decimal_spec(n as int),
{
    if n < 0 {
        out.push('-');
    }
    push_decimal(out, magnitude(n));
    assert(out@ =~= old(out)@ + signed_decimal_spec(n as int));
}

/// Appends `{:0w}` of `n` to `out`.
pub fn push_zero_padded(out: &mut Vec<char>, n: i64, w: usize)
    ensures
        final(out)@ == old(out)@ + zero_padded_spec(n as int, w as int),
{
    let mut digits: Vec<char> = Vec::new();
    let m = magnitude(n);
    push_decimal(&mut digits, m);
    assert(digits@ =~= decimal_spec(m as nat));
    let sign_len: usize = if n < 0 {
        out.push('-');
        1
    } else {
        0
    };
    let ghost mid = out@;
    let used = digits.len();
    let need: usize = if used < w && w - used > sign_len {
        w - used - sign_len
    } else {
        0
    };
    let mut k: usize = 0;
    while k < need
        invariant
            k <= need,
            out@ == mid + zeros(k as int),
        decreases need - k,
    {
        out.push('0');
        assert(out@ =~= mid + zeros(k + 1));
        k += 1;
    }
    append_all(out, &digits);
    proof {
        assert(zeros(need as int) =~= zeros(w as int - sign_len - digits@.len()));
        assert(out@ =~= old(out)@ + zero_padded_spec(n as int, w as int));
    }
}

/// Appends all of `src` to `dst`.
fn append_all(dst: &mut Vec<char>, src: &Vec<char>)
    ensures
        final(dst)@ == old(dst)@ + src@,
{
    crate::text::append_chars(dst, src);
}

/// `{}` of an `i64`.
pub fn format_i64(n: i64) -> (s: String)
    ensures
        s@ == signed_decimal_spec(n as int),
{
    let mut v: Vec<char> = Vec::new();
    push_signed_decimal(&mut v, n);
    assert(v@ =~= signed_decimal_spec(n as int));
    string_from_chars(&v)
}

/// The printed digits of `n` are digits and read back as `n`.
pub proof fn lemma_decimal_roundtrip(n: nat)
    ensures
        all_digits(decimal_spec(n)),
        digits_value(decimal_spec(n)) == n,
        decimal_spec(n).len() > 0,
    decreases n,
{
    let s = decimal_spec(n);
    if n < 10 {
        lemma_digit_char(n as int);
        assert(s.drop_last() =~= Seq::<char>::empty());
        assert(digits_value(s.drop_last()) == 0);
        assert(s.last() == digit_char(n as int));
        assert(digits_value(s) == 10 * digits_value(s.drop_last()) + digit_value(s.last()));
    } else {
        lemma_digit_char((n % 10) as int);
        lemma_decimal_roundtrip(n / 10);
        let t = decimal_spec(n / 10);
        assert(s.drop_last() =~= t);
        assert forall|i: int| 0 <= i < s.len() implies is_digit(#[trigger] s[i]) by {
            if i < t.len() {
                assert(s[i] == t[i]);
            }
        }
        assert(s.last() == digit_char((n % 10) as int));
        assert(digits_value(s) == 10 * digits_value(s.drop_last()) + digit_value(s.last()));
        assert(n == 10 * (n / 10) + n % 10);
    }
}

/// A digit character reads back as its digit.
pub proof fn lemma_digit_char(d: int)
    requires
        0 <= d < 10,
    ensures
        is_digit(digit_char(d)),
        digit_value(digit_char(d)) == d,
{
}

/// Printing an integer and parsing it back gives the integer.
pub proof fn law_parse_after_format(n: i64)
    ensures
        parse_i64_spec(signed_decimal_spec(n as int)) == Some(n),
{
    if n < 0 {
        let m = (-(n as int)) as nat;
        lemma_decimal_roundtrip(m);
        let s = signed_decimal_spec(n as int);
        assert(s.drop_first() =~= decimal_spec(m));
        assert(s[0] == '-');
    } else {
        lemma_decimal_roundtrip(n as nat);
        let s = decimal_spec(n as nat);
        assert(is_digit(s[0]));
    }
}

} // verus!
