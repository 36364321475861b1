//! Verified text helpers: reading decimal numbers out of strings and
//! printing numbers back, with exact character-level specifications.

use vstd::prelude::*;

use crate::items::spec_is_ascii_digit;
use crate::items::spec_is_numeric;

verus! {

/// The numeric value of an ASCII digit character.
pub open spec fn spec_digit_of(c: char) -> int {
    c as int - '0' as int
}

/// The value of a digit string, most significant digit first.
pub open spec fn spec_digits_val(s: Seq<char>) -> int
    decreases s.len(),
{
    if s.len() == 0 {
        0
    } else {
        spec_digits_val(s.drop_last()) * 10 + spec_digit_of(s.last())
    }
}

/// The value of a digit string never shrinks when digits are appended:
/// any prefix has a value at most that of the whole string.
pub proof fn lemma_digits_val_prefix_le(s: Seq<char>, j: int)
    requires
        0 <= j <= s.len(),
        forall|i: int| 0 <= i < s.len() ==> spec_is_ascii_digit(#[trigger] s[i]),
    ensures
        0 <= spec_digits_val(s.take(j)) <= spec_digits_val(s),
    decreases s.len(),
{
    if s.len() == 0 {
    } else {
        assert(spec_is_ascii_digit(s.last()));
        assert(spec_digit_of(s.last()) >= 0);
        if j == s.len() {
            assert(s.take(j) =~= s);
            lemma_digits_val_prefix_le(s.drop_last(), s.len() - 1);
            assert(s.drop_last().take(s.len() - 1) =~= s.drop_last());
        } else {
            assert(s.drop_last().take(j) =~= s.take(j));
            lemma_digits_val_prefix_le(s.drop_last(), j);
        }
    }
}

/// Reads the characters `from .. to` of `s` as a decimal number:
/// `Some` exactly when that range is one or more digits and nothing
/// else and the value fits a `usize`.
pub fn parse_decimal(s: &str, from: usize, to: usize) -> (r: Option<usize>)
    requires
        from <= to <= s@.len(),
    ensures
        r == ({
            let digits = s@.subrange(from as int, to as int);
            if spec_is_numeric(digits) && spec_digits_val(digits) <= usize::MAX {
                Some(spec_digits_val(digits) as usize)
            } else {
                None::<usize>
            }
        }),
{
    let ghost digits = s@.subrange(from as int, to as int);
    if from == to {
        return None;
    }
    let mut acc: usize = 0;
    let mut i: usize = from;
    while i < to
        invariant
            from <= i <= to <= s@.len(),
            digits == s@.subrange(from as int, to as int),
            forall|k: int| 0 <= k < i - from ==> spec_is_ascii_digit(#[trigger] digits[k]),
            acc == spec_digits_val(digits.take(i - from)),
        decreases to - i,
    {
        let c = s.get_char(i);
        if !('0' <= c && c <= '9') {
            proof {
                assert(digits[i - from] == c);
                assert(!spec_is_numeric(digits));
            }
            return None;
        }
        let d: usize = (c as u32 as usize) - ('0' as u32 as usize);
        proof {
            assert(digits[i - from] == c);
            assert(d == spec_digit_of(c));
            assert(digits.take(i - from + 1).drop_last() =~= digits.take(i - from));
            assert(digits.take(i - from + 1).last() == c);
        }
        if acc > (usize::MAX - d) / 10 {
            proof {
                assert(spec_digits_val(digits.take(i - from + 1)) == acc * 10 + d);
                assert(acc * 10 + d > usize::MAX) by (nonlinear_arith)
                    requires
                        acc > (usize::MAX - d) / 10,
                        0 <= d <= 9,
                ;
                if spec_is_numeric(digits) {
                    lemma_digits_val_prefix_le(digits, i - from + 1);
                    assert(spec_digits_val(digits) > usize::MAX);
                }
            }
            return None;
        }
        acc = acc * 10 + d;
        i += 1;
    }
    proof {
        assert(digits.take(to - from) =~= digits);
        assert(spec_is_numeric(digits));
        assert(spec_digits_val(digits) <= usize::MAX);
    }
    Some(acc)
}

/// Reads the characters `from .. to` of `s` as a decimal number into a
/// `u64`: `Some` exactly when that range is one or more digits and
/// nothing else and the value fits.
pub fn parse_decimal_u64(s: &str, from: usize, to: usize) -> (r: Option<u64>)
    requires
        from <= to <= s@.len(),
    ensures
        r == ({
            let digits = s@.subrange(from as int, to as int);
            if spec_is_numeric(digits) && spec_digits_val(digits) <= u64::MAX {
                Some(spec_digits_val(digits) as u64)
            } else {
                None::<u64>
            }
        }),
{
    let ghost digits = s@.subrange(from as int, to as int);
    if from == to {
        return None;
    }
    let mut acc: u64 = 0;
    let mut i: usize = from;
    while i < to
        invariant
            from <= i <= to <= s@.len(),
            digits == s@.subrange(from as int, to as int),
            forall|k: int| 0 <= k < i - from ==> spec_is_ascii_digit(#[trigger] digits[k]),
            acc == spec_digits_val(digits.take(i - from)),
        decreases to - i,
    {
        let c = s.get_char(i);
        if !('0' <= c && c <= '9') {
            proof {
                assert(digits[i - from] == c);
                assert(!spec_is_numeric(digits));
            }
            return None;
        }
        let d: u64 = (c as u32 as u64) - ('0' as u32 as u64);
        proof {
            assert(digits[i - from] == c);
            assert(d == spec_digit_of(c));
            assert(digits.take(i - from + 1).drop_last() =~= digits.take(i - from));
            assert(digits.take(i - from + 1).last() == c);
        }
        if acc > (u64::MAX - d) / 10 {
            proof {
                assert(spec_digits_val(digits.take(i - from + 1)) == acc * 10 + d);
                assert(acc * 10 + d > u64::MAX) by (nonlinear_arith)
                    requires
                        acc > (u64::MAX - d) / 10,
                        0 <= d <= 9,
                ;
                if spec_is_numeric(digits) {
                    lemma_digits_val_prefix_le(digits, i - from + 1);
                    assert(spec_digits_val(digits) > u64::MAX);
                }
            }
            return None;
        }
        acc = acc * 10 + d;
        i += 1;
    }
    proof {
        assert(digits.take(to - from) =~= digits);
        assert(spec_is_numeric(digits));
        assert(spec_digits_val(digits) <= u64::MAX);
    }
    Some(acc)
}

/// Ten to the `e`-th power.
pub open spec fn spec_pow10(e: int) -> int
    decreases e,
{
    if e <= 0 {
        1
    } else {
        10 * spec_pow10(e - 1)
    }
}

/// Computes a small power of ten.
pub fn pow10(e: u64) -> (r: u64)
    requires
        e <= 8,
    ensures
        r == spec_pow10(e as int),
{
    proof {
        reveal_with_fuel(spec_pow10, 10);
    }
    match e {
        0 => 1,
        1 => 10,
        2 => 100,
        3 => 1_000,
        4 => 10_000,
        5 => 100_000,
        6 => 1_000_000,
        7 => 10_000_000,
        _ => 100_000_000,
    }
}

/// Powers of ten are at least one.
pub proof fn lemma_pow10_pos(e: int)
    ensures
        spec_pow10(e) >= 1,
    decreases
            if e > 0 {
                e
            } else {
                0
            },
{
    if e > 0 {
        lemma_pow10_pos(e - 1);
    }
}

/// Powers of ten grow with the exponent.
pub proof fn lemma_pow10_le(a: int, b: int)
    requires
        a <= b,
    ensures
        spec_pow10(a) <= spec_pow10(b),
    decreases
            if b > 0 {
                b
            } else {
                0
            },
{
    lemma_pow10_pos(a);
    if a < b && b > 0 {
        lemma_pow10_le(a, b - 1);
    }
}

/// Multiplies two numbers, telling exactly when the product fits.
pub fn mul_u64_guard(a: u64, b: u64) -> (r: Option<u64>)
    ensures
        r == if a * b <= u64::MAX {
            Some((a * b) as u64)
        } else {
            None::<u64>
        },
{
    if b == 0 {
        return Some(0);
    }
    let q = u64::MAX / b;
    proof {
        vstd::arithmetic::div_mod::lemma_fundamental_div_mod(u64::MAX as int, b as int);
    }
    if a <= q {
        proof {
            vstd::arithmetic::mul::lemma_mul_inequality(a as int, q as int, b as int);
        }
        Some(a * b)
    } else {
        proof {
            vstd::arithmetic::mul::lemma_mul_inequality(q + 1, a as int, b as int);
            assert((q + 1) * (b as int) == q * (b as int) + b) by (nonlinear_arith);
        }
        None
    }
}

/// The digit character for a value below ten.
pub open spec fn spec_digit_char(d: int) -> char {
    if d == 0 {
        '0'
    } else if d == 1 {
        '1'
    } else if d == 2 {
        '2'
    } else if d == 3 {
        '3'
    } else if d == 4 {
        '4'
    } else if d == 5 {
        '5'
    } else if d == 6 {
        '6'
    } else if d == 7 {
        '7'
    } else if d == 8 {
        '8'
    } else {
        '9'
    }
}

/// The decimal print of a number, most significant digit first and
/// without leading zeros (a lone zero prints as "0").
pub open spec fn spec_decimal(n: int) -> Seq<char>
    decreases n,
{
    if n < 10 {
        seq![spec_digit_char(n)]
    } else {
        spec_decimal(n / 10).push(spec_digit_char(n % 10))
    }
}

/// A one-character string for a digit value.
fn digit_str(d: u64) -> (s: &'static str)
    requires
        d < 10,
    ensures
        s@ =~= seq![spec_digit_char(d as int)],
{
    proof {
        reveal_strlit("0");
        reveal_strlit("1");
        reveal_strlit("2");
        reveal_strlit("3");
        reveal_strlit("4");
        reveal_strlit("5");
        reveal_strlit("6");
        reveal_strlit("7");
        reveal_strlit("8");
        reveal_strlit("9");
    }
    match d {
        0 => "0",
        1 => "1",
        2 => "2",
        3 => "3",
        4 => "4",
        5 => "5",
        6 => "6",
        7 => "7",
        8 => "8",
        _ => "9",
    }
}

/// Prints a number in decimal.
pub fn decimal_string(n: u64) -> (s: String)
    ensures
        s@ == spec_decimal(n as int),
    decreases n,
{
    if n < 10 {
        String::from_str(digit_str(n))
    } else {
        let mut s = decimal_string(n / 10);
        s.append(digit_str(n % 10));
        proof {
            assert(s@ =~= spec_decimal(n as int / 10).push(spec_digit_char(n as int % 10)));
        }
        s
    }
}

/// The decimal print of `n`, left-padded with zeros to at least `width`
/// characters.
pub open spec fn spec_zero_padded(n: int, width: int) -> Seq<char>
    decreases width - spec_decimal(n).len(),
{
    if spec_decimal(n).len() >= width {
        spec_decimal(n)
    } else {
        seq!['0'] + spec_zero_padded(n, width - 1)
    }
}

/// Prints a number in decimal, left-padded with zeros to at least
/// `width` characters, as season and episode codes are written.
pub fn zero_padded_string(n: u64, width: usize) -> (s: String)
    ensures
        s@ == spec_zero_padded(n as int, width as int),
{
    let plain = decimal_string(n);
    let mut pad: usize = 0;
    let mut s = String::new();
    let len = plain.as_str().unicode_len();
    proof {
        assert(s@ =~= Seq::<char>::empty());
    }
    while pad < width && width - pad > len
        invariant
            len == spec_decimal(n as int).len(),
            s@.len() == pad,
            spec_zero_padded(n as int, width as int) == s@ + spec_zero_padded(
                n as int,
                width - pad,
            ),
        decreases width - pad,
    {
        let ghost prev = s@;
        s.append("0");
        proof {
            reveal_strlit("0");
            assert(s@ =~= prev + seq!['0']);
            assert(s@ + spec_zero_padded(n as int, width - pad - 1) =~= prev + spec_zero_padded(
                n as int,
                width - pad,
            ));
        }
        pad += 1;
    }
    s.append(plain.as_str());
    proof {
        assert(spec_zero_padded(n as int, width - pad) == spec_decimal(n as int));
        assert(s@ =~= spec_zero_padded(n as int, width as int));
    }
    s
}

/// A string value in quotes, with no escaping inside.
pub open spec fn spec_quoted(s: Seq<char>) -> Seq<char> {
    seq!['"'] + s + seq!['"']
}

/// Wraps a value in quotes.
pub fn quoted(s: &str) -> (r: String)
    ensures
        r@ == spec_quoted(s@),
{
    let mut r = String::from_str("\"");
    r.append(s);
    r.append("\"");
    proof {
        reveal_strlit("\"");
        assert("\""@ =~= seq!['"']);
        assert(r@ =~= spec_quoted(s@));
    }
    r
}

} // verus!
