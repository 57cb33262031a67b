//! Verified text helpers: string equality, decimal formatting and decimal
//! parsing over `Seq<char>` views.

use vstd::prelude::*;

verus! {

/// The decimal digit character for `d`, meaningful for `0 <= d < 10`.
pub open spec fn spec_digit_char(d: int) -> char {
    if d == 0 {
        '0'
    } else if d == 1 {
        '1'
    } else if d == 2 {
        '2'
    } else if d == 3 {
        '3'
    } else if d == 4 {
        '4'
    } else if d == 5 {
        '5'
    } else if d == 6 {
        '6'
    } else if d == 7 {
        '7'
    } else if d == 8 {
        '8'
    } else {
        '9'
    }
}

/// The decimal digits of `n`, most significant first, with no sign and no
/// leading zeros (except for `n == 0` itself).
pub open spec fn spec_udigits(n: nat) -> Seq<char>
    decreases n,
{
    if n < 10 {
        seq![spec_digit_char(n as int)]
    } else {
        spec_udigits(n / 10) + seq![spec_digit_char((n % 10) as int)]
    }
}

/// The plain rendering of a signed value: a `-` directly before the digits,
/// as the host's integer formatting writes it.
pub open spec fn spec_int_plain(v: int) -> Seq<char> {
    if v < 0 {
        seq!['-'] + spec_udigits((-v) as nat)
    } else {
        spec_udigits(v as nat)
    }
}

/// The token rendering of a signed value: the negation sign is a token of its
/// own, separated from the digits by one space.
pub open spec fn spec_int_tokens(v: int) -> Seq<char> {
    if v < 0 {
        seq!['-', ' '] + spec_udigits((-v) as nat)
    } else {
        spec_udigits(v as nat)
    }
}

fn digit_str(d: u128) -> (r: &'static str)
    requires
        d < 10,
    ensures
        r@ == seq![spec_digit_char(d as int)],
{
    proof {
        reveal_strlit("0");
        reveal_strlit("1");
        reveal_strlit("2");
        reveal_strlit("3");
        reveal_strlit("4");
        reveal_strlit("5");
        reveal_strlit("6");
        reveal_strlit("7");
        reveal_strlit("8");
        reveal_strlit("9");
    }
    let r = if d == 0 {
        "0"
    } else if d == 1 {
        "1"
    } else if d == 2 {
        "2"
    } else if d == 3 {
        "3"
    } else if d == 4 {
        "4"
    } else if d == 5 {
        "5"
    } else if d == 6 {
        "6"
    } else if d == 7 {
        "7"
    } else if d == 8 {
        "8"
    } else {
        "9"
    };
    proof {
        assert(r@ =~= seq![spec_digit_char(d as int)]);
    }
    r
}

/// Appends the decimal digits of `n` to `out`.
pub fn push_udigits(n: u128, out: &mut String)
    ensures
        final(out)@ == old(out)@ + spec_udigits(n as nat),
    decreases n,
{
    if n < 10 {
        out.append(digit_str(n));
        proof {
            assert(out@ =~= old(out)@ + spec_udigits(n as nat));
        }
    } else {
        push_udigits(n / 10, out);
        out.append(digit_str(n % 10));
        proof {
            assert(out@ =~= old(out)@ + spec_udigits(n as nat));
        }
    }
}

/// Appends the plain decimal rendering of `v` (sign directly before the
/// digits) to `out`.
pub fn push_i128_plain(v: i128, out: &mut String)
    ensures
        final(out)@ == old(out)@ + spec_int_plain(v as int),
{
    proof {
        reveal_strlit("-");
    }
    if v >= 0 {
        push_udigits(v as u128, out);
    } else {
        out.append("-");
        let m: u128 = ((-(v + 1)) as u128) + 1;
        assert(m == -(v as int));
        push_udigits(m, out);
        proof {
            assert(out@ =~= old(out)@ + spec_int_plain(v as int));
        }
    }
}

/// Appends the token rendering of `v` (a lone `-` token, then the digits) to
/// `out`.
pub fn push_i128_tokens(v: i128, out: &mut String)
    ensures
        final(out)@ == old(out)@ + spec_int_tokens(v as int),
{
    proof {
        reveal_strlit("- ");
    }
    if v >= 0 {
        push_udigits(v as u128, out);
    } else {
        out.append("- ");
        let m: u128 = ((-(v + 1)) as u128) + 1;
        assert(m == -(v as int));
        push_udigits(m, out);
        proof {
            assert(out@ =~= old(out)@ + spec_int_tokens(v as int));
        }
    }
}

/// Whether `c` is a decimal digit.
pub open spec fn char_is_digit(c: char) -> bool {
    48 <= c as int && c as int <= 57
}

/// The value of the decimal digit `c`, meaningful when `char_is_digit(c)`.
pub open spec fn spec_digit_val(c: char) -> int {
    c as int - 48
}

/// Whether every character of `s` is a decimal digit.
pub open spec fn all_digits(s: Seq<char>) -> bool {
    forall|i: int| 0 <= i < s.len() ==> char_is_digit(s[i])
}

/// The value of the digit string `s`, read in base 10.
pub open spec fn spec_digits_val(s: Seq<char>) -> int
    decreases s.len(),
{
    if s.len() == 0 {
        0
    } else {
        spec_digits_val(s.drop_last()) * 10 + spec_digit_val(s.last())
    }
}

/// The value named by the digit string `s`: defined exactly when `s` is a
/// non-empty string of decimal digits whose value fits the signed 128-bit
/// range.
pub open spec fn spec_parse_decimal(s: Seq<char>) -> Option<int> {
    if s.len() > 0 && all_digits(s) && spec_digits_val(s) <= i128::MAX {
        Some(spec_digits_val(s))
    } else {
        None
    }
}

pub proof fn lemma_digits_val_nonneg(s: Seq<char>)
    requires
        all_digits(s),
    ensures
        spec_digits_val(s) >= 0,
    decreases s.len(),
{
    if s.len() > 0 {
        assert(all_digits(s.drop_last()));
        lemma_digits_val_nonneg(s.drop_last());
        assert(char_is_digit(s.last()));
    }
}

pub proof fn lemma_digits_val_prefix_le(s: Seq<char>, i: int)
    requires
        all_digits(s),
        0 <= i <= s.len(),
    ensures
        spec_digits_val(s.take(i)) <= spec_digits_val(s),
    decreases s.len() - i,
{
    if i < s.len() {
        assert(s.take(i + 1).drop_last() =~= s.take(i));
        assert(s.take(i + 1).last() == s[i]);
        assert(all_digits(s.take(i)));
        lemma_digits_val_nonneg(s.take(i));
        assert(char_is_digit(s[i]));
        assert(spec_digits_val(s.take(i + 1)) >= spec_digits_val(s.take(i)));
        lemma_digits_val_prefix_le(s, i + 1);
    } else {
        assert(s.take(i) =~= s);
    }
}

/// Reads a non-empty string of decimal digits as a signed 128-bit value.
/// Fails exactly when `s` is empty, holds a non-digit, or names a value above
/// the signed 128-bit maximum.
pub fn parse_decimal_digits(s: &str) -> (r: Option<i128>)
    ensures
        match r {
            Some(v) => spec_parse_decimal(s@) == Some(v as int),
            None => spec_parse_decimal(s@) is None,
        },
{
    let n = s.unicode_len();
    if n == 0 {
        return None;
    }
    let mut acc: i128 = 0;
    let mut i: usize = 0;
    while i < n
        invariant
            0 <= i <= n,
            n == s@.len(),
            all_digits(s@.take(i as int)),
            acc == spec_digits_val(s@.take(i as int)),
            acc >= 0,
        decreases n - i,
    {
        let c = s.get_char(i);
        let cv = c as u32;
        if cv < 48 || cv > 57 {
            proof {
                assert(!char_is_digit(s@[i as int]));
            }
            return None;
        }
        let d: i128 = (cv - 48) as i128;
        proof {
            assert(char_is_digit(s@[i as int]));
            assert(d == spec_digit_val(s@[i as int]));
            assert(s@.take(i as int + 1).drop_last() =~= s@.take(i as int));
            assert(s@.take(i as int + 1).last() == s@[i as int]);
        }
        let q: i128 = i128::MAX / 10;
        let rm: i128 = i128::MAX % 10;
        proof {
            assert(i128::MAX == 10 * (i128::MAX as int / 10) + i128::MAX as int % 10) by (nonlinear_arith);
        }
        if acc > q || (acc == q && d > rm) {
            proof {
                assert(spec_digits_val(s@.take(i as int + 1)) > i128::MAX);
                if all_digits(s@) {
                    lemma_digits_val_prefix_le(s@, i as int + 1);
                    assert(spec_digits_val(s@) > i128::MAX);
                }
            }
            return None;
        }
        acc = acc * 10 + d;
        i += 1;
    }
    proof {
        assert(s@.take(n as int) =~= s@);
    }
    Some(acc)
}

/// Character-wise string equality, stated over the views.
pub fn str_eq(a: &str, b: &str) -> (r: bool)
    ensures
        r == (a@ == b@),
{
    let alen = a.unicode_len();
    let blen = b.unicode_len();
    if alen != blen {
        return false;
    }
    let mut i: usize = 0;
    while i < alen
        invariant
            0 <= i <= alen,
            alen == a@.len(),
            alen == b@.len(),
            forall|j: int| 0 <= j < i ==> a@[j] == b@[j],
        decreases alen - i,
    {
        if a.get_char(i) != b.get_char(i) {
            return false;
        }
        i += 1;
    }
    proof {
        assert(a@ =~= b@);
    }
    true
}

} // verus!
