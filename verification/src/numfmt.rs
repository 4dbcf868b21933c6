//! Decimal rendering of the fixed-point quantities the scene displays.
//!
//! Coordinates and money are carried in hundredths (centi-pixels, cents), and
//! every displayed number is the exact decimal form of such a value: an
//! optional minus sign, the integer part, a dot, and exactly two digits.

use vstd::prelude::*;

verus! {

/// The character for one decimal digit.
pub open spec fn spec_digit(d: int) -> char {
    if d == 0 {
        '0'
    } else if d == 1 {
        '1'
    } else if d == 2 {
        '2'
    } else if d == 3 {
        '3'
    } else if d == 4 {
        '4'
    } else if d == 5 {
        '5'
    } else if d == 6 {
        '6'
    } else if d == 7 {
        '7'
    } else if d == 8 {
        '8'
    } else {
        '9'
    }
}

/// The numeric value of a digit character; other characters map to zero.
pub open spec fn spec_digit_val(c: char) -> int {
    if c == '0' {
        0
    } else if c == '1' {
        1
    } else if c == '2' {
        2
    } else if c == '3' {
        3
    } else if c == '4' {
        4
    } else if c == '5' {
        5
    } else if c == '6' {
        6
    } else if c == '7' {
        7
    } else if c == '8' {
        8
    } else if c == '9' {
        9
    } else {
        0
    }
}

/// The usual decimal numeral of a non-negative integer, most significant
/// digit first, with no leading zeros (a lone zero for 0).
pub open spec fn spec_udec(n: nat) -> Seq<char>
    decreases n,
{
    if n < 10 {
        seq![spec_digit(n as int)]
    } else {
        spec_udec(n / 10).push(spec_digit((n % 10) as int))
    }
}

/// The value of a digit string, read most significant digit first.
pub open spec fn spec_parse_udec(s: Seq<char>) -> int
    decreases s.len(),
{
    if s.len() == 0 {
        0
    } else {
        spec_parse_udec(s.drop_last()) * 10 + spec_digit_val(s.last())
    }
}

/// The decimal form of a non-negative number of hundredths: the whole part,
/// a dot, and exactly two fractional digits.
pub open spec fn spec_fmt_unsigned_hundredths(m: int) -> Seq<char> {
    spec_udec((m / 100) as nat) + seq!['.', spec_digit((m % 100) / 10), spec_digit(m % 10)]
}

/// The decimal form of a signed number of hundredths.
pub open spec fn spec_fmt_hundredths(v: int) -> Seq<char> {
    if v < 0 {
        seq!['-'] + spec_fmt_unsigned_hundredths(-v)
    } else {
        spec_fmt_unsigned_hundredths(v)
    }
}

/// Reads a two-decimal numeral back into hundredths: the digits before the
/// final three characters are the whole part, the last two are the fraction.
pub open spec fn spec_parse_hundredths(s: Seq<char>) -> int {
    if s.len() > 0 && s[0] == '-' {
        -spec_parse_magnitude(s.skip(1))
    } else {
        spec_parse_magnitude(s)
    }
}

/// Reads an unsigned two-decimal numeral back into hundredths.
pub open spec fn spec_parse_magnitude(s: Seq<char>) -> int {
    if s.len() >= 3 {
        spec_parse_udec(s.take(s.len() - 3)) * 100 + spec_digit_val(s[s.len() - 2]) * 10
            + spec_digit_val(s[s.len() - 1])
    } else {
        0
    }
}

/// One digit as a string slice.
fn digit_str(d: u64) -> (r: &'static str)
    requires
        d < 10,
    ensures
        r@ == seq![spec_digit(d as int)],
{
    proof {
        reveal_strlit("0");
        reveal_strlit("1");
        reveal_strlit("2");
        reveal_strlit("3");
        reveal_strlit("4");
        reveal_strlit("5");
        reveal_strlit("6");
        reveal_strlit("7");
        reveal_strlit("8");
        reveal_strlit("9");
    }
    let r = if d == 0 {
        "0"
    } else if d == 1 {
        "1"
    } else if d == 2 {
        "2"
    } else if d == 3 {
        "3"
    } else if d == 4 {
        "4"
    } else if d == 5 {
        "5"
    } else if d == 6 {
        "6"
    } else if d == 7 {
        "7"
    } else if d == 8 {
        "8"
    } else {
        "9"
    };
    proof {
        assert(r@ =~= seq![spec_digit(d as int)]);
    }
    r
}

/// Appends the decimal numeral of `n` to `out`.
pub fn push_u128_dec(out: &mut String, n: u128)
    ensures
        final(out)@ == old(out)@ + spec_udec(n as nat),
    decreases n,
{
    if n >= 10 {
        push_u128_dec(out, n / 10);
        out.append(digit_str((n % 10) as u64));
        proof {
            assert(final(out)@ =~= old(out)@ + spec_udec(n as nat));
        }
    } else {
        out.append(digit_str(n as u64));
        proof {
            assert(final(out)@ =~= old(out)@ + spec_udec(n as nat));
        }
    }
}

/// Appends the two-decimal form of `v` hundredths to `out`.
pub fn push_hundredths(out: &mut String, v: i128)
    requires
        v > i128::MIN,
    ensures
        final(out)@ == old(out)@ + spec_fmt_hundredths(v as int),
{
    proof {
        reveal_strlit("-");
        reveal_strlit(".");
    }
    let m: u128 = if v >= 0 {
        v as u128
    } else {
        out.append("-");
        (-v) as u128
    };
    push_u128_dec(out, m / 100);
    out.append(".");
    out.append(digit_str(((m % 100) / 10) as u64));
    out.append(digit_str((m % 10) as u64));
    proof {
        assert(final(out)@ =~= old(out)@ + spec_fmt_hundredths(v as int));
    }
}

/// The two-decimal form of `v` hundredths as a fresh string.
pub fn fmt_hundredths(v: i128) -> (s: String)
    requires
        v > i128::MIN,
    ensures
        s@ == spec_fmt_hundredths(v as int),
{
    let mut s = String::new();
    push_hundredths(&mut s, v);
    proof {
        assert(s@ =~= spec_fmt_hundredths(v as int));
    }
    s
}

/// The decimal numeral of `n` as a fresh string.
pub fn fmt_u128_dec(n: u128) -> (s: String)
    ensures
        s@ == spec_udec(n as nat),
{
    let mut s = String::new();
    push_u128_dec(&mut s, n);
    proof {
        assert(s@ =~= spec_udec(n as nat));
    }
    s
}

/// Reading back the character of a digit yields that digit.
pub proof fn lemma_digit_round_trip(d: int)
    requires
        0 <= d < 10,
    ensures
        spec_digit_val(spec_digit(d)) == d,
{
    if d == 0 {
        assert(spec_digit_val('0') == 0);
    } else if d == 1 {
        assert(spec_digit_val('1') == 1);
    } else if d == 2 {
        assert(spec_digit_val('2') == 2);
    } else if d == 3 {
        assert(spec_digit_val('3') == 3);
    } else if d == 4 {
        assert(spec_digit_val('4') == 4);
    } else if d == 5 {
        assert(spec_digit_val('5') == 5);
    } else if d == 6 {
        assert(spec_digit_val('6') == 6);
    } else if d == 7 {
        assert(spec_digit_val('7') == 7);
    } else if d == 8 {
        assert(spec_digit_val('8') == 8);
    } else {
        assert(spec_digit_val('9') == 9);
    }
}

/// Every numeral produced by `spec_udec` starts with a digit, so never with
/// a minus sign, and is never empty.
pub proof fn lemma_udec_shape(n: nat)
    ensures
        spec_udec(n).len() >= 1,
        spec_udec(n)[0] != '-',
    decreases n,
{
    if n >= 10 {
        lemma_udec_shape(n / 10);
    }
}

/// Reading a decimal numeral back yields the number it was made from.
pub proof fn lemma_parse_udec_round_trip(n: nat)
    ensures
        spec_parse_udec(spec_udec(n)) == n,
    decreases n,
{
    if n < 10 {
        lemma_digit_round_trip(n as int);
        assert(spec_parse_udec(Seq::<char>::empty()) == 0);
        assert(spec_udec(n).drop_last() =~= Seq::<char>::empty());
        assert(spec_udec(n).last() == spec_digit(n as int));
    } else {
        lemma_parse_udec_round_trip(n / 10);
        lemma_digit_round_trip((n % 10) as int);
        assert(spec_udec(n).drop_last() =~= spec_udec(n / 10));
        assert(spec_udec(n).last() == spec_digit((n % 10) as int));
        assert(n == (n / 10) * 10 + n % 10);
    }
}

/// Reading a two-decimal numeral back yields the hundredths it displays:
/// the displayed string and the rounded value agree exactly.  The third
/// character from the end is always the decimal dot.
pub proof fn lemma_parse_hundredths_round_trip(v: int)
    ensures
        spec_parse_hundredths(spec_fmt_hundredths(v)) == v,
        spec_fmt_hundredths(v).len() >= 4,
        spec_fmt_hundredths(v)[spec_fmt_hundredths(v).len() - 3] == '.',
{
    if v < 0 {
        lemma_parse_magnitude_round_trip(-v);
        assert(spec_fmt_hundredths(v).skip(1) =~= spec_fmt_unsigned_hundredths(-v));
        lemma_udec_shape(((-v) / 100) as nat);
    } else {
        lemma_parse_magnitude_round_trip(v);
        lemma_udec_shape((v / 100) as nat);
        assert(spec_fmt_hundredths(v)[0] == spec_udec((v / 100) as nat)[0]);
    }
}

proof fn lemma_parse_magnitude_round_trip(m: int)
    requires
        m >= 0,
    ensures
        spec_parse_magnitude(spec_fmt_unsigned_hundredths(m)) == m,
        spec_fmt_unsigned_hundredths(m).len() >= 4,
        spec_fmt_unsigned_hundredths(m)[spec_fmt_unsigned_hundredths(m).len() - 3] == '.',
{
    let s = spec_fmt_unsigned_hundredths(m);
    lemma_udec_shape((m / 100) as nat);
    lemma_parse_udec_round_trip((m / 100) as nat);
    assert(s.take(s.len() - 3) =~= spec_udec((m / 100) as nat));
    assert(spec_digit_val(spec_digit((m % 100) / 10)) == (m % 100) / 10);
    assert(spec_digit_val(spec_digit(m % 10)) == m % 10);
    assert(m == (m / 100) * 100 + (m % 100) / 10 * 10 + m % 10) by {
        assert(m % 100 == (m % 100) / 10 * 10 + (m % 100) % 10);
        assert(m % 100 % 10 == m % 10) by (nonlinear_arith);
        assert(m == m / 100 * 100 + m % 100);
    };
}

} // verus!
