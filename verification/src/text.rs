//! Rendering numbers into text, for the error messages.

use vstd::prelude::*;
use vstd::string::StringExecFns;

verus! {

/// The character of one decimal digit.
pub open spec fn spec_decimal_digit(d: int) -> char {
    if d == 0 {
        '0'
    } else if d == 1 {
        '1'
    } else if d == 2 {
        '2'
    } else if d == 3 {
        '3'
    } else if d == 4 {
        '4'
    } else if d == 5 {
        '5'
    } else if d == 6 {
        '6'
    } else if d == 7 {
        '7'
    } else if d == 8 {
        '8'
    } else {
        '9'
    }
}

/// The decimal form of a non-negative number, most significant digit
/// first, without leading zeroes except for zero itself.
pub open spec fn spec_decimal(n: int) -> Seq<char>
    decreases n,
{
    if n < 10 {
        seq![spec_decimal_digit(n)]
    } else {
        spec_decimal(n / 10) + seq![spec_decimal_digit(n % 10)]
    }
}

/// The one-character string of a decimal digit.
fn digit_str(d: u64) -> (r: &'static str)
    requires
        d < 10,
    ensures
        r@ == seq![spec_decimal_digit(d as int)],
{
    let r: &'static str = match d {
        0 => "0",
        1 => "1",
        2 => "2",
        3 => "3",
        4 => "4",
        5 => "5",
        6 => "6",
        7 => "7",
        8 => "8",
        _ => "9",
    };
    proof {
        reveal_strlit("0");
        reveal_strlit("1");
        reveal_strlit("2");
        reveal_strlit("3");
        reveal_strlit("4");
        reveal_strlit("5");
        reveal_strlit("6");
        reveal_strlit("7");
        reveal_strlit("8");
        reveal_strlit("9");
    }
    r
}

/// Appends the decimal form of `n`.
pub fn append_decimal(s: &mut String, n: u64)
    ensures
        final(s)@ == old(s)@ + spec_decimal(n as int),
{
    let mut digits: Vec<u64> = Vec::new();
    let mut m: u64 = n;
    while m >= 10
        invariant
            spec_decimal(n as int) == spec_decimal(m as int) + spec_digit_chars(digits@),
            forall|i: int| 0 <= i < digits@.len() ==> #[trigger] digits@[i] < 10,
        decreases m,
    {
        let d = m % 10;
        let ghost prev = digits@;
        digits.push(d);
        proof {
            assert(digits@.drop_last() =~= prev);
            assert(spec_digit_chars(digits@) == seq![spec_decimal_digit(d as int)]
                + spec_digit_chars(prev));
            assert(spec_decimal(m as int) == spec_decimal(m as int / 10) + seq![
                spec_decimal_digit(m as int % 10),
            ]);
            assert(spec_decimal(m as int / 10) + (seq![spec_decimal_digit(m as int % 10)]
                + spec_digit_chars(prev)) =~= (spec_decimal(m as int / 10) + seq![
                spec_decimal_digit(m as int % 10),
            ]) + spec_digit_chars(prev));
        }
        m = m / 10;
    }
    s.append(digit_str(m));
    proof {
        let dec = spec_decimal(n as int);
        assert(spec_decimal(m as int) == seq![spec_decimal_digit(m as int)]);
        assert(s@.skip(old(s)@.len() as int) =~= seq![spec_decimal_digit(m as int)]);
        assert(digits@.take(digits@.len() as int) =~= digits@);
        assert(dec =~= s@.skip(old(s)@.len() as int) + spec_digit_chars(digits@));
        assert(dec.take(dec.len() - spec_digit_chars(digits@).len()) =~= s@.skip(
            old(s)@.len() as int,
        ));
        assert(s@ =~= old(s)@ + dec.take(dec.len() - spec_digit_chars(digits@).len()));
    }
    let mut i: usize = digits.len();
    loop
        invariant
            i <= digits@.len(),
            forall|j: int| 0 <= j < digits@.len() ==> #[trigger] digits@[j] < 10,
            s@ == old(s)@ + spec_decimal(n as int).take(
                spec_decimal(n as int).len() - spec_digit_chars(digits@.take(i as int)).len(),
            ),
            spec_decimal(n as int) =~= (s@.skip(old(s)@.len() as int)) + spec_digit_chars(
                digits@.take(i as int),
            ),
        decreases i,
    {
        if i == 0 {
            proof {
                assert(digits@.take(0) =~= Seq::<u64>::empty());
                assert(spec_digit_chars(Seq::<u64>::empty()) =~= Seq::<char>::empty());
                assert(s@.skip(old(s)@.len() as int) + Seq::<char>::empty() =~= s@.skip(
                    old(s)@.len() as int,
                ));
                assert(s@ =~= old(s)@ + s@.skip(old(s)@.len() as int));
            }
            return ;
        }
        i = i - 1;
        let ghost before = s@;
        s.append(digit_str(digits[i]));
        proof {
            assert(spec_digit_chars(digits@.take(i as int + 1)) =~= seq![
                spec_decimal_digit(digits@[i as int] as int),
            ] + spec_digit_chars(digits@.take(i as int))) by {
                assert(digits@.take(i as int + 1).drop_last() =~= digits@.take(i as int));
                assert(digits@.take(i as int + 1).last() == digits@[i as int]);
            }
            assert(before + seq![spec_decimal_digit(digits@[i as int] as int)] == s@);
            assert(spec_decimal(n as int) =~= s@.skip(old(s)@.len() as int) + spec_digit_chars(
                digits@.take(i as int),
            ));
            assert(s@ =~= old(s)@ + spec_decimal(n as int).take(
                spec_decimal(n as int).len() - spec_digit_chars(digits@.take(i as int)).len(),
            ));
        }
    }
}

/// The characters of collected digits, least significant first in the
/// input, rendered most significant first.
pub open spec fn spec_digit_chars(digits: Seq<u64>) -> Seq<char>
    decreases digits.len(),
{
    if digits.len() == 0 {
        Seq::<char>::empty()
    } else {
        seq![spec_decimal_digit(digits.last() as int)] + spec_digit_chars(digits.drop_last())
    }
}

/// The decimal form of a `u64`, as a fresh string.
pub fn decimal_string(n: u64) -> (r: String)
    ensures
        r@ == spec_decimal(n as int),
{
    let mut s = String::new();
    append_decimal(&mut s, n);
    proof {
        assert(Seq::<char>::empty() + spec_decimal(n as int) =~= spec_decimal(n as int));
    }
    s
}

} // verus!
