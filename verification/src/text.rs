//! Decimal rendering of the small numbers that appear in file names, in the
//! settings file and in the countdown overlay.

use vstd::prelude::*;

verus! {

/// The character for one decimal digit.
pub open spec fn digit_char(d: nat) -> char {
    if d == 0 {
        '0'
    } else if d == 1 {
        '1'
    } else if d == 2 {
        '2'
    } else if d == 3 {
        '3'
    } else if d == 4 {
        '4'
    } else if d == 5 {
        '5'
    } else if d == 6 {
        '6'
    } else if d == 7 {
        '7'
    } else if d == 8 {
        '8'
    } else {
        '9'
    }
}

/// Two zero-padded decimal digits, for numbers up to 99.
pub open spec fn two_digits_seq(n: nat) -> Seq<char> {
    seq![digit_char(n / 10), digit_char(n % 10)]
}

/// Four zero-padded decimal digits, for numbers up to 9999.
pub open spec fn four_digits_seq(n: nat) -> Seq<char> {
    seq![
        digit_char(n / 1000),
        digit_char((n / 100) % 10),
        digit_char((n / 10) % 10),
        digit_char(n % 10),
    ]
}

/// An unpadded decimal numeral, for numbers up to 99.
pub open spec fn decimal_seq(n: nat) -> Seq<char> {
    if n < 10 {
        seq![digit_char(n)]
    } else {
        two_digits_seq(n)
    }
}

/// The string holding one decimal digit.
pub fn digit_str(d: u32) -> (r: &'static str)
    requires
        d <= 9,
    ensures
        r@ =~= seq![digit_char(d as nat)],
{
    proof {
        reveal_strlit("0");
        reveal_strlit("1");
        reveal_strlit("2");
        reveal_strlit("3");
        reveal_strlit("4");
        reveal_strlit("5");
        reveal_strlit("6");
        reveal_strlit("7");
        reveal_strlit("8");
        reveal_strlit("9");
    }
    if d == 0 {
        "0"
    } else if d == 1 {
        "1"
    } else if d == 2 {
        "2"
    } else if d == 3 {
        "3"
    } else if d == 4 {
        "4"
    } else if d == 5 {
        "5"
    } else if d == 6 {
        "6"
    } else if d == 7 {
        "7"
    } else if d == 8 {
        "8"
    } else {
        "9"
    }
}

/// Appends the two zero-padded digits of `n` to `out`.
pub fn push_two_digits(out: &mut String, n: u32)
    requires
        n <= 99,
    ensures
        final(out)@ == old(out)@ + two_digits_seq(n as nat),
{
    out.append(digit_str(n / 10));
    out.append(digit_str(n % 10));
    proof {
        assert(old(out)@ + seq![digit_char((n / 10) as nat)] + seq![digit_char((n % 10) as nat)]
            =~= old(out)@ + two_digits_seq(n as nat));
    }
}

/// Appends the four zero-padded digits of `n` to `out`.
pub fn push_four_digits(out: &mut String, n: u32)
    requires
        n <= 9999,
    ensures
        final(out)@ == old(out)@ + four_digits_seq(n as nat),
{
    out.append(digit_str(n / 1000));
    out.append(digit_str((n / 100) % 10));
    out.append(digit_str((n / 10) % 10));
    out.append(digit_str(n % 10));
    proof {
        assert(old(out)@ + seq![digit_char((n / 1000) as nat)] + seq![
            digit_char(((n / 100) % 10) as nat),
        ] + seq![digit_char(((n / 10) % 10) as nat)] + seq![digit_char((n % 10) as nat)] =~= old(
            out,
        )@ + four_digits_seq(n as nat));
    }
}

/// The unpadded decimal numeral of `n`, shown in the countdown overlay.
pub fn decimal_string(n: u32) -> (r: String)
    requires
        n <= 99,
    ensures
        r@ == decimal_seq(n as nat),
{
    if n < 10 {
        let r = String::from_str(digit_str(n));
        proof {
            assert(r@ =~= decimal_seq(n as nat));
        }
        r
    } else {
        let mut r = String::new();
        push_two_digits(&mut r, n);
        proof {
            assert(r@ =~= decimal_seq(n as nat));
        }
        r
    }
}

} // verus!
