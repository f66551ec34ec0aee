//! Decimal rendering of integer and hundredths values, used for the
//! human-readable formula traces the calculators emit.

use vstd::prelude::*;
use vstd::string::StringExecFns;

verus! {

/// The decimal digit character for `d` in `0 ..= 9`.
pub open spec fn digit_char(d: int) -> char {
    if d == 0 {
        '0'
    } else if d == 1 {
        '1'
    } else if d == 2 {
        '2'
    } else if d == 3 {
        '3'
    } else if d == 4 {
        '4'
    } else if d == 5 {
        '5'
    } else if d == 6 {
        '6'
    } else if d == 7 {
        '7'
    } else if d == 8 {
        '8'
    } else {
        '9'
    }
}

/// Decimal digits of a non-negative integer, most significant first.
pub open spec fn spec_digits(n: int) -> Seq<char>
    recommends
        n >= 0,
    decreases n,
{
    if n < 10 {
        seq![digit_char(n)]
    } else {
        spec_digits(n / 10).push(digit_char(n % 10))
    }
}

/// Decimal rendering of an integer, with a leading minus sign when
/// negative.
pub open spec fn spec_int_string(v: int) -> Seq<char> {
    if v < 0 {
        seq!['-'] + spec_digits(-v)
    } else {
        spec_digits(v)
    }
}

/// Rendering of a hundredths value with trailing fraction zeros removed:
/// `500` is `5`, `150` is `1.5`, `225` is `2.25`, `-50` is `-0.5`.
pub open spec fn spec_trim2(hundredths: int) -> Seq<char> {
    let a = if hundredths < 0 {
        -hundredths
    } else {
        hundredths
    };
    let sign = if hundredths < 0 {
        seq!['-']
    } else {
        Seq::<char>::empty()
    };
    let f = a % 100;
    let whole = sign + spec_digits(a / 100);
    if f == 0 {
        whole
    } else if f % 10 == 0 {
        whole + seq!['.', digit_char(f / 10)]
    } else {
        whole + seq!['.', digit_char(f / 10), digit_char(f % 10)]
    }
}

/// Rendering of a hundredths value with exactly two fraction digits:
/// `370` is `3.70`, `600` is `6.00`.
pub open spec fn spec_fixed2(hundredths: int) -> Seq<char> {
    let a = if hundredths < 0 {
        -hundredths
    } else {
        hundredths
    };
    let sign = if hundredths < 0 {
        seq!['-']
    } else {
        Seq::<char>::empty()
    };
    let f = a % 100;
    sign + spec_digits(a / 100) + seq!['.', digit_char(f / 10), digit_char(f % 10)]
}

/// The one-character string for a decimal digit.
fn digit_str(d: u64) -> (r: &'static str)
    requires
        d < 10,
    ensures
        r@ == seq![digit_char(d as int)],
{
    proof {
        reveal_strlit("0");
        reveal_strlit("1");
        reveal_strlit("2");
        reveal_strlit("3");
        reveal_strlit("4");
        reveal_strlit("5");
        reveal_strlit("6");
        reveal_strlit("7");
        reveal_strlit("8");
        reveal_strlit("9");
    }
    match d {
        0 => "0",
        1 => "1",
        2 => "2",
        3 => "3",
        4 => "4",
        5 => "5",
        6 => "6",
        7 => "7",
        8 => "8",
        _ => "9",
    }
}

/// Appends the decimal digits of `n` to `out`.
fn push_digits(out: &mut String, n: u64)
    ensures
        final(out)@ == old(out)@ + spec_digits(n as int),
    decreases n,
{
    if n >= 10 {
        push_digits(out, n / 10);
        out.append(digit_str(n % 10));
        assert(final(out)@ =~= old(out)@ + spec_digits(n as int));
    } else {
        out.append(digit_str(n));
    }
}

/// Decimal rendering of an integer.
pub fn int_string(v: i64) -> (r: String)
    requires
        v > i64::MIN,
    ensures
        r@ == spec_int_string(v as int),
{
    let mut out = String::new();
    if v < 0 {
        proof {
            reveal_strlit("-");
        }
        out.append("-");
        assert(out@ =~= seq!['-']);
        push_digits(&mut out, (-v) as u64);
    } else {
        push_digits(&mut out, v as u64);
        assert(out@ =~= Seq::<char>::empty() + spec_digits(v as int));
    }
    out
}

/// Rendering of a hundredths value with trailing fraction zeros removed.
pub fn trim2_string(hundredths: i64) -> (r: String)
    requires
        hundredths > i64::MIN,
    ensures
        r@ == spec_trim2(hundredths as int),
{
    let a: i64 = if hundredths < 0 {
        -hundredths
    } else {
        hundredths
    };
    let mut out = String::new();
    if hundredths < 0 {
        proof {
            reveal_strlit("-");
        }
        out.append("-");
        assert(out@ =~= seq!['-']);
    } else {
        assert(out@ =~= Seq::<char>::empty());
    }
    push_digits(&mut out, (a as u64) / 100);
    let f: u64 = (a as u64) % 100;
    if f == 0 {
        assert(out@ =~= spec_trim2(hundredths as int));
    } else if f % 10 == 0 {
        proof {
            reveal_strlit(".");
        }
        out.append(".");
        out.append(digit_str(f / 10));
        assert(out@ =~= spec_trim2(hundredths as int));
    } else {
        proof {
            reveal_strlit(".");
        }
        out.append(".");
        out.append(digit_str(f / 10));
        out.append(digit_str(f % 10));
        assert(out@ =~= spec_trim2(hundredths as int));
    }
    out
}

/// Rendering of a hundredths value with exactly two fraction digits.
pub fn fixed2_string(hundredths: i64) -> (r: String)
    requires
        hundredths > i64::MIN,
    ensures
        r@ == spec_fixed2(hundredths as int),
{
    let a: i64 = if hundredths < 0 {
        -hundredths
    } else {
        hundredths
    };
    let mut out = String::new();
    if hundredths < 0 {
        proof {
            reveal_strlit("-");
        }
        out.append("-");
        assert(out@ =~= seq!['-']);
    } else {
        assert(out@ =~= Seq::<char>::empty());
    }
    push_digits(&mut out, (a as u64) / 100);
    let f: u64 = (a as u64) % 100;
    proof {
        reveal_strlit(".");
    }
    out.append(".");
    out.append(digit_str(f / 10));
    out.append(digit_str(f % 10));
    assert(out@ =~= spec_fixed2(hundredths as int));
    out
}

} // verus!
