//! Decimal text of fixed-point values kept in tenths of a unit.

use vstd::prelude::*;

verus! {

/// The character of the decimal digit `d` (taken modulo ten).
pub open spec fn digit_char(d: nat) -> char {
    let d = d % 10;
    if d == 0 {
        '0'
    } else if d == 1 {
        '1'
    } else if d == 2 {
        '2'
    } else if d == 3 {
        '3'
    } else if d == 4 {
        '4'
    } else if d == 5 {
        '5'
    } else if d == 6 {
        '6'
    } else if d == 7 {
        '7'
    } else if d == 8 {
        '8'
    } else {
        '9'
    }
}

/// The decimal digits of `n`, most significant first, with no leading zero.
pub open spec fn digits_of(n: nat) -> Seq<char>
    decreases n,
{
    if n < 10 {
        seq![digit_char(n)]
    } else {
        digits_of(n / 10).push(digit_char(n % 10))
    }
}

/// The shortest decimal text of the value `tenths / 10`: a minus sign when it
/// is negative, the whole part, then a point and the tenths digit unless that
/// digit is zero (`231` gives "23.1", `230` gives "23", `-5` gives "-0.5").
pub open spec fn tenths_text(tenths: int) -> Seq<char> {
    let magnitude = (if tenths < 0 { -tenths } else { tenths }) as nat;
    let sign = if tenths < 0 { seq!['-'] } else { Seq::<char>::empty() };
    let whole = sign + digits_of(magnitude / 10);
    if magnitude % 10 == 0 {
        whole
    } else {
        whole + seq!['.', digit_char(magnitude % 10)]
    }
}

/// The one-character text of the digit `d % 10`.
fn digit_str(d: u32) -> (r: &'static str)
    ensures
        r@ == seq![digit_char(d as nat)],
{
    let d = d % 10;
    proof {
        reveal_strlit("0");
        reveal_strlit("1");
        reveal_strlit("2");
        reveal_strlit("3");
        reveal_strlit("4");
        reveal_strlit("5");
        reveal_strlit("6");
        reveal_strlit("7");
        reveal_strlit("8");
        reveal_strlit("9");
    }
    if d == 0 {
        "0"
    } else if d == 1 {
        "1"
    } else if d == 2 {
        "2"
    } else if d == 3 {
        "3"
    } else if d == 4 {
        "4"
    } else if d == 5 {
        "5"
    } else if d == 6 {
        "6"
    } else if d == 7 {
        "7"
    } else if d == 8 {
        "8"
    } else {
        "9"
    }
}

/// Appends the decimal digits of `n` to `out`.
fn append_digits(out: &mut String, n: u32)
    ensures
        final(out)@ == old(out)@ + digits_of(n as nat),
    decreases n,
{
    if n >= 10 {
        append_digits(out, n / 10);
    }
    let ghost mid = out@;
    out.append(digit_str(n % 10));
    proof {
        if n >= 10 {
            assert(digits_of(n as nat) == digits_of((n / 10) as nat).push(digit_char((n % 10) as nat)));
            assert(out@ =~= old(out)@ + digits_of(n as nat));
        } else {
            assert(digit_char((n % 10) as nat) == digit_char(n as nat));
            assert(out@ =~= old(out)@ + digits_of(n as nat));
        }
    }
}

/// Appends the decimal text of `tenths / 10` to `out`.
pub fn append_tenths(out: &mut String, tenths: i32)
    ensures
        final(out)@ == old(out)@ + tenths_text(tenths as int),
{
    let magnitude: u32 = if tenths < 0 {
        (0i64 - tenths as i64) as u32
    } else {
        tenths as u32
    };
    let ghost start = out@;
    if tenths < 0 {
        proof {
            reveal_strlit("-");
        }
        out.append("-");
    }
    let ghost signed = out@;
    append_digits(out, magnitude / 10);
    let ghost whole = out@;
    if magnitude % 10 != 0 {
        proof {
            reveal_strlit(".");
        }
        out.append(".");
        out.append(digit_str(magnitude % 10));
    }
    proof {
        let sign = if tenths < 0 { seq!['-'] } else { Seq::<char>::empty() };
        assert(signed =~= start + sign);
        assert(whole =~= start + (sign + digits_of((magnitude / 10) as nat)));
        assert(out@ =~= old(out)@ + tenths_text(tenths as int));
    }
}

/// The decimal text of `tenths / 10`.
pub fn tenths_to_string(tenths: i32) -> (r: String)
    ensures
        r@ == tenths_text(tenths as int),
{
    let mut out = String::new();
    append_tenths(&mut out, tenths);
    proof {
        assert(out@ =~= tenths_text(tenths as int));
    }
    out
}

} // verus!
