//! Decimal text for integers and for fixed-point values, and the joining of
//! pieces of text.

use vstd::prelude::*;
use vstd::string::*;

verus! {

/// The character of one decimal digit.
pub open spec fn digit_char(d: int) -> char {
    if d == 0 {
        '0'
    } else if d == 1 {
        '1'
    } else if d == 2 {
        '2'
    } else if d == 3 {
        '3'
    } else if d == 4 {
        '4'
    } else if d == 5 {
        '5'
    } else if d == 6 {
        '6'
    } else if d == 7 {
        '7'
    } else if d == 8 {
        '8'
    } else {
        '9'
    }
}

/// The decimal digits of `n`, most significant first, without leading zeros.
pub open spec fn decimal(n: nat) -> Seq<char>
    decreases n,
{
    if n < 10 {
        seq![digit_char(n as int)]
    } else {
        decimal(n / 10).push(digit_char((n % 10) as int))
    }
}

/// The decimal text of an integer, with a minus sign if it is negative.
pub open spec fn signed_decimal(v: int) -> Seq<char> {
    if v < 0 {
        seq!['-'] + decimal((-v) as nat)
    } else {
        decimal(v as nat)
    }
}

/// The hundredths nearest to the magnitude of `v` thousandths; a half rounds
/// away from zero.
pub open spec fn hundredths(v: int) -> nat {
    if v < 0 {
        ((-v + 5) / 10) as nat
    } else {
        ((v + 5) / 10) as nat
    }
}

/// The text of `v` thousandths with two decimal places: a minus sign if `v`
/// is negative, the whole part, a point, and two digits.
pub open spec fn fixed2(v: int) -> Seq<char> {
    let h = hundredths(v);
    let body = decimal(h / 100).push('.').push(digit_char(((h / 10) % 10) as int)).push(
        digit_char((h % 10) as int),
    );
    if v < 0 {
        seq!['-'] + body
    } else {
        body
    }
}

/// The text of `v` thousandths rounded to a whole number; a half rounds away
/// from zero.
pub open spec fn fixed0(v: int) -> Seq<char> {
    if v < 0 {
        seq!['-'] + decimal(((-v + 500) / 1000) as nat)
    } else {
        decimal(((v + 500) / 1000) as nat)
    }
}

fn digit_str(d: u64) -> (s: &'static str)
    requires
        d < 10,
    ensures
        s@ == seq![digit_char(d as int)],
{
    proof {
        reveal_strlit("0");
        reveal_strlit("1");
        reveal_strlit("2");
        reveal_strlit("3");
        reveal_strlit("4");
        reveal_strlit("5");
        reveal_strlit("6");
        reveal_strlit("7");
        reveal_strlit("8");
        reveal_strlit("9");
    }
    let s: &'static str = if d == 0 {
        "0"
    } else if d == 1 {
        "1"
    } else if d == 2 {
        "2"
    } else if d == 3 {
        "3"
    } else if d == 4 {
        "4"
    } else if d == 5 {
        "5"
    } else if d == 6 {
        "6"
    } else if d == 7 {
        "7"
    } else if d == 8 {
        "8"
    } else {
        "9"
    };
    s
}

/// Appends the decimal digits of `n` to `out`.
pub fn append_decimal(out: &mut String, n: u64)
    ensures
        final(out)@ == old(out)@ + decimal(n as nat),
    decreases n,
{
    if n >= 10 {
        append_decimal(out, n / 10);
    }
    out.append(digit_str(n % 10));
}

/// The magnitude of `v`.
pub fn magnitude(v: i64) -> (m: u64)
    ensures
        m as int == if v < 0 {
            -(v as int)
        } else {
            v as int
        },
{
    if v < 0 {
        (-(v + 1)) as u64 + 1
    } else {
        v as u64
    }
}

/// Appends the decimal text of `v` to `out`.
pub fn append_signed(out: &mut String, v: i64)
    ensures
        final(out)@ == old(out)@ + signed_decimal(v as int),
{
    if v < 0 {
        proof {
            reveal_strlit("-");
        }
        out.append("-");
    }
    append_decimal(out, magnitude(v));
}

/// The decimal text of `v`.
pub fn signed_text(v: i64) -> (s: String)
    ensures
        s@ == signed_decimal(v as int),
{
    let mut s = String::new();
    append_signed(&mut s, v);
    s
}

/// Appends `v` thousandths with two decimal places to `out`.
pub fn append_fixed2(out: &mut String, v: i32)
    ensures
        final(out)@ == old(out)@ + fixed2(v as int),
{
    proof {
        reveal_strlit("-");
        reveal_strlit(".");
    }
    let h: u64 = (magnitude(v as i64) + 5) / 10;
    if v < 0 {
        out.append("-");
    }
    append_decimal(out, h / 100);
    out.append(".");
    out.append(digit_str((h / 10) % 10));
    out.append(digit_str(h % 10));
}

/// Appends `v` thousandths, rounded to a whole number, to `out`.
pub fn append_fixed0(out: &mut String, v: i32)
    ensures
        final(out)@ == old(out)@ + fixed0(v as int),
{
    proof {
        reveal_strlit("-");
    }
    let whole: u64 = (magnitude(v as i64) + 500) / 1000;
    if v < 0 {
        out.append("-");
    }
    append_decimal(out, whole);
}

/// `v` thousandths as text with two decimal places.
pub fn fixed2_text(v: i32) -> (s: String)
    ensures
        s@ == fixed2(v as int),
{
    let mut s = String::new();
    append_fixed2(&mut s, v);
    s
}

/// The number of bytes `s` takes in UTF-8.
pub fn byte_len(s: &String) -> (n: usize)
    ensures
        n == vstd::utf8::encode_utf8(s@).len(),
{
    broadcast use vstd::slice::axiom_spec_len;

    s.as_str().as_bytes().len()
}

} // verus!
