//! Decimal rendering of integers, with a full functional specification.
//!
//! The computation result labels itself with the accumulator's calendar
//! year; this module renders that number exactly as its usual base-ten
//! writing, proved character by character.

use vstd::prelude::*;

verus! {

/// The character for one decimal digit value.
pub open spec fn spec_digit_char(d: int) -> char {
    if d == 0 {
        '0'
    } else if d == 1 {
        '1'
    } else if d == 2 {
        '2'
    } else if d == 3 {
        '3'
    } else if d == 4 {
        '4'
    } else if d == 5 {
        '5'
    } else if d == 6 {
        '6'
    } else if d == 7 {
        '7'
    } else if d == 8 {
        '8'
    } else {
        '9'
    }
}

/// The base-ten writing of a non-negative number, most significant digit
/// first, with no leading zeros (a single `'0'` for zero).
pub open spec fn spec_decimal_digits(n: nat) -> Seq<char>
    decreases n,
{
    if n < 10 {
        seq![spec_digit_char(n as int)]
    } else {
        spec_decimal_digits(n / 10) + seq![spec_digit_char((n % 10) as int)]
    }
}

/// The base-ten writing of any integer: a minus sign before the digits of
/// the magnitude when negative.
pub open spec fn spec_decimal_string(v: int) -> Seq<char> {
    if v < 0 {
        seq!['-'] + spec_decimal_digits((-v) as nat)
    } else {
        spec_decimal_digits(v as nat)
    }
}

fn digit_str(d: u8) -> (s: &'static str)
    requires
        d < 10,
    ensures
        s@ == seq![spec_digit_char(d as int)],
{
    proof {
        reveal_strlit("0");
        reveal_strlit("1");
        reveal_strlit("2");
        reveal_strlit("3");
        reveal_strlit("4");
        reveal_strlit("5");
        reveal_strlit("6");
        reveal_strlit("7");
        reveal_strlit("8");
        reveal_strlit("9");
    }
    match d {
        0 => "0",
        1 => "1",
        2 => "2",
        3 => "3",
        4 => "4",
        5 => "5",
        6 => "6",
        7 => "7",
        8 => "8",
        _ => "9",
    }
}

/// Render a non-negative number in base ten.
fn decimal_string_u32(v: u32) -> (s: String)
    ensures
        s@ == spec_decimal_digits(v as nat),
{
    let mut digits: Vec<u8> = Vec::new();
    let mut n: u32 = v;
    while n >= 10
        invariant
            forall|i: int| 0 <= i < digits@.len() ==> digits@[i] < 10,
            spec_decimal_digits(v as nat) == spec_decimal_digits(n as nat) + Seq::new(
                digits@.len(),
                |i: int| spec_digit_char(digits@[digits@.len() - 1 - i] as int),
            ),
        decreases n,
    {
        let ghost pre = digits@;
        digits.push((n % 10) as u8);
        n = n / 10;
        proof {
            let post = digits@;
            assert(Seq::new(
                post.len(),
                |i: int| spec_digit_char(post[post.len() - 1 - i] as int),
            ) =~= seq![spec_digit_char((post[post.len() - 1]) as int)] + Seq::new(
                pre.len(),
                |i: int| spec_digit_char(pre[pre.len() - 1 - i] as int),
            ));
        }
    }
    let ghost pre = digits@;
    digits.push(n as u8);
    proof {
        let post = digits@;
        assert(Seq::new(
            post.len(),
            |i: int| spec_digit_char(post[post.len() - 1 - i] as int),
        ) =~= seq![spec_digit_char((post[post.len() - 1]) as int)] + Seq::new(
            pre.len(),
            |i: int| spec_digit_char(pre[pre.len() - 1 - i] as int),
        ));
        assert(spec_decimal_digits(v as nat) =~= Seq::new(
            post.len(),
            |i: int| spec_digit_char(post[post.len() - 1 - i] as int),
        ));
    }
    let mut s = String::new();
    let len = digits.len();
    let mut j: usize = 0;
    while j < len
        invariant
            len == digits@.len(),
            forall|i: int| 0 <= i < digits@.len() ==> digits@[i] < 10,
            j <= len,
            spec_decimal_digits(v as nat) == Seq::new(
                digits@.len(),
                |i: int| spec_digit_char(digits@[digits@.len() - 1 - i] as int),
            ),
            s@ =~= spec_decimal_digits(v as nat).take(j as int),
        decreases len - j,
    {
        let d = digits[len - 1 - j];
        s.append(digit_str(d));
        j = j + 1;
        proof {
            assert(s@ =~= spec_decimal_digits(v as nat).take(j as int));
        }
    }
    proof {
        assert(s@ =~= spec_decimal_digits(v as nat));
    }
    s
}

/// Render a signed number in base ten, exactly as `spec_decimal_string`
/// writes it.
pub fn decimal_string_i32(v: i32) -> (s: String)
    ensures
        s@ == spec_decimal_string(v as int),
{
    if v >= 0 {
        decimal_string_u32(v as u32)
    } else {
        let magnitude: u32 = (-(v as i64)) as u32;
        let mut s = "-".to_owned();
        proof {
            reveal_strlit("-");
        }
        let rest = decimal_string_u32(magnitude);
        let out = s.concat(rest.as_str());
        proof {
            assert(out@ =~= spec_decimal_string(v as int));
        }
        out
    }
}

} // verus!
