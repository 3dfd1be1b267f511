//! Decimal rendering of integers, used for the textual exit-code payload.

use vstd::prelude::*;
use vstd::string::StringExecFns;

verus! {

/// The character for one decimal digit.
pub open spec fn digit_char(d: nat) -> char
    recommends
        d < 10,
{
    if d == 0 {
        '0'
    } else if d == 1 {
        '1'
    } else if d == 2 {
        '2'
    } else if d == 3 {
        '3'
    } else if d == 4 {
        '4'
    } else if d == 5 {
        '5'
    } else if d == 6 {
        '6'
    } else if d == 7 {
        '7'
    } else if d == 8 {
        '8'
    } else {
        '9'
    }
}

/// The decimal digits of a natural number, most significant first,
/// without leading zeros (a lone zero for 0).
pub open spec fn dec_digits(n: nat) -> Seq<char>
    decreases n,
{
    if n < 10 {
        seq![digit_char(n)]
    } else {
        dec_digits(n / 10).push(digit_char(n % 10))
    }
}

/// The decimal rendering of an integer: a minus sign before the digits of
/// the magnitude when it is negative.
pub open spec fn dec_int(n: int) -> Seq<char> {
    if n < 0 {
        seq!['-'] + dec_digits((-n) as nat)
    } else {
        dec_digits(n as nat)
    }
}

/// Unfolds one step of `dec_digits` from its last digit.
proof fn lemma_dec_digits_step(n: nat)
    requires
        n >= 10,
    ensures
        dec_digits(n) == dec_digits(n / 10) + seq![digit_char(n % 10)],
{
    assert(dec_digits(n / 10).push(digit_char(n % 10)) =~= dec_digits(n / 10) + seq![
        digit_char(n % 10),
    ]);
}

/// The one-character string for a decimal digit.
fn digit_str(d: u8) -> (r: &'static str)
    requires
        d < 10,
    ensures
        r@ =~= seq![digit_char(d as nat)],
{
    proof {
        reveal_strlit("0");
        reveal_strlit("1");
        reveal_strlit("2");
        reveal_strlit("3");
        reveal_strlit("4");
        reveal_strlit("5");
        reveal_strlit("6");
        reveal_strlit("7");
        reveal_strlit("8");
        reveal_strlit("9");
    }
    match d {
        0 => "0",
        1 => "1",
        2 => "2",
        3 => "3",
        4 => "4",
        5 => "5",
        6 => "6",
        7 => "7",
        8 => "8",
        _ => "9",
    }
}

/// The digit characters of `digits` read back to front.
spec fn rev_digit_chars(digits: Seq<u8>) -> Seq<char> {
    Seq::new(digits.len(), |i: int| digit_char(digits[digits.len() - 1 - i] as nat))
}

/// Renders a `u32` in decimal, without leading zeros.
pub fn u32_to_dec(n: u32) -> (s: String)
    ensures
        s@ == dec_digits(n as nat),
{
    let mut digits: Vec<u8> = Vec::new();
    let mut m: u32 = n;
    loop
        invariant_except_break
            digits.len() >= 1 ==> m >= 1,
        invariant
            forall|i: int| 0 <= i < digits.len() ==> digits@[i] < 10,
            digits.len() == 0 ==> m == n,
            digits.len() >= 1 ==> dec_digits(n as nat) =~= (if m > 0 {
                dec_digits(m as nat)
            } else {
                Seq::<char>::empty()
            }) + rev_digit_chars(digits@),
        ensures
            digits.len() >= 1,
            forall|i: int| 0 <= i < digits.len() ==> digits@[i] < 10,
            dec_digits(n as nat) =~= rev_digit_chars(digits@),
        decreases m, (if digits.len() == 0 { 1int } else { 0int }),
    {
        let ghost digits0: Seq<u8> = digits@;
        let ghost m0: nat = m as nat;
        digits.push((m % 10) as u8);
        m = m / 10;
        proof {
            assert(digits@ =~= digits0.push((m0 % 10) as u8));
            assert(rev_digit_chars(digits@) =~= seq![digit_char(m0 % 10)] + rev_digit_chars(
                digits0,
            ));
            if m0 >= 10 {
                lemma_dec_digits_step(m0);
            }
            if m0 >= 1 {
                assert(dec_digits(m0) =~= (if m > 0 {
                    dec_digits(m as nat)
                } else {
                    Seq::<char>::empty()
                }) + seq![digit_char(m0 % 10)]);
            }
            assert(dec_digits(n as nat) =~= (if m > 0 {
                dec_digits(m as nat)
            } else {
                Seq::<char>::empty()
            }) + rev_digit_chars(digits@));
        }
        if m == 0 {
            break;
        }
    }
    let mut s = String::new();
    let mut i: usize = digits.len();
    while i > 0
        invariant
            i <= digits.len(),
            forall|k: int| 0 <= k < digits.len() ==> digits@[k] < 10,
            s@ =~= Seq::new(
                (digits.len() - i) as nat,
                |j: int| digit_char(digits@[digits@.len() - 1 - j] as nat),
            ),
        decreases i,
    {
        i = i - 1;
        s.append(digit_str(digits[i]));
        proof {
            assert(s@ =~= Seq::new(
                (digits@.len() - i) as nat,
                |j: int| digit_char(digits@[digits@.len() - 1 - j] as nat),
            ));
        }
    }
    proof {
        assert(s@ =~= rev_digit_chars(digits@));
    }
    s
}

/// Renders an `i32` in decimal, a leading minus sign for negative values.
pub fn i32_to_dec(n: i32) -> (s: String)
    ensures
        s@ == dec_int(n as int),
{
    if n >= 0 {
        u32_to_dec(n as u32)
    } else {
        let mag: u32 = (-(n as i64)) as u32;
        let mut s = String::from_str("-");
        proof {
            reveal_strlit("-");
        }
        let tail = u32_to_dec(mag);
        s.append(tail.as_str());
        proof {
            assert(s@ =~= dec_int(n as int));
        }
        s
    }
}

} // verus!
