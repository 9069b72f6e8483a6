//! Decimal rendering of unsigned integers, as used in response attributes.
use vstd::prelude::*;

verus! {

/// The character of a decimal digit.
pub open spec fn digit_char(d: nat) -> char {
    if d == 0 { '0' }
    else if d == 1 { '1' }
    else if d == 2 { '2' }
    else if d == 3 { '3' }
    else if d == 4 { '4' }
    else if d == 5 { '5' }
    else if d == 6 { '6' }
    else if d == 7 { '7' }
    else if d == 8 { '8' }
    else { '9' }
}

/// The decimal representation of `n`, most significant digit first, with no
/// leading zeros ("0" for zero).
pub open spec fn decimal(n: nat) -> Seq<char>
    decreases n,
{
    if n < 10 {
        seq![digit_char(n)]
    } else {
        decimal(n / 10).push(digit_char(n % 10))
    }
}

fn digit_str(d: u8) -> (s: &'static str)
    requires
        d < 10,
    ensures
        s@ == seq![digit_char(d as nat)],
{
    proof {
        reveal_strlit("0");
        reveal_strlit("1");
        reveal_strlit("2");
        reveal_strlit("3");
        reveal_strlit("4");
        reveal_strlit("5");
        reveal_strlit("6");
        reveal_strlit("7");
        reveal_strlit("8");
        reveal_strlit("9");
    }
    if d == 0 { "0" }
    else if d == 1 { "1" }
    else if d == 2 { "2" }
    else if d == 3 { "3" }
    else if d == 4 { "4" }
    else if d == 5 { "5" }
    else if d == 6 { "6" }
    else if d == 7 { "7" }
    else if d == 8 { "8" }
    else { "9" }
}

/// Renders `n` in decimal, as `n.to_string()` does.
pub fn u128_to_decimal(n: u128) -> (s: String)
    ensures
        s@ == decimal(n as nat),
{
    // digits, least significant first
    let mut digits: Vec<u8> = Vec::new();
    let mut m: u128 = n;
    let ghost mut rest: Seq<char> = Seq::empty();
    loop
        invariant_except_break
            decimal(n as nat) == decimal(m as nat) + rest,
        invariant
            digits@.len() == rest.len(),
            forall|i: int| 0 <= i < digits@.len() ==> #[trigger] digits@[i] < 10 && rest[rest.len() - 1 - i] == digit_char(digits@[i] as nat),
        ensures
            decimal(n as nat) == rest,
        decreases m,
    {
        let d: u8 = (m % 10) as u8;
        if m < 10 {
            digits.push(d);
            proof {
                assert(decimal(m as nat) == seq![digit_char(m as nat)]);
                rest = seq![digit_char(m as nat)] + rest;
                assert(decimal(n as nat) == rest);
            }
            break;
        }
        proof {
            assert(decimal(m as nat) == decimal((m / 10) as nat).push(digit_char((m % 10) as nat)));
            assert(decimal(m as nat) + rest == decimal((m / 10) as nat) + (seq![digit_char((m % 10) as nat)] + rest));
            rest = seq![digit_char((m % 10) as nat)] + rest;
        }
        digits.push(d);
        m = m / 10;
    }
    let mut s = String::new();
    let mut k: usize = digits.len();
    while k > 0
        invariant
            k <= digits@.len(),
            digits@.len() == rest.len(),
            decimal(n as nat) == rest,
            forall|i: int| 0 <= i < digits@.len() ==> #[trigger] digits@[i] < 10 && rest[rest.len() - 1 - i] == digit_char(digits@[i] as nat),
            s@ == rest.subrange(0, (digits@.len() - k) as int),
        decreases k,
    {
        k = k - 1;
        let piece = digit_str(digits[k]);
        s.append(piece);
        proof {
            assert(rest[rest.len() - 1 - k] == digit_char(digits@[k as int] as nat));
            assert(rest.subrange(0, (digits@.len() - k) as int) =~= rest.subrange(0, (digits@.len() - k - 1) as int).push(rest[rest.len() - 1 - k]));
        }
    }
    assert(rest.subrange(0, rest.len() as int) =~= rest);
    s
}

} // verus!
