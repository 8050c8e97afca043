use vstd::prelude::*;
use vstd::string::StringExecFns;

verus! {

/// The character of a decimal digit.
pub open spec fn digit_char(d: nat) -> char {
    if d == 0 {
        '0'
    } else if d == 1 {
        '1'
    } else if d == 2 {
        '2'
    } else if d == 3 {
        '3'
    } else if d == 4 {
        '4'
    } else if d == 5 {
        '5'
    } else if d == 6 {
        '6'
    } else if d == 7 {
        '7'
    } else if d == 8 {
        '8'
    } else {
        '9'
    }
}

/// The decimal rendering of a natural number: most significant digit first,
/// no sign, no leading zeros ("0" for zero).
pub open spec fn decimal(k: nat) -> Seq<char>
    decreases k,
{
    if k < 10 {
        seq![digit_char(k)]
    } else {
        decimal(k / 10).push(digit_char(k % 10))
    }
}

/// The one-character string of a decimal digit.
fn digit_str(d: u32) -> (r: &'static str)
    requires
        d < 10,
    ensures
        r@ == seq![digit_char(d as nat)],
{
    proof {
        reveal_strlit("0");
        reveal_strlit("1");
        reveal_strlit("2");
        reveal_strlit("3");
        reveal_strlit("4");
        reveal_strlit("5");
        reveal_strlit("6");
        reveal_strlit("7");
        reveal_strlit("8");
        reveal_strlit("9");
    }
    match d {
        0 => "0",
        1 => "1",
        2 => "2",
        3 => "3",
        4 => "4",
        5 => "5",
        6 => "6",
        7 => "7",
        8 => "8",
        _ => "9",
    }
}

/// Appends the decimal rendering of `k` to `s`.
pub fn push_decimal(s: &mut String, k: u32)
    ensures
        final(s)@ == old(s)@ + decimal(k as nat),
    decreases k,
{
    if k >= 10 {
        push_decimal(s, k / 10);
    }
    s.append(digit_str(k % 10));
    proof {
        if k >= 10 {
            assert(old(s)@ + decimal(k as nat) =~= old(s)@ + decimal((k / 10) as nat) + seq![
                digit_char((k % 10) as nat),
            ]);
        } else {
            assert(k % 10 == k);
        }
    }
}

} // verus!
