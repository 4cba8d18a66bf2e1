//! The unhandled-fault path: any processor exception without a specific
//! handler gets one best-effort diagnostic line and the system then halts
//! for good. This module builds that line — `we hit an exception <N>`,
//! with `<N>` the exception number in decimal — as verified text; the
//! surrounding binary only forwards it to the debug channel.

use vstd::prelude::*;
use vstd::string::StringExecFns;

verus! {

/// The character for decimal digit `d`.
pub open spec fn digit_char(d: int) -> char {
    if d == 0 {
        '0'
    } else if d == 1 {
        '1'
    } else if d == 2 {
        '2'
    } else if d == 3 {
        '3'
    } else if d == 4 {
        '4'
    } else if d == 5 {
        '5'
    } else if d == 6 {
        '6'
    } else if d == 7 {
        '7'
    } else if d == 8 {
        '8'
    } else {
        '9'
    }
}

/// The decimal digits of `n`, most significant first, no sign and no
/// leading zeros (a lone `0` for zero).
pub open spec fn dec_rep(n: nat) -> Seq<char>
    decreases n,
{
    if n < 10 {
        seq![digit_char(n as int)]
    } else {
        dec_rep(n / 10).push(digit_char((n % 10) as int))
    }
}

/// The decimal rendering of `k`, a `-` sign ahead of the digits when `k`
/// is negative.
pub open spec fn signed_dec_rep(k: int) -> Seq<char> {
    if k < 0 {
        seq!['-'] + dec_rep((-k) as nat)
    } else {
        dec_rep(k as nat)
    }
}

/// The full diagnostic line for exception number `k`.
pub open spec fn fault_message_spec(k: int) -> Seq<char> {
    "we hit an exception "@ + signed_dec_rep(k)
}

/// The one-character string for decimal digit `d`.
fn digit_str(d: u8) -> (s: &'static str)
    requires
        d < 10,
    ensures
        s@ == seq![digit_char(d as int)],
{
    proof {
        reveal_strlit("0");
        reveal_strlit("1");
        reveal_strlit("2");
        reveal_strlit("3");
        reveal_strlit("4");
        reveal_strlit("5");
        reveal_strlit("6");
        reveal_strlit("7");
        reveal_strlit("8");
        reveal_strlit("9");
        assert("0"@ =~= seq!['0']);
        assert("1"@ =~= seq!['1']);
        assert("2"@ =~= seq!['2']);
        assert("3"@ =~= seq!['3']);
        assert("4"@ =~= seq!['4']);
        assert("5"@ =~= seq!['5']);
        assert("6"@ =~= seq!['6']);
        assert("7"@ =~= seq!['7']);
        assert("8"@ =~= seq!['8']);
        assert("9"@ =~= seq!['9']);
    }
    match d {
        0 => "0",
        1 => "1",
        2 => "2",
        3 => "3",
        4 => "4",
        5 => "5",
        6 => "6",
        7 => "7",
        8 => "8",
        _ => "9",
    }
}

/// The decimal digits of `n` as a string.
fn dec_digits(n: u16) -> (s: String)
    ensures
        s@ == dec_rep(n as nat),
    decreases n,
{
    if n < 10 {
        String::from_str(digit_str(n as u8))
    } else {
        let mut s = dec_digits(n / 10);
        s.append(digit_str((n % 10) as u8));
        proof {
            assert(dec_rep(n as nat) =~= dec_rep((n / 10) as nat).push(
                digit_char((n % 10) as int),
            ));
            assert(dec_rep((n / 10) as nat) + seq![digit_char((n % 10) as int)] =~= dec_rep(
                (n / 10) as nat,
            ).push(digit_char((n % 10) as int)));
        }
        s
    }
}

/// Build the diagnostic line for exception number `irqn`.
pub fn fault_message(irqn: i16) -> (s: String)
    ensures
        s@ == fault_message_spec(irqn as int),
{
    let mut s = String::from_str("we hit an exception ");
    if irqn < 0 {
        s.append("-");
        let wide: i32 = irqn as i32;
        let magnitude: u16 = (-wide) as u16;
        let digits = dec_digits(magnitude);
        s.append(digits.as_str());
        proof {
            reveal_strlit("-");
            assert("-"@ =~= seq!['-']);
            assert(magnitude as nat == (-(irqn as int)) as nat);
            assert(s@ =~= fault_message_spec(irqn as int));
        }
    } else {
        let digits = dec_digits(irqn as u16);
        s.append(digits.as_str());
        proof {
            assert(s@ =~= fault_message_spec(irqn as int));
        }
    }
    s
}

} // verus!
