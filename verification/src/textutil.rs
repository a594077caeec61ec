//! Plain-text rendering of numbers for the screens' status lines.

use vstd::prelude::*;

verus! {

/// The decimal digit for a value below 10.
pub open spec fn dec_digit(n: int) -> char {
    if n == 0 {
        '0'
    } else if n == 1 {
        '1'
    } else if n == 2 {
        '2'
    } else if n == 3 {
        '3'
    } else if n == 4 {
        '4'
    } else if n == 5 {
        '5'
    } else if n == 6 {
        '6'
    } else if n == 7 {
        '7'
    } else if n == 8 {
        '8'
    } else {
        '9'
    }
}

/// The usual decimal spelling of `n`, most significant digit first and
/// without leading zeros (`0` spells itself).
pub open spec fn dec_str_of(n: nat) -> Seq<char>
    decreases n,
{
    if n < 10 {
        seq![dec_digit(n as int)]
    } else {
        dec_str_of(n / 10) + seq![dec_digit((n % 10) as int)]
    }
}

/// One decimal digit as text.
fn dec_digit_str(d: u8) -> (r: &'static str)
    requires
        d < 10,
    ensures
        r@ == seq![dec_digit(d as int)],
{
    match d {
        0 => {
            proof {
                reveal_strlit("0");
                assert("0"@ =~= seq![dec_digit(0)]);
            }
            "0"
        },
        1 => {
            proof {
                reveal_strlit("1");
                assert("1"@ =~= seq![dec_digit(1)]);
            }
            "1"
        },
        2 => {
            proof {
                reveal_strlit("2");
                assert("2"@ =~= seq![dec_digit(2)]);
            }
            "2"
        },
        3 => {
            proof {
                reveal_strlit("3");
                assert("3"@ =~= seq![dec_digit(3)]);
            }
            "3"
        },
        4 => {
            proof {
                reveal_strlit("4");
                assert("4"@ =~= seq![dec_digit(4)]);
            }
            "4"
        },
        5 => {
            proof {
                reveal_strlit("5");
                assert("5"@ =~= seq![dec_digit(5)]);
            }
            "5"
        },
        6 => {
            proof {
                reveal_strlit("6");
                assert("6"@ =~= seq![dec_digit(6)]);
            }
            "6"
        },
        7 => {
            proof {
                reveal_strlit("7");
                assert("7"@ =~= seq![dec_digit(7)]);
            }
            "7"
        },
        8 => {
            proof {
                reveal_strlit("8");
                assert("8"@ =~= seq![dec_digit(8)]);
            }
            "8"
        },
        _ => {
            proof {
                reveal_strlit("9");
                assert("9"@ =~= seq![dec_digit(9)]);
            }
            "9"
        },
    }
}

/// `n` spelled in decimal.
pub fn u64_to_dec(n: u64) -> (s: String)
    ensures
        s@ == dec_str_of(n as nat),
    decreases n,
{
    if n < 10 {
        String::from_str(dec_digit_str(n as u8))
    } else {
        let mut s = u64_to_dec(n / 10);
        s.append(dec_digit_str((n % 10) as u8));
        s
    }
}

} // verus!
