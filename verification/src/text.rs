//! Small text helpers shared by the metrics encoder and the settings parser:
//! string equality over characters, decimal rendering of integers, and
//! millisecond rendering of microsecond durations.

use vstd::prelude::*;
use vstd::string::StrSliceExecFns;
use vstd::string::StringExecFns;

verus! {

/// The character for a single decimal digit.
pub open spec fn digit_char(d: nat) -> char {
    if d == 0 {
        '0'
    } else if d == 1 {
        '1'
    } else if d == 2 {
        '2'
    } else if d == 3 {
        '3'
    } else if d == 4 {
        '4'
    } else if d == 5 {
        '5'
    } else if d == 6 {
        '6'
    } else if d == 7 {
        '7'
    } else if d == 8 {
        '8'
    } else {
        '9'
    }
}

/// Decimal digits of `n`, most significant first, no leading zeros
/// (a single `'0'` for zero).
pub open spec fn dec_str(n: nat) -> Seq<char>
    decreases n,
{
    if n < 10 {
        seq![digit_char(n)]
    } else {
        dec_str(n / 10).push(digit_char(n % 10))
    }
}

/// One decimal digit as a string slice.
fn digit_str(d: u64) -> (r: &'static str)
    requires
        d < 10,
    ensures
        r@ == seq![digit_char(d as nat)],
{
    match d {
        0 => {
            proof {
                reveal_strlit("0");
                assert("0"@ =~= seq!['0']);
            }
            "0"
        },
        1 => {
            proof {
                reveal_strlit("1");
                assert("1"@ =~= seq!['1']);
            }
            "1"
        },
        2 => {
            proof {
                reveal_strlit("2");
                assert("2"@ =~= seq!['2']);
            }
            "2"
        },
        3 => {
            proof {
                reveal_strlit("3");
                assert("3"@ =~= seq!['3']);
            }
            "3"
        },
        4 => {
            proof {
                reveal_strlit("4");
                assert("4"@ =~= seq!['4']);
            }
            "4"
        },
        5 => {
            proof {
                reveal_strlit("5");
                assert("5"@ =~= seq!['5']);
            }
            "5"
        },
        6 => {
            proof {
                reveal_strlit("6");
                assert("6"@ =~= seq!['6']);
            }
            "6"
        },
        7 => {
            proof {
                reveal_strlit("7");
                assert("7"@ =~= seq!['7']);
            }
            "7"
        },
        8 => {
            proof {
                reveal_strlit("8");
                assert("8"@ =~= seq!['8']);
            }
            "8"
        },
        _ => {
            proof {
                reveal_strlit("9");
                assert("9"@ =~= seq!['9']);
            }
            "9"
        },
    }
}

/// Renders `n` in decimal.
pub fn u64_string(n: u64) -> (s: String)
    ensures
        s@ == dec_str(n as nat),
    decreases n,
{
    if n < 10 {
        digit_str(n).to_owned()
    } else {
        let mut s = u64_string(n / 10);
        s.append(digit_str(n % 10));
        proof {
            assert(s@ =~= dec_str(n as nat));
        }
        s
    }
}

/// The fractional digits of a count of thousandths, most significant first,
/// with trailing zeros dropped. Meaningful for `r` between 1 and 999.
pub open spec fn frac_str(r: nat) -> Seq<char> {
    let d1 = r / 100;
    let d2 = (r / 10) % 10;
    let d3 = r % 10;
    if d3 == 0 {
        if d2 == 0 {
            seq![digit_char(d1)]
        } else {
            seq![digit_char(d1), digit_char(d2)]
        }
    } else {
        seq![digit_char(d1), digit_char(d2), digit_char(d3)]
    }
}

/// A count of microseconds rendered as milliseconds: the whole part in
/// decimal, then, if the duration is no whole number of milliseconds, a
/// point and the fraction with trailing zeros dropped.
pub open spec fn ms_str(us: u64) -> Seq<char> {
    if us % 1000 == 0 {
        dec_str((us / 1000) as nat)
    } else {
        dec_str((us / 1000) as nat) + "."@ + frac_str((us % 1000) as nat)
    }
}

/// Renders a count of microseconds as milliseconds.
pub fn ms_string(us: u64) -> (s: String)
    ensures
        s@ == ms_str(us),
{
    let whole = us / 1000;
    let rem = us % 1000;
    let mut s = u64_string(whole);
    if rem != 0 {
        s.append(".");
        let d1 = rem / 100;
        let d2 = (rem / 10) % 10;
        let d3 = rem % 10;
        if d3 == 0 {
            if d2 == 0 {
                s.append(digit_str(d1));
            } else {
                s.append(digit_str(d1));
                s.append(digit_str(d2));
            }
        } else {
            s.append(digit_str(d1));
            s.append(digit_str(d2));
            s.append(digit_str(d3));
        }
        proof {
            assert(s@ =~= ms_str(us));
        }
    }
    s
}

/// Character-for-character equality of two string slices.
pub fn str_eq(a: &str, b: &str) -> (r: bool)
    ensures
        r == (a@ == b@),
{
    let alen = a.unicode_len();
    let blen = b.unicode_len();
    if alen != blen {
        return false;
    }
    let mut i: usize = 0;
    while i < alen
        invariant
            alen == a@.len(),
            alen == b@.len(),
            i <= alen,
            forall|j: int| 0 <= j < i ==> a@.index(j) == b@.index(j),
        decreases alen - i,
    {
        if a.get_char(i) != b.get_char(i) {
            return false;
        }
        i = i + 1;
    }
    proof {
        assert(a@ =~= b@);
    }
    true
}

} // verus!
