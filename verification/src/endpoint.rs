//! Naming of the per-session hook endpoint: a filesystem path made unique
//! by embedding the process id and a timestamp.

use vstd::prelude::*;

verus! {

/// The character for one decimal digit.
pub open spec fn digit_char(d: nat) -> char {
    if d == 0 {
        '0'
    } else if d == 1 {
        '1'
    } else if d == 2 {
        '2'
    } else if d == 3 {
        '3'
    } else if d == 4 {
        '4'
    } else if d == 5 {
        '5'
    } else if d == 6 {
        '6'
    } else if d == 7 {
        '7'
    } else if d == 8 {
        '8'
    } else {
        '9'
    }
}

/// The decimal digits of `n`, most significant first, no leading zeros.
pub open spec fn dec_digits(n: nat) -> Seq<char>
    decreases n,
{
    if n < 10 {
        seq![digit_char(n)]
    } else {
        dec_digits(n / 10) + seq![digit_char(n % 10)]
    }
}

/// One decimal digit as text.
fn digit_str(d: u64) -> (r: &'static str)
    requires
        d < 10,
    ensures
        r@ == seq![digit_char(d as nat)],
{
    let r: &'static str = if d == 0 {
        "0"
    } else if d == 1 {
        "1"
    } else if d == 2 {
        "2"
    } else if d == 3 {
        "3"
    } else if d == 4 {
        "4"
    } else if d == 5 {
        "5"
    } else if d == 6 {
        "6"
    } else if d == 7 {
        "7"
    } else if d == 8 {
        "8"
    } else {
        "9"
    };
    proof {
        reveal_strlit("0");
        reveal_strlit("1");
        reveal_strlit("2");
        reveal_strlit("3");
        reveal_strlit("4");
        reveal_strlit("5");
        reveal_strlit("6");
        reveal_strlit("7");
        reveal_strlit("8");
        reveal_strlit("9");
        assert(r@ =~= seq![digit_char(d as nat)]);
    }
    r
}

/// `n` written in decimal.
pub fn u64_dec(n: u64) -> (r: String)
    ensures
        r@ == dec_digits(n as nat),
    decreases n,
{
    if n < 10 {
        String::from_str(digit_str(n))
    } else {
        let mut s = u64_dec(n / 10);
        s.append(digit_str(n % 10));
        s
    }
}

/// The hook-endpoint path for a session of process `pid` started at
/// millisecond timestamp `ts`.
pub open spec fn sock_path_spec(pid: nat, ts: nat) -> Seq<char> {
    "/tmp/bridge-"@ + dec_digits(pid) + "-"@ + dec_digits(ts) + ".sock"@
}

/// Build the session-unique hook-endpoint path from the process id and a
/// millisecond timestamp.
pub fn sock_path_for(pid: u64, ts: u64) -> (r: String)
    ensures
        r@ == sock_path_spec(pid as nat, ts as nat),
{
    let mut s = String::from_str("/tmp/bridge-");
    let p = u64_dec(pid);
    s.append(p.as_str());
    s.append("-");
    let t = u64_dec(ts);
    s.append(t.as_str());
    s.append(".sock");
    proof {
        assert(s@ =~= sock_path_spec(pid as nat, ts as nat));
    }
    s
}

} // verus!
