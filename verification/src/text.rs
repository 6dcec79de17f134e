//! Decimal rendering of integers and of IPv4 addresses, and the derived
//! default name of the output store.
use vstd::prelude::*;

verus! {

/// The decimal digit character for a value below ten.
pub open spec fn digit_char(d: int) -> char {
    if d == 0 {
        '0'
    } else if d == 1 {
        '1'
    } else if d == 2 {
        '2'
    } else if d == 3 {
        '3'
    } else if d == 4 {
        '4'
    } else if d == 5 {
        '5'
    } else if d == 6 {
        '6'
    } else if d == 7 {
        '7'
    } else if d == 8 {
        '8'
    } else {
        '9'
    }
}

/// The decimal rendering of a non-negative integer, most significant digit
/// first, with no leading zeroes (a lone zero for zero itself).
pub open spec fn dec_str(n: nat) -> Seq<char>
    decreases n,
{
    if n < 10 {
        seq![digit_char(n as int)]
    } else {
        dec_str(n / 10).push(digit_char((n % 10) as int))
    }
}

/// The one-character string for a decimal digit.
fn digit_str(d: u64) -> (r: &'static str)
    requires
        d < 10,
    ensures
        r@ == seq![digit_char(d as int)],
{
    proof {
        reveal_strlit("0");
        reveal_strlit("1");
        reveal_strlit("2");
        reveal_strlit("3");
        reveal_strlit("4");
        reveal_strlit("5");
        reveal_strlit("6");
        reveal_strlit("7");
        reveal_strlit("8");
        reveal_strlit("9");
    }
    let r: &'static str = if d == 0 {
        "0"
    } else if d == 1 {
        "1"
    } else if d == 2 {
        "2"
    } else if d == 3 {
        "3"
    } else if d == 4 {
        "4"
    } else if d == 5 {
        "5"
    } else if d == 6 {
        "6"
    } else if d == 7 {
        "7"
    } else if d == 8 {
        "8"
    } else {
        "9"
    };
    proof {
        assert(r@ =~= seq![digit_char(d as int)]);
    }
    r
}

/// Renders a 64-bit integer in decimal.
pub fn u64_to_string(n: u64) -> (r: String)
    ensures
        r@ == dec_str(n as nat),
    decreases n,
{
    if n < 10 {
        let s = digit_str(n);
        s.to_owned()
    } else {
        let mut s = u64_to_string(n / 10);
        s.append(digit_str(n % 10));
        proof {
            assert(s@ =~= dec_str(n as nat));
        }
        s
    }
}

/// The octet of an IPv4 address at a position, counted from the most
/// significant one.
pub open spec fn octet(addr: u32, k: int) -> nat {
    ((addr as nat) / (if k == 0 {
        0x1000000
    } else if k == 1 {
        0x10000
    } else if k == 2 {
        0x100
    } else {
        1
    })) % 256
}

/// The dotted-quad rendering of an IPv4 address.
pub open spec fn ipv4_str(addr: u32) -> Seq<char> {
    dec_str(octet(addr, 0)) + seq!['.'] + dec_str(octet(addr, 1)) + seq!['.'] + dec_str(
        octet(addr, 2),
    ) + seq!['.'] + dec_str(octet(addr, 3))
}

/// Renders an IPv4 address, given as its 32-bit numeric value, as the
/// dotted-quad text that keys a result record.
pub fn ipv4_string(addr: u32) -> (r: String)
    ensures
        r@ == ipv4_str(addr),
{
    proof {
        reveal_strlit(".");
    }
    let o0: u64 = ((addr / 0x1000000) % 256) as u64;
    let o1: u64 = ((addr / 0x10000) % 256) as u64;
    let o2: u64 = ((addr / 0x100) % 256) as u64;
    let o3: u64 = (addr % 256) as u64;
    let mut s = u64_to_string(o0);
    s.append(".");
    s.append(u64_to_string(o1).as_str());
    s.append(".");
    s.append(u64_to_string(o2).as_str());
    s.append(".");
    s.append(u64_to_string(o3).as_str());
    proof {
        assert(seq!['.'] =~= "."@);
        assert(s@ =~= ipv4_str(addr));
    }
    s
}

/// The default name of the output store, derived from the local time at
/// startup: `output-<year>-<month>-<day>-<hour>-<minute>.db`. The year is
/// given as an offset from 1900, as the platform's broken-down time reports
/// it; the other fields are used as given.
pub open spec fn db_name_str(year: nat, month: nat, day: nat, hour: nat, minute: nat) -> Seq<
    char,
> {
    "output-"@ + dec_str(year + 1900) + seq!['-'] + dec_str(month) + seq!['-'] + dec_str(day)
        + seq!['-'] + dec_str(hour) + seq!['-'] + dec_str(minute) + ".db"@
}

/// Builds the default output-store name from broken-down local time fields
/// (year counted from 1900).
pub fn default_db_name(year: u64, month: u64, day: u64, hour: u64, minute: u64) -> (r: String)
    requires
        year + 1900 <= u64::MAX,
    ensures
        r@ == db_name_str(year as nat, month as nat, day as nat, hour as nat, minute as nat),
{
    proof {
        reveal_strlit("output-");
        reveal_strlit("-");
        reveal_strlit(".db");
    }
    let mut s = "output-".to_owned();
    s.append(u64_to_string(year + 1900).as_str());
    s.append("-");
    s.append(u64_to_string(month).as_str());
    s.append("-");
    s.append(u64_to_string(day).as_str());
    s.append("-");
    s.append(u64_to_string(hour).as_str());
    s.append("-");
    s.append(u64_to_string(minute).as_str());
    s.append(".db");
    proof {
        assert(seq!['-'] =~= "-"@);
        assert(s@ =~= db_name_str(
            year as nat,
            month as nat,
            day as nat,
            hour as nat,
            minute as nat,
        ));
    }
    s
}

} // verus!
