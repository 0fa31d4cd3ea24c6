use vstd::prelude::*;
use vstd::string::StringExecFns;
use crate::firmware::Version;

verus! {

/// The character of the decimal digit `d`.
pub open spec fn digit_char(d: nat) -> char {
    if d == 0 {
        '0'
    } else if d == 1 {
        '1'
    } else if d == 2 {
        '2'
    } else if d == 3 {
        '3'
    } else if d == 4 {
        '4'
    } else if d == 5 {
        '5'
    } else if d == 6 {
        '6'
    } else if d == 7 {
        '7'
    } else if d == 8 {
        '8'
    } else {
        '9'
    }
}

/// `n` in decimal, without leading zeros.
pub open spec fn decimal(n: nat) -> Seq<char>
    decreases n,
{
    if n < 10 {
        seq![digit_char(n)]
    } else {
        decimal(n / 10) + seq![digit_char(n % 10)]
    }
}

/// A version as `major.minor.build`.
pub open spec fn version_spec(v: Version) -> Seq<char> {
    decimal(v.major as nat) + seq!['.'] + decimal(v.minor as nat) + seq!['.'] + decimal(v.build as nat)
}

/// The version change that an update makes, as `from -> to`.
pub open spec fn version_change_spec(from: Version, to: Version) -> Seq<char> {
    version_spec(from) + seq![' ', '-', '>', ' '] + version_spec(to)
}

/// The one-character text of the decimal digit `d`.
fn digit_text(d: u16) -> (r: &'static str)
    requires
        d < 10,
    ensures
        r@ == seq![digit_char(d as nat)],
{
    proof {
        reveal_strlit("0");
        reveal_strlit("1");
        reveal_strlit("2");
        reveal_strlit("3");
        reveal_strlit("4");
        reveal_strlit("5");
        reveal_strlit("6");
        reveal_strlit("7");
        reveal_strlit("8");
        reveal_strlit("9");
    }
    if d == 0 {
        "0"
    } else if d == 1 {
        "1"
    } else if d == 2 {
        "2"
    } else if d == 3 {
        "3"
    } else if d == 4 {
        "4"
    } else if d == 5 {
        "5"
    } else if d == 6 {
        "6"
    } else if d == 7 {
        "7"
    } else if d == 8 {
        "8"
    } else {
        "9"
    }
}

/// Appends `n` in decimal to `s`.
fn append_decimal(s: &mut String, n: u16)
    ensures
        final(s)@ == old(s)@ + decimal(n as nat),
    decreases n,
{
    if n >= 10 {
        append_decimal(s, n / 10);
    }
    s.append(digit_text(n % 10));
    assert(s@ =~= old(s)@ + decimal(n as nat));
}

/// Appends the version as `major.minor.build` to `s`.
fn append_version(s: &mut String, v: Version)
    ensures
        final(s)@ == old(s)@ + version_spec(v),
{
    proof {
        reveal_strlit(".");
    }
    append_decimal(s, v.major as u16);
    s.append(".");
    append_decimal(s, v.minor as u16);
    s.append(".");
    append_decimal(s, v.build);
    assert(final(s)@ =~= old(s)@ + version_spec(v));
}

/// The version change of an update, as `from -> to`.
pub fn version_change_text(from: Version, to: Version) -> (r: String)
    ensures
        r@ == version_change_spec(from, to),
{
    proof {
        reveal_strlit(" -> ");
    }
    let mut s = String::new();
    append_version(&mut s, from);
    s.append(" -> ");
    append_version(&mut s, to);
    assert(s@ =~= version_change_spec(from, to));
    s
}

} // verus!
