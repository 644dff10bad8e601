use vstd::prelude::*;
use vstd::string::StringExecFns;

verus! {

/// The character of a decimal digit.
pub open spec fn digit_char(d: nat) -> char
    recommends
        d < 10,
{
    (48 + d) as char
}

/// The decimal digits of `n`, most significant first, without leading zeros ("0" for zero).
pub open spec fn decimal(n: nat) -> Seq<char>
    decreases n,
{
    if n < 10 {
        seq![digit_char(n)]
    } else {
        decimal(n / 10).push(digit_char(n % 10))
    }
}

/// A duration in milliseconds as people read it: whole milliseconds below a second ("423ms"),
/// seconds rounded to the nearest tenth below a minute ("1.5s"), whole minutes and seconds from a
/// minute on ("2m 5s").
pub open spec fn ms_text(ms: nat) -> Seq<char> {
    if ms < 1000 {
        decimal(ms) + seq!['m', 's']
    } else if ms < 60_000 {
        let tenths = (ms + 50) / 100;
        decimal(tenths / 10) + seq!['.'] + decimal(tenths % 10) + seq!['s']
    } else {
        decimal(ms / 60_000) + seq!['m', ' '] + decimal((ms % 60_000) / 1000) + seq!['s']
    }
}

fn digit_str(d: u128) -> (s: &'static str)
    requires
        d < 10,
    ensures
        s@ == seq![digit_char(d as nat)],
{
    proof {
        reveal_strlit("0");
        reveal_strlit("1");
        reveal_strlit("2");
        reveal_strlit("3");
        reveal_strlit("4");
        reveal_strlit("5");
        reveal_strlit("6");
        reveal_strlit("7");
        reveal_strlit("8");
        reveal_strlit("9");
    }
    if d == 0 {
        "0"
    } else if d == 1 {
        "1"
    } else if d == 2 {
        "2"
    } else if d == 3 {
        "3"
    } else if d == 4 {
        "4"
    } else if d == 5 {
        "5"
    } else if d == 6 {
        "6"
    } else if d == 7 {
        "7"
    } else if d == 8 {
        "8"
    } else {
        "9"
    }
}

/// Appends the decimal digits of `n`.
pub fn push_decimal(out: &mut String, n: u128)
    ensures
        final(out)@ == old(out)@ + decimal(n as nat),
    decreases n,
{
    if n >= 10 {
        push_decimal(out, n / 10);
    }
    out.append(digit_str(n % 10));
    assert(decimal(n as nat) == if n < 10 {
        seq![digit_char(n as nat)]
    } else {
        decimal((n / 10) as nat).push(digit_char((n % 10) as nat))
    });
    if n < 10 {
        assert(n % 10 == n);
    }
}

/// Formats a duration in milliseconds (see `ms_text`).
pub fn fmt_ms(ms: u128) -> (s: String)
    ensures
        s@ == ms_text(ms as nat),
{
    proof {
        reveal_strlit("ms");
        reveal_strlit(".");
        reveal_strlit("s");
        reveal_strlit("m ");
    }
    let mut s = String::new();
    if ms < 1000 {
        push_decimal(&mut s, ms);
        s.append("ms");
        assert(s@ =~= ms_text(ms as nat));
    } else if ms < 60_000 {
        let tenths = (ms + 50) / 100;
        push_decimal(&mut s, tenths / 10);
        s.append(".");
        push_decimal(&mut s, tenths % 10);
        s.append("s");
        assert(s@ =~= ms_text(ms as nat));
    } else {
        push_decimal(&mut s, ms / 60_000);
        s.append("m ");
        push_decimal(&mut s, (ms % 60_000) / 1000);
        s.append("s");
        assert(s@ =~= ms_text(ms as nat));
    }
    s
}

} // verus!
