//! Decimal rendering of integers and of nanosecond durations as seconds.
use vstd::prelude::*;

verus! {

/// Nanoseconds in one second.
pub const NANOS_PER_SEC: u64 = 1_000_000_000;

/// The ASCII character of the decimal digit `d`.
pub open spec fn digit_char(d: int) -> char {
    if 0 <= d <= 9 {
        ((d + 48) as u8) as char
    } else {
        '?'
    }
}

/// The decimal digits of `n`, most significant first, without leading zeros.
pub open spec fn decimal_chars(n: nat) -> Seq<char>
    decreases n,
{
    if n < 10 {
        seq![digit_char(n as int)]
    } else {
        decimal_chars(n / 10).push(digit_char((n % 10) as int))
    }
}

/// Exactly `width` decimal digits of `n`, zero-padded on the left (the low digits when
/// `n` has more).
pub open spec fn padded_chars(n: nat, width: nat) -> Seq<char>
    decreases width,
{
    if width == 0 {
        Seq::empty()
    } else {
        padded_chars(n / 10, (width - 1) as nat).push(digit_char((n % 10) as int))
    }
}

/// `padded_chars(n, width)` with its trailing zeros removed.
pub open spec fn trimmed_chars(n: nat, width: nat) -> Seq<char>
    decreases width,
{
    if width > 0 && n % 10 == 0 {
        trimmed_chars(n / 10, (width - 1) as nat)
    } else {
        padded_chars(n, width)
    }
}

/// `ns` nanoseconds written as a decimal number of seconds: the whole seconds, then,
/// when the fraction is not zero, a point and the fraction without trailing zeros.
pub open spec fn seconds_chars(ns: nat) -> Seq<char> {
    let frac = ns % (NANOS_PER_SEC as nat);
    if frac == 0 {
        decimal_chars(ns / (NANOS_PER_SEC as nat))
    } else {
        decimal_chars(ns / (NANOS_PER_SEC as nat)) + seq!['.'] + trimmed_chars(frac, 9)
    }
}

fn digit_str(d: u64) -> (r: &'static str)
    requires
        d < 10,
    ensures
        r@ == seq![digit_char(d as int)],
{
    proof {
        reveal_strlit("0");
        reveal_strlit("1");
        reveal_strlit("2");
        reveal_strlit("3");
        reveal_strlit("4");
        reveal_strlit("5");
        reveal_strlit("6");
        reveal_strlit("7");
        reveal_strlit("8");
        reveal_strlit("9");
    }
    match d {
        0 => "0",
        1 => "1",
        2 => "2",
        3 => "3",
        4 => "4",
        5 => "5",
        6 => "6",
        7 => "7",
        8 => "8",
        _ => "9",
    }
}

/// Appends the decimal digits of `n` to `out`.
pub fn push_decimal(out: &mut String, n: u64)
    ensures
        final(out)@ == old(out)@ + decimal_chars(n as nat),
    decreases n,
{
    if n >= 10 {
        push_decimal(out, n / 10);
    }
    out.append(digit_str(n % 10));
}

/// Appends exactly `width` digits of `n`, zero-padded on the left.
fn push_padded(out: &mut String, n: u64, width: u32)
    ensures
        final(out)@ == old(out)@ + padded_chars(n as nat, width as nat),
    decreases width,
{
    if width > 0 {
        push_padded(out, n / 10, width - 1);
        out.append(digit_str(n % 10));
    }
}

/// The decimal digits of `n`.
pub fn decimal(n: u64) -> (r: String)
    ensures
        r@ == decimal_chars(n as nat),
{
    let mut out = String::new();
    push_decimal(&mut out, n);
    out
}

/// Appends `ns` nanoseconds written as seconds (`1500000000` gives `1.5`).
pub fn push_seconds(out: &mut String, ns: u64)
    ensures
        final(out)@ == old(out)@ + seconds_chars(ns as nat),
{
    push_decimal(out, ns / NANOS_PER_SEC);
    let mut frac = ns % NANOS_PER_SEC;
    if frac != 0 {
        proof {
            reveal_strlit(".");
        }
        out.append(".");
        let mut width: u32 = 9;
        while width > 0 && frac % 10 == 0
            invariant
                width <= 9,
                frac < NANOS_PER_SEC,
                trimmed_chars(frac as nat, width as nat) == trimmed_chars(
                    (ns % NANOS_PER_SEC) as nat,
                    9,
                ),
            decreases width,
        {
            frac = frac / 10;
            width = width - 1;
        }
        assert(trimmed_chars(frac as nat, width as nat) == padded_chars(frac as nat, width as nat));
        push_padded(out, frac, width);
        assert(out@ =~= old(out)@ + seconds_chars(ns as nat));
    }
}

/// `ns` nanoseconds written as seconds.
pub fn seconds(ns: u64) -> (r: String)
    ensures
        r@ == seconds_chars(ns as nat),
{
    let mut out = String::new();
    push_seconds(&mut out, ns);
    out
}

} // verus!
