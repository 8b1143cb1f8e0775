//! The external-trap notifier's messages: `u <oid> 1 <value>` and `u <oid> -1`.
use vstd::prelude::*;
use vstd::arithmetic::div_mod::{lemma_fundamental_div_mod, lemma_fundamental_div_mod_converse};
use crate::text::{decimal_chars, push_decimal, push_seconds, seconds_chars};

verus! {

/// `n / d` rounded to the nearest integer, halves upward.
pub open spec fn rounded_div(n: nat, d: nat) -> nat {
    ((n + d / 2) / d) as nat
}

/// The unit in which a latency is reported to the external monitor.
#[derive(Clone, Copy, Debug, PartialEq, Eq, Structural)]
pub enum Units {
    S,
    Ms,
    Us,
    Ns,
}

impl Default for Units {
    fn default() -> (r: Units)
        ensures
            r == Units::S,
    {
        Units::S
    }
}

/// A latency as the monitor receives it.
#[derive(Clone, Copy, Debug, PartialEq, Eq, Structural)]
pub enum Reading {
    /// Seconds, unrounded; the field holds the latency in nanoseconds.
    Seconds(u64),
    /// A whole number of the chosen unit.
    Whole(u64),
}

/// The reading of a latency of `ns` nanoseconds in `units`.
pub open spec fn reading_of(units: Units, ns: u64) -> Reading {
    match units {
        Units::S => Reading::Seconds(ns),
        Units::Ms => Reading::Whole(rounded_div(ns as nat, 1_000_000) as u64),
        Units::Us => Reading::Whole(rounded_div(ns as nat, 1_000) as u64),
        Units::Ns => Reading::Whole(ns),
    }
}

/// The text of a reading: decimal seconds, or the whole number.
pub open spec fn reading_chars(r: Reading) -> Seq<char> {
    match r {
        Reading::Seconds(ns) => seconds_chars(ns as nat),
        Reading::Whole(n) => decimal_chars(n as nat),
    }
}

/// `ns / d` rounded to the nearest integer, halves upward.
pub fn round_div(ns: u64, d: u64) -> (r: u64)
    requires
        d == 1_000 || d == 1_000_000,
    ensures
        r == rounded_div(ns as nat, d as nat),
{
    let q = ns / d;
    let rem = ns % d;
    proof {
        lemma_fundamental_div_mod(ns as int, d as int);
    }
    assert(q <= u64::MAX / 1_000);
    if rem >= d / 2 {
        proof {
            lemma_fundamental_div_mod_converse(
                ns + d / 2,
                d as int,
                q + 1,
                rem + d / 2 - d,
            );
        }
        q + 1
    } else {
        proof {
            lemma_fundamental_div_mod_converse(ns + d / 2, d as int, q as int, rem + d / 2);
        }
        q
    }
}

impl Units {
    /// The reading of a latency of `ns` nanoseconds: seconds pass unrounded; the other
    /// units are rounded to whole numbers.
    pub fn latency_to_value(self, ns: u64) -> (r: Reading)
        ensures
            r == reading_of(self, ns),
    {
        match self {
            Units::S => Reading::Seconds(ns),
            Units::Ms => Reading::Whole(round_div(ns, 1_000_000)),
            Units::Us => Reading::Whole(round_div(ns, 1_000)),
            Units::Ns => Reading::Whole(ns),
        }
    }
}

impl Reading {
    /// Appends the text of the reading to `out`.
    pub fn push_text(&self, out: &mut String)
        ensures
            final(out)@ == old(out)@ + reading_chars(*self),
    {
        match self {
            Reading::Seconds(ns) => push_seconds(out, *ns),
            Reading::Whole(n) => push_decimal(out, *n),
        }
    }
}

/// Where and how latencies are reported to the external monitor.
#[derive(Clone, Debug)]
pub struct TrapConfig {
    /// The identifier of the monitored object.
    pub oid: String,
    /// The unit of the reported values.
    pub units: Units,
}

/// The message that sets the object to a latency of `ns` nanoseconds.
pub open spec fn latency_message_chars(oid: Seq<char>, units: Units, ns: u64) -> Seq<char> {
    "u "@ + oid + " 1 "@ + reading_chars(reading_of(units, ns))
}

/// The message that marks the object as failed.
pub open spec fn failure_message_chars(oid: Seq<char>) -> Seq<char> {
    "u "@ + oid + " -1"@
}

impl TrapConfig {
    /// The message for a successful iteration of `ns` nanoseconds.
    pub fn latency_message(&self, ns: u64) -> (r: String)
        ensures
            r@ == latency_message_chars(self.oid@, self.units, ns),
    {
        let mut s = String::from_str("u ");
        s.append(self.oid.as_str());
        s.append(" 1 ");
        self.units.latency_to_value(ns).push_text(&mut s);
        s
    }

    /// The message for a failed iteration.
    pub fn failure_message(&self) -> (r: String)
        ensures
            r@ == failure_message_chars(self.oid@),
    {
        let mut s = String::from_str("u ");
        s.append(self.oid.as_str());
        s.append(" -1");
        s
    }
}

} // verus!
