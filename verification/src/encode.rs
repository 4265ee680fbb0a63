//! A stable string encoding of the snapshot: one line per stored light, in
//! storage order, so that equal stores always yield equal encodings. The
//! encoding is opaque to its consumers — it is written out and compared for
//! equality, never read back.

use crate::data::ColorState;
use crate::data::Light;
use vstd::prelude::*;
use vstd::string::StringExecFns;

verus! {

/// The character of a decimal digit.
pub open spec fn spec_digit(d: nat) -> Seq<char> {
    if d == 0 {
        "0"@
    } else if d == 1 {
        "1"@
    } else if d == 2 {
        "2"@
    } else if d == 3 {
        "3"@
    } else if d == 4 {
        "4"@
    } else if d == 5 {
        "5"@
    } else if d == 6 {
        "6"@
    } else if d == 7 {
        "7"@
    } else if d == 8 {
        "8"@
    } else {
        "9"@
    }
}

fn digit_str(d: u64) -> (s: &'static str)
    requires
        d < 10,
    ensures
        s@ == spec_digit(d as nat),
{
    match d {
        0 => "0",
        1 => "1",
        2 => "2",
        3 => "3",
        4 => "4",
        5 => "5",
        6 => "6",
        7 => "7",
        8 => "8",
        _ => "9",
    }
}

/// The decimal notation of a number.
pub open spec fn spec_decimal(n: nat) -> Seq<char>
    decreases n,
{
    if n < 10 {
        spec_digit(n)
    } else {
        spec_decimal(n / 10) + spec_digit(n % 10)
    }
}

/// Writes a number in decimal.
pub fn u64_to_decimal(n: u64) -> (s: String)
    ensures
        s@ == spec_decimal(n as nat),
    decreases n,
{
    if n < 10 {
        digit_str(n).to_owned()
    } else {
        let mut s = u64_to_decimal(n / 10);
        s.append(digit_str(n % 10));
        s
    }
}

/// The encoding of a colour state: its mode tag and its fields.
pub open spec fn spec_encode_color(c: ColorState) -> Seq<char> {
    match c {
        ColorState::Hs(hs) => "hs:"@ + spec_decimal(hs.hue as nat) + ":"@ + spec_decimal(
            hs.sat as nat,
        ),
        ColorState::Xy(xy) => "xy:"@ + spec_decimal(xy.x_bits as nat) + ":"@ + spec_decimal(
            xy.y_bits as nat,
        ),
        ColorState::Ct(ct) => "ct:"@ + spec_decimal(ct.ct as nat),
    }
}

fn encode_color(c: &ColorState) -> (s: String)
    ensures
        s@ == spec_encode_color(*c),
{
    match c {
        ColorState::Hs(hs) => {
            let mut s: String = "hs:".to_owned();
            s.append(u64_to_decimal(hs.hue as u64).as_str());
            s.append(":");
            s.append(u64_to_decimal(hs.sat as u64).as_str());
            s
        },
        ColorState::Xy(xy) => {
            let mut s: String = "xy:".to_owned();
            s.append(u64_to_decimal(xy.x_bits as u64).as_str());
            s.append(":");
            s.append(u64_to_decimal(xy.y_bits as u64).as_str());
            s
        },
        ColorState::Ct(ct) => {
            let mut s: String = "ct:".to_owned();
            s.append(u64_to_decimal(ct.ct as u64).as_str());
            s
        },
    }
}

/// The encoding of one stored light: its durable identity, its on flag, its
/// brightness and its colour, separated by bars, on a line of its own.
pub open spec fn spec_encode_entry(l: Light) -> Seq<char> {
    l.uniqueid@ + "|"@ + (if l.state.on {
        "on"@
    } else {
        "off"@
    }) + "|"@ + spec_decimal(l.state.bri as nat) + "|"@ + spec_encode_color(l.state.color) + "\n"@
}

/// Writes the encoding of one stored light.
pub fn encode_entry(l: &Light) -> (s: String)
    ensures
        s@ == spec_encode_entry(*l),
{
    let mut s = l.uniqueid.clone();
    s.append("|");
    if l.state.on {
        s.append("on");
    } else {
        s.append("off");
    }
    s.append("|");
    s.append(u64_to_decimal(l.state.bri as u64).as_str());
    s.append("|");
    s.append(encode_color(&l.state.color).as_str());
    s.append("\n");
    s
}

/// The encoding of the whole snapshot, entry by entry in storage order.
pub open spec fn spec_encode(entries: Seq<(String, Light)>) -> Seq<char>
    decreases entries.len(),
{
    if entries.len() == 0 {
        Seq::empty()
    } else {
        spec_encode(entries.drop_last()) + spec_encode_entry(entries.last().1)
    }
}

/// Writes the encoding of the whole snapshot.
pub fn encode_snapshot(entries: &Vec<(String, Light)>) -> (s: String)
    ensures
        s@ == spec_encode(entries@),
{
    let mut s = String::new();
    let n = entries.len();
    let mut i: usize = 0;
    proof {
        assert(entries@.take(0) =~= Seq::<(String, Light)>::empty());
    }
    while i < n
        invariant
            i <= n,
            n == entries@.len(),
            s@ == spec_encode(entries@.take(i as int)),
        decreases n - i,
    {
        proof {
            assert(entries@.take(i as int + 1).drop_last() =~= entries@.take(i as int));
            assert(entries@.take(i as int + 1).last() == entries@[i as int]);
        }
        let e = encode_entry(&entries[i].1);
        s.append(e.as_str());
        i += 1;
    }
    proof {
        assert(entries@.take(n as int) =~= entries@);
    }
    s
}

} // verus!
