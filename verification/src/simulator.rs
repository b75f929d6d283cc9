//! Simulator metadata and module timescales.
//!
//! The metadata itself (argument list, version, product) is copied out of
//! native memory by the surrounding glue; the library holds the owned
//! snapshot and the timescale arithmetic: rendering a power of ten as a
//! human-readable time unit, with an exact decimal rendering for powers
//! outside the named table.

use vstd::prelude::*;
use vstd::string::StringExecFns;

verus! {

/// An owned snapshot of the simulator's metadata: every string copied out of
/// native memory.
#[derive(Debug)]
pub struct SimulatorInfo {
    pub arguments: Vec<String>,
    pub version: String,
    pub product: String,
}

/// The character of one decimal digit.
pub open spec fn digit_char(d: int) -> char {
    if d == 0 {
        '0'
    } else if d == 1 {
        '1'
    } else if d == 2 {
        '2'
    } else if d == 3 {
        '3'
    } else if d == 4 {
        '4'
    } else if d == 5 {
        '5'
    } else if d == 6 {
        '6'
    } else if d == 7 {
        '7'
    } else if d == 8 {
        '8'
    } else {
        '9'
    }
}

/// The decimal rendering of a number: its digits in the usual order, most
/// significant first, with no leading zero except for the number zero.
pub open spec fn dec_digits(n: nat) -> Seq<char>
    decreases n,
{
    if n < 10 {
        seq![digit_char(n as int)]
    } else {
        dec_digits(n / 10).push(digit_char((n % 10) as int))
    }
}

/// The decimal characters of a digit stack read from the top down.
pub open spec fn rev_chars(ds: Seq<u64>) -> Seq<char>
    decreases ds.len(),
{
    if ds.len() == 0 {
        Seq::empty()
    } else {
        seq![digit_char(ds.last() as int)] + rev_chars(ds.drop_last())
    }
}

/// Append one decimal digit's character.
fn append_digit(s: &mut String, d: u64)
    requires
        d < 10,
    ensures
        final(s)@ == old(s)@ + seq![digit_char(d as int)],
{
    if d == 0 {
        s.append("0");
        proof {
            reveal_strlit("0");
            assert("0"@ =~= seq!['0']);
        }
    } else if d == 1 {
        s.append("1");
        proof {
            reveal_strlit("1");
            assert("1"@ =~= seq!['1']);
        }
    } else if d == 2 {
        s.append("2");
        proof {
            reveal_strlit("2");
            assert("2"@ =~= seq!['2']);
        }
    } else if d == 3 {
        s.append("3");
        proof {
            reveal_strlit("3");
            assert("3"@ =~= seq!['3']);
        }
    } else if d == 4 {
        s.append("4");
        proof {
            reveal_strlit("4");
            assert("4"@ =~= seq!['4']);
        }
    } else if d == 5 {
        s.append("5");
        proof {
            reveal_strlit("5");
            assert("5"@ =~= seq!['5']);
        }
    } else if d == 6 {
        s.append("6");
        proof {
            reveal_strlit("6");
            assert("6"@ =~= seq!['6']);
        }
    } else if d == 7 {
        s.append("7");
        proof {
            reveal_strlit("7");
            assert("7"@ =~= seq!['7']);
        }
    } else if d == 8 {
        s.append("8");
        proof {
            reveal_strlit("8");
            assert("8"@ =~= seq!['8']);
        }
    } else {
        s.append("9");
        proof {
            reveal_strlit("9");
            assert("9"@ =~= seq!['9']);
        }
    }
}

/// Append the decimal rendering of `n`.
fn push_decimal(s: &mut String, n: u64)
    ensures
        final(s)@ == old(s)@ + dec_digits(n as nat),
{
    let mut digits: Vec<u64> = Vec::new();
    let mut x: u64 = n;
    while x >= 10
        invariant
            forall|j: int| 0 <= j < digits@.len() ==> digits@[j] < 10,
            dec_digits(n as nat) == dec_digits(x as nat) + rev_chars(digits@),
        decreases x,
    {
        let d: u64 = x % 10;
        proof {
            let ds = digits@;
            assert(ds.push(d).drop_last() =~= ds);
            assert(rev_chars(ds.push(d)) == seq![digit_char(d as int)] + rev_chars(ds));
            assert(dec_digits(x as nat) == dec_digits((x as nat) / 10).push(
                digit_char(((x as nat) % 10) as int),
            ));
            assert(dec_digits((x as nat) / 10).push(digit_char(d as int)) =~= dec_digits(
                (x as nat) / 10,
            ) + seq![digit_char(d as int)]);
            assert((dec_digits((x as nat) / 10) + seq![digit_char(d as int)]) + rev_chars(ds)
                =~= dec_digits((x as nat) / 10) + (seq![digit_char(d as int)] + rev_chars(ds)));
            assert((x / 10) as nat == (x as nat) / 10);
        }
        digits.push(d);
        x = x / 10;
    }
    proof {
        let ds = digits@;
        assert(ds.push(x).drop_last() =~= ds);
        assert(rev_chars(ds.push(x)) == seq![digit_char(x as int)] + rev_chars(ds));
        assert(dec_digits(x as nat) == seq![digit_char(x as int)]);
    }
    digits.push(x);
    let ghost all = digits@;
    assert(dec_digits(n as nat) == rev_chars(all));
    let mut i: usize = digits.len();
    assert(all.take(i as int) =~= all);
    while i > 0
        invariant
            i <= digits@.len(),
            digits@ == all,
            forall|j: int| 0 <= j < all.len() ==> all[j] < 10,
            s@ + rev_chars(all.take(i as int)) == old(s)@ + rev_chars(all),
        decreases i,
    {
        let ghost pre = s@;
        i = i - 1;
        let d = digits[i];
        append_digit(s, d);
        proof {
            let t = all.take(i + 1);
            assert(t.len() == i + 1);
            assert(t.last() == all[i as int]);
            assert(t.drop_last() =~= all.take(i as int));
            assert(rev_chars(t) == seq![digit_char(all[i as int] as int)] + rev_chars(
                all.take(i as int),
            ));
            assert((pre + seq![digit_char(d as int)]) + rev_chars(all.take(i as int)) =~= pre + (
            seq![digit_char(d as int)] + rev_chars(all.take(i as int))));
        }
    }
    proof {
        assert(all.take(0) =~= Seq::<u64>::empty());
        assert(s@ + Seq::<char>::empty() =~= s@);
    }
}

/// The characters of the human-readable form of a time unit given as a power
/// of ten: the conventional unit names from 100 seconds down to a
/// femtosecond, and an explicit power of ten for everything else.
pub open spec fn spec_time_unit_chars(power: int) -> Seq<char> {
    if power == 2 {
        "100s"@
    } else if power == 1 {
        "10s"@
    } else if power == 0 {
        "1s"@
    } else if power == -1 {
        "100ms"@
    } else if power == -2 {
        "10ms"@
    } else if power == -3 {
        "1ms"@
    } else if power == -6 {
        "1us"@
    } else if power == -9 {
        "1ns"@
    } else if power == -12 {
        "1ps"@
    } else if power == -15 {
        "1fs"@
    } else if power < 0 {
        "10^"@ + "-"@ + dec_digits((-power) as nat) + "s"@
    } else {
        "10^"@ + dec_digits(power as nat) + "s"@
    }
}

/// Render a power of ten as a human-readable time unit: the named units
/// where one exists, an explicit power of ten otherwise.
pub fn power_of_10_to_time_str(power: i32) -> (r: String)
    ensures
        r@ == spec_time_unit_chars(power as int),
{
    if power == 2 {
        "100s".to_owned()
    } else if power == 1 {
        "10s".to_owned()
    } else if power == 0 {
        "1s".to_owned()
    } else if power == -1 {
        "100ms".to_owned()
    } else if power == -2 {
        "10ms".to_owned()
    } else if power == -3 {
        "1ms".to_owned()
    } else if power == -6 {
        "1us".to_owned()
    } else if power == -9 {
        "1ns".to_owned()
    } else if power == -12 {
        "1ps".to_owned()
    } else if power == -15 {
        "1fs".to_owned()
    } else {
        let mut s = String::new();
        s.append("10^");
        let mag: u64;
        if power < 0 {
            s.append("-");
            mag = (-(power as i64)) as u64;
        } else {
            mag = power as u64;
        }
        push_decimal(&mut s, mag);
        s.append("s");
        proof {
            if power < 0 {
                assert(s@ =~= "10^"@ + "-"@ + dec_digits((-(power as int)) as nat) + "s"@);
            } else {
                assert(s@ =~= "10^"@ + dec_digits(power as nat) + "s"@);
            }
        }
        s
    }
}

/// A module's timescale: its time unit and time precision, each as a power
/// of ten (for instance, -9 for a nanosecond, -12 for a picosecond).
#[derive(Clone, Copy, Debug, PartialEq, Eq, Structural)]
pub struct Timescale {
    pub unit: i32,
    pub precision: i32,
}

impl Timescale {
    /// The human-readable form of the time unit.
    pub fn unit_str(&self) -> (r: String)
        ensures
            r@ == spec_time_unit_chars(self.unit as int),
    {
        power_of_10_to_time_str(self.unit)
    }

    /// The human-readable form of the time precision.
    pub fn precision_str(&self) -> (r: String)
        ensures
            r@ == spec_time_unit_chars(self.precision as int),
    {
        power_of_10_to_time_str(self.precision)
    }

    /// The human-readable form of the whole timescale: the unit and the
    /// precision, separated by a slash.
    pub fn display_string(&self) -> (r: String)
        ensures
            r@ == spec_time_unit_chars(self.unit as int) + " / "@ + spec_time_unit_chars(
                self.precision as int,
            ),
    {
        let mut s = self.unit_str();
        s.append(" / ");
        let p = self.precision_str();
        s.append(p.as_str());
        proof {
            assert(s@ =~= spec_time_unit_chars(self.unit as int) + " / "@ + spec_time_unit_chars(
                self.precision as int,
            ));
        }
        s
    }
}

} // verus!
