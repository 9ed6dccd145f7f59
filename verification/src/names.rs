//! The names that the generated items carry: markers, their documentation,
//! and type parameters. Each is a fixed word followed by a position in
//! decimal.

use crate::generator::Marker;
use vstd::prelude::*;
use vstd::string::*;

verus! {

/// The character that stands for the digit `d`.
pub open spec fn digit(d: nat) -> char {
    if d == 0 {
        '0'
    } else if d == 1 {
        '1'
    } else if d == 2 {
        '2'
    } else if d == 3 {
        '3'
    } else if d == 4 {
        '4'
    } else if d == 5 {
        '5'
    } else if d == 6 {
        '6'
    } else if d == 7 {
        '7'
    } else if d == 8 {
        '8'
    } else {
        '9'
    }
}

/// The decimal numeral of `n`, without leading zeros.
pub open spec fn decimal(n: nat) -> Seq<char>
    decreases n,
{
    if n < 10 {
        seq![digit(n)]
    } else {
        decimal(n / 10).push(digit(n % 10))
    }
}

/// The name of the marker for position `index`.
pub open spec fn marker_name_of(index: nat) -> Seq<char> {
    "TupleIndex"@ + decimal(index)
}

/// The documentation of the marker for position `index`.
pub open spec fn marker_documentation_of(index: nat) -> Seq<char> {
    "Marker type for tuple index "@ + decimal(index)
}

/// The name of the type parameter for position `position`.
pub open spec fn type_parameter_name_of(position: nat) -> Seq<char> {
    "T"@ + decimal(position)
}

fn digit_text(d: usize) -> (r: &'static str)
    requires
        d < 10,
    ensures
        r@ == seq![digit(d as nat)],
{
    proof {
        reveal_strlit("0");
        reveal_strlit("1");
        reveal_strlit("2");
        reveal_strlit("3");
        reveal_strlit("4");
        reveal_strlit("5");
        reveal_strlit("6");
        reveal_strlit("7");
        reveal_strlit("8");
        reveal_strlit("9");
    }
    let r = if d == 0 {
        "0"
    } else if d == 1 {
        "1"
    } else if d == 2 {
        "2"
    } else if d == 3 {
        "3"
    } else if d == 4 {
        "4"
    } else if d == 5 {
        "5"
    } else if d == 6 {
        "6"
    } else if d == 7 {
        "7"
    } else if d == 8 {
        "8"
    } else {
        "9"
    };
    assert(r@ =~= seq![digit(d as nat)]);
    r
}

/// Writes the decimal numeral of `n` behind what `out` holds.
pub fn append_decimal(out: &mut String, n: usize)
    ensures
        final(out)@ == old(out)@ + decimal(n as nat),
    decreases n,
{
    if n >= 10 {
        append_decimal(out, n / 10);
    }
    out.append(digit_text(n % 10));
    assert(final(out)@ =~= old(out)@ + decimal(n as nat));
}

/// The name of the type parameter that stands for the element at `position`:
/// `T` and the position in decimal.
pub fn type_parameter_name(position: usize) -> (r: String)
    ensures
        r@ == type_parameter_name_of(position as nat),
{
    let mut out = String::from_str("T");
    append_decimal(&mut out, position);
    out
}

impl Marker {
    /// The marker's name: `TupleIndex` and its position in decimal.
    pub fn name(&self) -> (r: String)
        ensures
            r@ == marker_name_of(self.index as nat),
    {
        let mut out = String::from_str("TupleIndex");
        append_decimal(&mut out, self.index);
        out
    }

    /// The sentence that documents the marker.
    pub fn documentation(&self) -> (r: String)
        ensures
            r@ == marker_documentation_of(self.index as nat),
    {
        let mut out = String::from_str("Marker type for tuple index ");
        append_decimal(&mut out, self.index);
        out
    }
}

} // verus!
