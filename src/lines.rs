//! Printed output as a sequence of lines.

use vstd::prelude::*;

verus! {

/// The text of each line, in order.
pub open spec fn lines_view(lines: Vec<String>) -> Seq<Seq<char>> {
    lines@.map_values(|s: String| s@)
}

/// A line made of a fixed prefix followed by `n` in decimal.
pub open spec fn labelled(prefix: Seq<char>, n: nat) -> Seq<char> {
    prefix + crate::decimal::decimal(n)
}

/// Builds the line `prefix` followed by `n` in decimal.
pub fn labelled_line(prefix: &str, n: u64) -> (r: String)
    ensures
        r@ == labelled(prefix@, n as nat),
{
    let mut out = String::from_str(prefix);
    crate::decimal::push_decimal(&mut out, n);
    out
}

} // verus!
