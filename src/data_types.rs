//! Integer literals in several notations, and an 8-bit signed counter at its
//! largest value.

use vstd::prelude::*;
use crate::decimal::decimal;
use crate::lines::lines_view;

verus! {

/// Largest value of an 8-bit signed integer.
pub const SIGNED_BYTE_MAX: i8 = 127;

/// The values of the literals `98_222`, `0xff`, `0o77`, `0b1111_0000` and
/// `b'A'`, in that order.
pub open spec fn literal_values() -> Seq<nat> {
    seq![98_222, 0xff, 0o77, 0b1111_0000, ('A' as u32) as nat]
}

/// What the demonstration prints: each literal's value in decimal, one per line.
pub open spec fn literal_output() -> Seq<Seq<char>> {
    literal_values().map_values(|v: nat| decimal(v))
}

/// The lines of the literal demonstration. It takes no input, so every run
/// gives the same lines.
pub fn literal_lines() -> (r: Vec<String>)
    ensures
        lines_view(r) == literal_output(),
{
    let decimal_form: u64 = 98_222;
    let hex: u64 = 0xff;
    let octal: u64 = 0o77;
    let binary: u64 = 0b1111_0000;
    let byte: u8 = 'A' as u8;
    let mut lines: Vec<String> = Vec::new();
    lines.push(crate::decimal::to_decimal(decimal_form));
    lines.push(crate::decimal::to_decimal(hex));
    lines.push(crate::decimal::to_decimal(octal));
    lines.push(crate::decimal::to_decimal(binary));
    lines.push(crate::decimal::to_decimal(byte as u64));
    assert(lines_view(lines) =~= literal_output());
    lines
}

/// The literal output, spelled out: "98222", "255", "63", "240", "65".
pub proof fn lemma_literal_output_text()
    ensures
        literal_output() == seq!["98222"@, "255"@, "63"@, "240"@, "65"@],
{
    reveal_strlit("98222");
    reveal_strlit("255");
    reveal_strlit("63");
    reveal_strlit("240");
    reveal_strlit("65");
    assert(decimal(9) =~= seq!['9']);
    assert(decimal(98) =~= seq!['9', '8']);
    assert(decimal(982) =~= seq!['9', '8', '2']);
    assert(decimal(9822) =~= seq!['9', '8', '2', '2']);
    assert(decimal(98222) =~= "98222"@);
    assert(decimal(2) =~= seq!['2']);
    assert(decimal(25) =~= seq!['2', '5']);
    assert(decimal(255) =~= "255"@);
    assert(decimal(6) =~= seq!['6']);
    assert(decimal(63) =~= "63"@);
    assert(decimal(24) =~= seq!['2', '4']);
    assert(decimal(240) =~= "240"@);
    assert(decimal(65) =~= "65"@);
    assert(literal_output() =~= seq!["98222"@, "255"@, "63"@, "240"@, "65"@]);
}

/// Adds one to an 8-bit signed value, wrapping past the largest value to the
/// smallest one.
pub fn wrapping_increment(v: i8) -> (r: i8)
    ensures
        r == (if v == i8::MAX { i8::MIN } else { (v + 1) as i8 }),
{
    v.wrapping_add(1)
}

/// The counter at its largest value, and the value it wraps to when one more
/// is added.
pub fn signed_byte_overflow() -> (r: (i8, i8))
    ensures
        r == (i8::MAX, i8::MIN),
{
    let num1: i8 = SIGNED_BYTE_MAX;
    let num2: i8 = wrapping_increment(num1);
    (num1, num2)
}

} // verus!
