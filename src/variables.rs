//! Mutation and shadowing: a mutable counter that is reassigned, and a second
//! counter that is shadowed once in place and once more inside an inner scope.

use vstd::prelude::*;
use crate::lines::{labelled, labelled_line, lines_view};

verus! {

/// Value the mutable counter starts with.
pub const COUNTER_START: u64 = 5;

/// Value assigned to the mutable counter afterwards.
pub const COUNTER_REASSIGNED: u64 = 6;

/// Value of the binding that is shadowed afterwards.
pub const SHADOWED_START: u64 = 5;

pub open spec fn outer_prefix() -> Seq<char> {
    "The value of x is: "@
}

pub open spec fn inner_prefix() -> Seq<char> {
    "The value of x in the inner scope is: "@
}

/// A shadowing binding in the same scope: the previous value plus one.
pub open spec fn shadow_in_place(x: nat) -> nat {
    x + 1
}

/// A shadowing binding in the inner scope: the visible value doubled.
pub open spec fn shadow_in_inner_scope(x: nat) -> nat {
    x * 2
}

/// What the demonstration prints: the counter before and after it is
/// reassigned, the inner shadow, and then the outer shadow again, since the
/// inner one ended with its scope.
pub open spec fn shadowing_output() -> Seq<Seq<char>> {
    let outer = shadow_in_place(SHADOWED_START as nat);
    let inner = shadow_in_inner_scope(outer);
    seq![
        labelled(outer_prefix(), COUNTER_START as nat),
        labelled(outer_prefix(), COUNTER_REASSIGNED as nat),
        labelled(inner_prefix(), inner),
        labelled(outer_prefix(), outer),
    ]
}

/// The lines of the mutation and shadowing demonstration. It takes no input,
/// so every run gives the same lines.
pub fn shadowing_lines() -> (r: Vec<String>)
    ensures
        lines_view(r) == shadowing_output(),
{
    let mut lines: Vec<String> = Vec::new();
    let mut x: u64 = COUNTER_START;
    lines.push(labelled_line("The value of x is: ", x));
    x = COUNTER_REASSIGNED;
    lines.push(labelled_line("The value of x is: ", x));

    let x2: u64 = SHADOWED_START;
    let x2: u64 = x2 + 1;
    {
        let x2: u64 = x2 * 2;
        lines.push(labelled_line("The value of x in the inner scope is: ", x2));
    }
    lines.push(labelled_line("The value of x is: ", x2));
    assert(lines_view(lines) =~= shadowing_output());
    lines
}

/// The shadowing output, spelled out: "The value of x is: 5", "The value of x
/// is: 6", "The value of x in the inner scope is: 12", "The value of x is: 6".
pub proof fn lemma_shadowing_output_text()
    ensures
        shadowing_output() == seq![
            "The value of x is: 5"@,
            "The value of x is: 6"@,
            "The value of x in the inner scope is: 12"@,
            "The value of x is: 6"@,
        ],
{
    reveal_strlit("The value of x is: ");
    reveal_strlit("The value of x in the inner scope is: ");
    reveal_strlit("The value of x is: 5");
    reveal_strlit("The value of x is: 6");
    reveal_strlit("The value of x in the inner scope is: 12");
    assert(crate::decimal::decimal(1) =~= seq!['1']);
    assert(crate::decimal::decimal(12) =~= seq!['1', '2']);
    assert(labelled(outer_prefix(), 5) =~= "The value of x is: 5"@);
    assert(labelled(outer_prefix(), 6) =~= "The value of x is: 6"@);
    assert(labelled(inner_prefix(), 12) =~= "The value of x in the inner scope is: 12"@);
    assert(shadowing_output() =~= seq![
        "The value of x is: 5"@,
        "The value of x is: 6"@,
        "The value of x in the inner scope is: 12"@,
        "The value of x is: 6"@,
    ]);
}

} // verus!
