//! Ownership of heap-backed text: a value moved into a function and handed
//! back, and a value moved from one binding to another.

use vstd::prelude::*;

verus! {

/// Two texts separated by a single space.
pub open spec fn joined(first: Seq<char>, second: Seq<char>) -> Seq<char> {
    first + " "@ + second
}

/// A text followed by ", world!".
pub open spec fn world_greeting(s: Seq<char>) -> Seq<char> {
    s + ", world!"@
}

/// The line that `greet` announces for its two texts.
pub fn greeting_line(first: &String, second: &String) -> (r: String)
    ensures
        r@ == joined(first@, second@),
{
    let mut r = first.clone();
    r.append(" ");
    r.append(second.as_str());
    r
}

/// Takes ownership of two texts and hands both back to the caller unchanged,
/// in the same order.
pub fn greet(g1: String, g2: String) -> (r: (String, String))
    ensures
        r.0@ == g1@,
        r.1@ == g2@,
{
    (g1, g2)
}

/// Moves "Hello" and "world" into `greet`, takes them back, and joins them
/// with a space. It takes no input, so every run gives the same text.
pub fn hand_back_text() -> (r: String)
    ensures
        r@ == "Hello world"@,
{
    let m1 = String::from_str("Hello");
    let m2 = String::from_str("world");
    let (m1_again, m2_again) = greet(m1, m2);
    let r = greeting_line(&m1_again, &m2_again);
    proof {
        reveal_strlit("Hello");
        reveal_strlit("world");
        reveal_strlit(" ");
        reveal_strlit("Hello world");
    }
    assert(r@ =~= "Hello world"@);
    r
}

/// Builds the line that greets the world after the text `s`.
pub fn world_line(s: &String) -> (r: String)
    ensures
        r@ == world_greeting(s@),
{
    let mut r = s.clone();
    r.append(", world!");
    r
}

/// Moves "hello" from a first binding to a second one and greets the world
/// through the new owner. It takes no input, so every run gives the same line.
pub fn moved_text_line() -> (r: String)
    ensures
        r@ == "hello, world!"@,
{
    let s1 = String::from_str("hello");
    let s2 = s1;
    let r = world_line(&s2);
    proof {
        reveal_strlit("hello");
        reveal_strlit(", world!");
        reveal_strlit("hello, world!");
    }
    assert(r@ =~= "hello, world!"@);
    r
}

} // verus!
