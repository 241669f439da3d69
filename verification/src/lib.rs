//! A minimal demonstration of ownership transfer for an owned text value.
//!
//! One function constructs a `String` and hands ownership of it to its
//! caller; another receives a `String` by value and immediately hands it
//! back. Each contract pins down the content of the value that changes
//! hands, so the round trip is proved to preserve it. That at most one
//! binding owns the value at a time is enforced by Rust's move semantics:
//! once a value is passed to `takes_and_gives_back`, the caller's original
//! binding is no longer usable.

use vstd::prelude::*;

verus! {

/// Constructs an owned text value holding the literal `"Yours"` and
/// transfers ownership of it to the caller.
pub fn gives_ownership() -> (s: String)
    ensures
        s@ == "Yours"@,
{
    let some_string = String::from_str("Yours");
    some_string
}

/// Receives ownership of a text value and immediately transfers ownership
/// back to the caller. The returned value's content is identical to the
/// content of the value that was passed in; the argument is consumed, so
/// the caller's binding for it is invalidated by the move.
pub fn takes_and_gives_back(a_string: String) -> (r: String)
    ensures
        r@ == a_string@,
{
    a_string
}

/// Content survives the round trip: the value built by `gives_ownership`,
/// once moved through `takes_and_gives_back`, still holds the original
/// literal.
pub fn gives_then_takes_back() -> (r: String)
    ensures
        r@ == "Yours"@,
{
    let produced = gives_ownership();
    takes_and_gives_back(produced)
}

} // verus!
