//! The greeting that the front end asks for.

use vstd::prelude::*;
use vstd::string::*;
use crate::text::joined;

verus! {

/// The greeting for `name`.
pub open spec fn greeting(name: Seq<char>) -> Seq<char> {
    "Hello, "@ + name + "! You've been greeted from Rust!"@
}

/// Greets `name`.
pub fn greet_name(name: &str) -> (r: String)
    ensures
        r@ == greeting(name@),
{
    let head = joined("Hello, ", name);
    joined(head.as_str(), "! You've been greeted from Rust!")
}

/// Greets `name`; the same greeting as `greet_name`.
pub fn greet(name: &str) -> (r: String)
    ensures
        r@ == greeting(name@),
{
    greet_name(name)
}

} // verus!
