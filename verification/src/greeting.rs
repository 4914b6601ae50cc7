//! The greeting command offered to the front-end.

use vstd::prelude::*;
use vstd::string::StringExecFns;

verus! {

/// The text of the greeting sent back for `name`.
pub open spec fn greeting_text(name: Seq<char>) -> Seq<char> {
    "Hello, "@ + name + "! You've been greeted from Rust!"@
}

/// Greets `name`.
pub fn greet(name: &str) -> (text: String)
    ensures
        text@ == greeting_text(name@),
{
    String::from_str("Hello, ").concat(name).concat("! You've been greeted from Rust!")
}

} // verus!
