//! The greeting shown by the shell.

use vstd::prelude::*;
use vstd::string::*;

verus! {

/// The greeting for `name`, as a sequence of characters.
pub open spec fn greeting_text(name: Seq<char>) -> Seq<char> {
    "Hello, "@ + name + "! You've been greeted from Rust!"@
}

/// Greets `name`.
pub fn greet(name: &str) -> (out: String)
    ensures
        out@ == greeting_text(name@),
{
    let mut out = String::from_str("Hello, ");
    out.append(name);
    out.append("! You've been greeted from Rust!");
    out
}

} // verus!
