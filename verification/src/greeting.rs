//! The greet command: the shell's one pure inbound command besides window
//! placement, kept for the UI layer's round-trip check.

use vstd::prelude::*;
use vstd::string::StringExecFns;

verus! {

/// The exact greeting for a name: the fixed template
/// `Hello, {name}! You've been greeted from Rust!`.
pub open spec fn greeting_of(name: Seq<char>) -> Seq<char> {
    "Hello, "@ + name + "! You've been greeted from Rust!"@
}

/// Format the greeting for `name`, character for character the template
/// [`greeting_of`] lays down.
pub fn greet(name: &str) -> (r: String)
    ensures
        r@ == greeting_of(name@),
{
    let mut r = String::from_str("Hello, ");
    r.append(name);
    r.append("! You've been greeted from Rust!");
    r
}

} // verus!
