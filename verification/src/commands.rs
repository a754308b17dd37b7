//! The command surface exposed to the front end.

use vstd::prelude::*;
use vstd::string::StringExecFns;

verus! {

/// The greeting returned for a given name: the fixed template with the
/// name substituted, no escaping and no validation.
pub open spec fn greeting_of(name: Seq<char>) -> Seq<char> {
    "Hello, "@ + name + "! You've been greeted from Rust!"@
}

/// Front-end command: format the fixed greeting for `name`.
///
/// Pure and total over all string inputs; the result is exactly the
/// template with `name` in its slot.
pub fn greet(name: &str) -> (r: String)
    ensures
        r@ == greeting_of(name@),
{
    let mut r = String::from_str("Hello, ");
    r.append(name);
    r.append("! You've been greeted from Rust!");
    r
}

} // verus!
