//! The greeting command.

use vstd::prelude::*;

verus! {

/// The text that `greet` puts before the name.
pub open spec fn greeting_prefix() -> Seq<char> {
    "Hello, "@
}

/// The text that `greet` puts after the name.
pub open spec fn greeting_suffix() -> Seq<char> {
    "! You've been greeted from Rust!"@
}

/// The greeting for `name`: prefix, the name as given, suffix.
pub open spec fn greeting_for(name: Seq<char>) -> Seq<char> {
    greeting_prefix() + name + greeting_suffix()
}

/// Returns the greeting for `name`. The name is inserted verbatim.
pub fn greet(name: &str) -> (greeting: String)
    ensures
        greeting@ == greeting_for(name@),
{
    let mut greeting = String::from_str("Hello, ");
    greeting.append(name);
    greeting.append("! You've been greeted from Rust!");
    greeting
}

} // verus!
