//! The one remote command of the application: a greeting.

use vstd::prelude::*;
use vstd::string::StringExecFns;

verus! {

/// What stands before the name in a greeting.
pub const GREETING_OPENING: &'static str = "Hello, ";

/// What stands after the name in a greeting.
pub const GREETING_CLOSING: &'static str = "! You've been greeted from Rust!";

/// The greeting for `name`.
pub open spec fn greeting_for(name: Seq<char>) -> Seq<char> {
    GREETING_OPENING@ + name + GREETING_CLOSING@
}

/// Formats the greeting for `name`.
pub fn greet(name: &str) -> (greeting: String)
    ensures
        greeting@ == greeting_for(name@),
{
    let mut greeting = GREETING_OPENING.to_owned();
    greeting.append(name);
    greeting.append(GREETING_CLOSING);
    greeting
}

} // verus!
