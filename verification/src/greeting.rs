//! The greeting with which the service answers a caller who gives a name.

use vstd::prelude::*;
use vstd::string::StringExecFns;

verus! {

/// The greeting for `name`: "Hello, ", the name, and an exclamation mark.
pub fn greet(name: String) -> (greeting: String)
    ensures
        greeting@ == "Hello, "@ + name@ + "!"@,
{
    String::from_str("Hello, ").concat(name.as_str()).concat("!")
}

} // verus!
