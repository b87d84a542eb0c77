//! The greeting formatter exposed to the front end as a smoke test.

use vstd::prelude::*;
use vstd::string::StringExecFns;

verus! {

/// The greeting returned for `name`.
pub open spec fn greeting_chars(name: Seq<char>) -> Seq<char> {
    "Hello, "@ + name + "! You've been greeted from Rust!"@
}

/// Formats the greeting for `name`.
pub fn greet(name: &str) -> (r: String)
    ensures
        r@ == greeting_chars(name@),
{
    let mut s = String::from_str("Hello, ");
    s.append(name);
    s.append("! You've been greeted from Rust!");
    proof {
        assert(s@ =~= greeting_chars(name@));
    }
    s
}

} // verus!
