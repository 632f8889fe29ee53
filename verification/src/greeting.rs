//! The greeting formatter: one pure string operation.

use vstd::prelude::*;
use vstd::string::StringExecFns;

verus! {

/// The greeting the backend returns for a caller-supplied name.
pub open spec fn greeting_of(name: Seq<char>) -> Seq<char> {
    "Hello, "@ + name + "! You've been greeted from Rust!"@
}

/// Formats the greeting for `name`, exactly as `greeting_of` states it.
pub fn greet(name: &str) -> (r: String)
    ensures
        r@ == greeting_of(name@),
{
    let mut out = String::from_str("Hello, ");
    out.append(name);
    out.append("! You've been greeted from Rust!");
    proof {
        assert(out@ =~= greeting_of(name@));
    }
    out
}

} // verus!
