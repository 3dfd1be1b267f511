//! The greeting command: a fixed text template with the caller's name
//! inserted verbatim.

use vstd::prelude::*;
use vstd::string::StringExecFns;

verus! {

/// The greeting owed for a name: the fixed prefix, the name unchanged
/// (no trimming, no escaping), and the fixed suffix.
pub open spec fn greeting_text(name: Seq<char>) -> Seq<char> {
    "Hello, "@ + name + "! You've been greeted from Rust!"@
}

/// Builds the greeting for `name`: exactly the template
/// `"Hello, {name}! You've been greeted from Rust!"`, for every name,
/// the empty one included.
pub fn greet(name: &str) -> (r: String)
    ensures
        r@ == greeting_text(name@),
{
    let mut r = String::from_str("Hello, ");
    r.append(name);
    r.append("! You've been greeted from Rust!");
    proof {
        assert(r@ =~= greeting_text(name@));
    }
    r
}

} // verus!
