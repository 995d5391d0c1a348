use vstd::prelude::*;
use vstd::string::StringExecFns;

verus! {

/// The text that greets `name`.
pub open spec fn greeting_of(name: Seq<char>) -> Seq<char> {
    "Hello, "@ + name + "! You've been greeted from Biendeptrai!"@
}

/// Greets `name` by echoing it inside a fixed sentence.
pub fn greet(name: &str) -> (r: String)
    ensures
        r@ == greeting_of(name@),
{
    let s = String::from_str("Hello, ");
    let s = s.concat(name);
    s.concat("! You've been greeted from Biendeptrai!")
}

} // verus!
