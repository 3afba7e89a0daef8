use vstd::prelude::*;
use vstd::string::StringExecFns;

verus! {

/// The text that precedes the name in a greeting.
pub open spec fn greeting_prefix() -> Seq<char> {
    "Hello, "@
}

/// The text that follows the name in a greeting.
pub open spec fn greeting_suffix() -> Seq<char> {
    "! You've been greeted from Rust!"@
}

/// The greeting for `name`: the name, verbatim, between a fixed prefix and suffix.
pub open spec fn greeting_of(name: Seq<char>) -> Seq<char> {
    greeting_prefix() + name + greeting_suffix()
}

/// Builds the greeting that the user interface shows for `name`.
pub fn greet(name: &str) -> (r: String)
    ensures
        r@ == greeting_of(name@),
{
    proof {
        reveal_strlit("Hello, ");
        reveal_strlit("! You've been greeted from Rust!");
    }
    let mut r = String::from_str("Hello, ");
    r.append(name);
    r.append("! You've been greeted from Rust!");
    r
}

/// Whatever the name, the greeting holds it verbatim, as one contiguous run of characters.
pub proof fn lemma_greeting_contains_name(name: Seq<char>)
    ensures
        exists|i: int|
            0 <= i && i + name.len() <= greeting_of(name).len()
                && #[trigger] greeting_of(name).subrange(i, i + name.len()) == name,
{
    let g = greeting_of(name);
    let i = greeting_prefix().len() as int;
    assert(g.subrange(i, i + name.len()) =~= name);
}

} // verus!
