//! Oracle-answer cache: answers yes/no questions from a key-value store,
//! generating and persisting a fresh answer when none is stored, and treating
//! one distinguished answer value as a placeholder that is re-rolled on the
//! next lookup.
use vstd::prelude::*;

pub mod cache;
pub mod generator;
pub mod handler;
pub mod laws;
pub mod prompt;
pub mod store;

verus! {

/// The distinguished stored value that is never treated as authoritative on
/// read: a later lookup that finds it generates a fresh answer instead.
pub open spec fn placeholder() -> Seq<char> {
    "Ask again later."@
}

/// The placeholder as an owned string, for storing and comparing.
pub fn placeholder_text() -> (r: String)
    ensures
        r@ == placeholder(),
{
    let r = "Ask again later.";
    r.to_owned()
}

} // verus!
