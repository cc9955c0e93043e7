//! Plain data read from and written to JSON documents.
use vstd::prelude::*;

verus! {

/// A user record: an identifier and a location.
#[derive(Debug)]
pub struct User {
    pub id: String,
    pub loc: String,
}

impl User {
    pub fn new(id: String, loc: String) -> (r: User)
        ensures
            r.id@ == id@,
            r.loc@ == loc@,
    {
        User { id, loc }
    }
}

/// The sentence that names a warrior and his first sword.
pub open spec fn wield_sentence(name: Seq<char>, sword: Seq<char>) -> Seq<char> {
    name + " wields his sword, "@ + sword
}

/// Builds the sentence `"<name> wields his sword, <sword>"`.
pub fn wield_phrase(name: &str, sword: &str) -> (r: String)
    ensures
        r@ == wield_sentence(name@, sword@),
{
    let mut s = name.to_owned();
    s.append(" wields his sword, ");
    s.append(sword);
    s
}

} // verus!
