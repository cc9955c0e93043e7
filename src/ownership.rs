//! Small functions that show how values are moved, copied and cloned.
use vstd::prelude::*;

verus! {

/// A string literal is a shared reference, so it can be bound twice.
pub fn owner_one() -> (r: bool)
    ensures
        r,
{
    let s: &str = "owner";
    let t: &str = s;
    let same = s.unicode_len() == t.unicode_len();
    same
}

/// A `String` moves on assignment; cloning it gives an equal second value.
pub fn move_one() -> (r: bool)
    ensures
        r,
{
    let s = "owner".to_owned();
    let t = s;
    let s2 = t.clone();
    s2 == t
}

/// Booleans, characters and tuples of integers are copied on assignment:
/// changing the original leaves the copy as it was.
pub fn copy_scalars() -> (r: bool)
    ensures
        r,
{
    let mut a = true;
    let b = a;
    a = false;
    if a == b {
        return false;
    }
    let mut c = 'c';
    let cc = c;
    c = 'a';
    if c == cc {
        return false;
    }
    let t: (i32, i32) = (32, 42);
    let u = t;
    u.0 == t.0 && u.1 == t.1
}

/// Takes ownership of a string; it is dropped when the call ends.
pub fn ovc_takes_ownership(sstr: String) {
}

/// Takes a copy of an integer; the caller's value stays usable.
pub fn ovc_makes_copy(sint: i32) {
}

/// A moved `String` is gone, a copied integer is still there.
pub fn ownership_vs_copy() -> (r: bool)
    ensures
        r,
{
    let s = "hello".to_owned();
    ovc_takes_ownership(s);
    let x: i32 = 5;
    ovc_makes_copy(x);
    x == 5
}

/// Returns a fresh string, handing its ownership to the caller.
pub fn rvs_gives_ownership() -> (r: String)
    ensures
        r@ == "yours"@,
{
    let some_string = "yours".to_owned();
    some_string
}

/// Takes a string and hands the same string back.
pub fn rvs_takes_and_gives_back(s: String) -> (r: String)
    ensures
        r@ == s@,
{
    s
}

/// Ownership passes out of a function through its return value.
pub fn return_values_scope() -> (r: bool)
    ensures
        r,
{
    let s1 = rvs_gives_ownership();
    let s2 = "hello".to_owned();
    let s3 = rvs_takes_and_gives_back(s2);
    proof {
        reveal_strlit("yours");
        reveal_strlit("hello");
    }
    s1.as_str().unicode_len() == 5 && s3.as_str().unicode_len() == 5
}

} // verus!
