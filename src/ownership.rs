use vstd::prelude::*;

verus! {

/// A newly allocated string that the caller owns.
pub fn gives_ownership() -> (r: String)
    ensures
        r@ == "Hello"@,
{
    let some_string: String = "Hello".to_owned();
    some_string
}

} // verus!
