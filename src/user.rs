use vstd::prelude::*;

verus! {

/// An account holder.
#[derive(Debug, Clone)]
pub struct User {
    pub username: String,
    pub email: String,
    pub sign_in_count: u64,
    pub active: bool,
}

/// A fresh, active user that has never signed in.
pub fn build_user(email: String, username: String) -> (r: User)
    ensures
        r.email@ == email@,
        r.username@ == username@,
        r.sign_in_count == 0,
        r.active,
{
    User { email, username, sign_in_count: 0, active: true }
}

} // verus!
