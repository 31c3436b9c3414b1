use vstd::prelude::*;

verus! {

/// A flat user record: an identifier, a display name and an email address.
pub struct User {
    pub id: i32,
    pub name: String,
    pub email: String,
}

} // verus!
