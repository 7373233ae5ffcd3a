//! The forms of the user endpoints.

use vstd::prelude::*;

verus! {

/// The form of a registration.
#[derive(Debug)]
pub struct RegisterUser {
    pub username: String,
    pub email: String,
    pub password: String,
}

/// The form of a change to a user; what is `None` is not to change.
#[derive(Debug)]
pub struct PatchUser {
    pub username: Option<String>,
    pub email: Option<String>,
    pub password: Option<String>,
}

} // verus!
