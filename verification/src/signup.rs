//! The signup form.

use vstd::prelude::*;

verus! {

/// What a user submits to sign up.
pub struct SignUpForm {
    pub email: String,
    pub name: String,
    pub password: String,
}

} // verus!
