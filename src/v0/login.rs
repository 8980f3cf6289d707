//! The identity behind a login.

use vstd::prelude::*;

verus! {

pub struct Login {
    pub username: String,
    pub hostname: String,
}

} // verus!
