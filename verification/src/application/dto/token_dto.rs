//! The claims that an access token carries.
use vstd::prelude::*;

verus! {

/// Subject (user id), user name, expiry and issue time in seconds since the Unix epoch.
#[derive(Debug)]
pub struct Claims {
    pub sub: u128,
    pub username: String,
    pub exp: usize,
    pub iat: usize,
}

} // verus!
