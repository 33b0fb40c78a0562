//! Password sign-in with the AT Protocol.

use vstd::prelude::*;

verus! {

/// Authenticated session data.
#[derive(Debug, PartialEq, Eq)]
pub struct Session {
    pub did: String,
    pub handle: String,
}

/// Login credentials.
#[derive(Debug)]
pub struct LoginRequest {
    pub identifier: String,
    pub password: String,
}

impl Session {
    /// The session of the account `did`, known by `handle`.
    pub fn new(did: String, handle: String) -> (r: Session)
        ensures
            r.did == did,
            r.handle == handle,
    {
        Session { did, handle }
    }
}

} // verus!
