//! A logged-in session: the 64-byte key agreed by the PAKE, the bearer
//! token derived from it, and the user it belongs to.

use vstd::prelude::*;

verus! {

/// One entry of the session table.
#[derive(Debug, Default)]
pub struct Session {
    pub session_key: Vec<u8>,
    pub session_token: String,
    pub username: String,
}

impl Session {
    /// Packs a session from its three parts.
    pub fn new(session_key: Vec<u8>, session_token: String, username: String) -> (r: Session)
        ensures
            r.session_key == session_key,
            r.session_token == session_token,
            r.username == username,
    {
        Session { session_key, session_token, username }
    }
}

} // verus!
