//! The server half of the authentication subsystem that is independent of
//! the PAKE arithmetic: the password-file store access, the table of
//! pending logins, the session table with its bearer tokens, and the three
//! per-request checks (bearer token, signature, freshness).
//!
//! The PAKE messages themselves are opaque byte strings produced and
//! consumed by outside code; a caller drives that code and hands this
//! component the plain values it decides over — the serialized pending
//! login state and the 64-byte session key a successful login yields.

use vstd::prelude::*;

verus! {

use vstd::string::StringExecFns;
use vstd::string::StringSliceAdditionalSpecFns;

use crate::crypto::bearer_token_of;
use crate::crypto::canonical_request;
use crate::crypto::constant_time_str_eq;
use crate::crypto::derive_bearer_token;
use crate::crypto::expected_signature;
use crate::crypto::hex_encode;
use crate::crypto::hmac_sha512;
use crate::crypto::now_unix_seconds;
use crate::errors::AuthenticationError;
use crate::ports::FileStorage;
use crate::session::Session;
use crate::str_map::StrMap;
use crate::timestamp::parse_u64;
use crate::timestamp::parses_as_u64;
use crate::timestamp::timestamp_is_fresh;
use crate::timestamp::timestamp_within_ttl;
use crate::timestamp::u64_value_of;

/// Every session of a table is indexed by exactly the bearer token its
/// stored key derives to, and carries that token in its `session_token`
/// field.
pub open spec fn sessions_tokened(sessions: Map<Seq<char>, Session>) -> bool {
    forall|t: Seq<char>| #[trigger]
        sessions.contains_key(t) ==> sessions[t].session_token@ == t && t == bearer_token_of(
            sessions[t].session_key@,
        )
}

/// The authentication state: password files behind a storage capability,
/// at most one pending login per username, and the session table.
pub struct AuthenticationCore<FS: FileStorage> {
    file_storage: FS,
    current_login_sessions: StrMap<Vec<u8>>,
    logged_sessions: StrMap<Session>,
    request_max_ttl: u64,
}

impl<FS: FileStorage> AuthenticationCore<FS> {
    /// The logged-in sessions, by bearer token.
    pub closed spec fn sessions(&self) -> Map<Seq<char>, Session> {
        self.logged_sessions@
    }

    /// The pending login states, by username.
    pub closed spec fn pending_logins(&self) -> Map<Seq<char>, Vec<u8>> {
        self.current_login_sessions@
    }

    /// The stored password files, by username.
    pub closed spec fn password_files(&self) -> Map<Seq<char>, Seq<u8>> {
        self.file_storage.files()
    }

    /// The freshness window for signed requests, in seconds.
    pub closed spec fn max_ttl(&self) -> u64 {
        self.request_max_ttl
    }

    /// The component invariant.
    pub closed spec fn inv(&self) -> bool {
        &&& self.file_storage.inv()
        &&& self.current_login_sessions.wf()
        &&& self.logged_sessions.wf()
        &&& sessions_tokened(self.sessions())
    }

    /// The session table only ever indexes a session under the bearer
    /// token derived from its stored key, so the token a client derives
    /// from its own copy of the session key is the one the server knows.
    pub proof fn lemma_sessions_indexed_by_derived_token(&self)
        requires
            self.inv(),
        ensures
            sessions_tokened(self.sessions()),
    {
    }

    /// Builds the component over a storage for password files, with empty
    /// pending and session tables.
    pub fn new(file_storage: FS, request_max_ttl: u64) -> (r: AuthenticationCore<FS>)
        requires
            file_storage.inv(),
        ensures
            r.inv(),
            r.sessions() == Map::<Seq<char>, Session>::empty(),
            r.pending_logins() == Map::<Seq<char>, Vec<u8>>::empty(),
            r.password_files() == file_storage.files(),
            r.max_ttl() == request_max_ttl,
    {
        AuthenticationCore {
            file_storage,
            current_login_sessions: StrMap::new(),
            logged_sessions: StrMap::new(),
            request_max_ttl,
        }
    }

    /// Reads the password file registered for a username; a missing or
    /// unreadable file is a retrieval failure, so that login treats it as
    /// an authorization problem, not an internal one.
    pub fn retrieve_password_file(&self, username: &str) -> (r: Result<Vec<u8>, AuthenticationError>)
        requires
            self.inv(),
        ensures
            r matches Ok(content) ==> self.password_files().contains_key(username@) && content@
                == self.password_files()[username@],
            r matches Err(e) ==> e is PasswordFileRetrieve,
            !self.password_files().contains_key(username@) ==> r is Err,
    {
        match self.file_storage.retrieve(username) {
            Ok(content) => Ok(content),
            Err(error) => Err(AuthenticationError::PasswordFileRetrieve(error.message())),
        }
    }

    /// Stores the password file a completed registration produced,
    /// overwriting any previous one.
    pub fn save_password_file(&mut self, username: &str, password_file: Vec<u8>) -> (r: Result<
        (),
        AuthenticationError,
    >)
        requires
            old(self).inv(),
        ensures
            final(self).inv(),
            r is Ok ==> final(self).password_files() == old(self).password_files().insert(
                username@,
                password_file@,
            ),
            r matches Err(e) ==> e is PasswordFileSave && final(self).password_files() == old(
                self,
            ).password_files(),
            final(self).sessions() == old(self).sessions(),
            final(self).pending_logins() == old(self).pending_logins(),
            final(self).max_ttl() == old(self).max_ttl(),
    {
        match self.file_storage.save(username, password_file) {
            Ok(()) => Ok(()),
            Err(error) => Err(AuthenticationError::PasswordFileSave(error.message())),
        }
    }

    /// Records the pending login state for a username, replacing any state
    /// an earlier login attempt left.
    pub fn store_pending_login(&mut self, username: &str, login_state: Vec<u8>)
        requires
            old(self).inv(),
        ensures
            final(self).inv(),
            final(self).pending_logins() == old(self).pending_logins().insert(
                username@,
                login_state,
            ),
            final(self).sessions() == old(self).sessions(),
            final(self).password_files() == old(self).password_files(),
            final(self).max_ttl() == old(self).max_ttl(),
    {
        self.current_login_sessions.insert(username, login_state);
    }

    /// Takes the pending login state for a username, leaving none behind:
    /// each login start is good for one finish, whatever its outcome. A
    /// username that never started a login is refused.
    pub fn take_pending_login(&mut self, username: &str) -> (r: Result<Vec<u8>, AuthenticationError>)
        requires
            old(self).inv(),
        ensures
            final(self).inv(),
            old(self).pending_logins().contains_key(username@) ==> (r matches Ok(state) && state
                == old(self).pending_logins()[username@] && final(self).pending_logins() == old(
                self,
            ).pending_logins().remove(username@)),
            !old(self).pending_logins().contains_key(username@) ==> (r matches Err(e)
                && e matches AuthenticationError::Login(m) && m@
                == "Username did not start login phase."@ && final(self).pending_logins() == old(
                self,
            ).pending_logins()),
            final(self).sessions() == old(self).sessions(),
            final(self).password_files() == old(self).password_files(),
            final(self).max_ttl() == old(self).max_ttl(),
    {
        match self.current_login_sessions.remove(username) {
            Some(state) => Ok(state),
            None => Err(
                AuthenticationError::Login(String::from_str("Username did not start login phase.")),
            ),
        }
    }

    /// Derives the bearer token from a session key and indexes the new
    /// session under it. A key the token derivation refuses — one shorter
    /// than 64 bytes — fails session creation and changes nothing.
    pub fn create_session(&mut self, session_key: &[u8], username: &str) -> (r: Result<
        (),
        AuthenticationError,
    >)
        requires
            old(self).inv(),
        ensures
            final(self).inv(),
            r is Ok <==> session_key@.len() >= 64,
            r is Ok ==> {
                let token = bearer_token_of(session_key@);
                &&& final(self).sessions().contains_key(token)
                &&& final(self).sessions()[token].session_key@ == session_key@
                &&& final(self).sessions()[token].session_token@ == token
                &&& final(self).sessions()[token].username@ == username@
                &&& final(self).sessions() == old(self).sessions().insert(
                    token,
                    final(self).sessions()[token],
                )
            },
            r matches Err(e) ==> (e matches AuthenticationError::CreatingSession(m) && m@
                == "invalid pseudorandom key length, too short"@ && final(self).sessions() == old(
                self,
            ).sessions()),
            final(self).pending_logins() == old(self).pending_logins(),
            final(self).password_files() == old(self).password_files(),
            final(self).max_ttl() == old(self).max_ttl(),
    {
        let session_token = match derive_bearer_token(session_key) {
            Ok(token) => token,
            Err(message) => {
                return Err(AuthenticationError::CreatingSession(message));
            },
        };
        let key_copy = vstd::slice::slice_to_vec(session_key);
        let token_copy = session_token.clone();
        let username_copy = String::from_str(username);
        let session = Session::new(key_copy, token_copy, username_copy);
        self.logged_sessions.insert(session_token.as_str(), session);
        Ok(())
    }

    /// Whether a bearer token names a logged-in session.
    pub fn verify_bearer_token(&self, bearer_token: &str) -> (r: bool)
        requires
            self.inv(),
        ensures
            r == self.sessions().contains_key(bearer_token@),
    {
        self.logged_sessions.contains_key(bearer_token)
    }

    /// Checks a presented signature against the one the session key of the
    /// bearer token demands for `verb|uri|timestamp`, comparing in constant
    /// time. An unknown bearer token verifies nothing.
    pub fn verify_signature(
        &self,
        bearer_token: &str,
        verb: &str,
        uri: &str,
        timestamp: &str,
        signature: &str,
    ) -> (r: Result<bool, AuthenticationError>)
        requires
            self.inv(),
        ensures
            self.sessions().contains_key(bearer_token@) ==> (r matches Ok(b) && b == (signature@
                == expected_signature(
                self.sessions()[bearer_token@].session_key@,
                verb@,
                uri@,
                timestamp@,
            ))),
            !self.sessions().contains_key(bearer_token@) ==> (r matches Ok(b) && !b),
    {
        let mut canonical = String::from_str(verb);
        canonical.append("|");
        canonical.append(uri);
        canonical.append("|");
        canonical.append(timestamp);
        proof {
            assert(canonical@ =~= canonical_request(verb@, uri@, timestamp@));
        }
        let session = match self.logged_sessions.get(bearer_token) {
            Some(session) => session,
            None => {
                return Ok(false);
            },
        };
        match hmac_sha512(session.session_key.as_slice(), canonical.as_str().as_bytes()) {
            Ok(tag) => {
                let expected = hex_encode(tag.as_slice());
                Ok(constant_time_str_eq(signature, expected.as_str()))
            },
            Err(message) => Err(AuthenticationError::Internal(message)),
        }
    }

    /// Decides freshness of a request timestamp against a given wall-clock
    /// reading: fresh exactly when its saturating age is within the
    /// freshness window. A timestamp that is not a decimal 64-bit number
    /// is an internal error.
    pub fn verify_request_timestamp_at(&self, now: u64, request_creation_timestamp: &str) -> (r:
        Result<bool, AuthenticationError>)
        requires
            self.inv(),
        ensures
            parses_as_u64(request_creation_timestamp@) ==> (r matches Ok(fresh) && fresh
                == timestamp_is_fresh(
                now,
                u64_value_of(request_creation_timestamp@) as u64,
                self.max_ttl(),
            )),
            !parses_as_u64(request_creation_timestamp@) ==> (r matches Err(e) && e is Internal),
    {
        match parse_u64(request_creation_timestamp) {
            Some(timestamp) => Ok(timestamp_within_ttl(now, timestamp, self.request_max_ttl)),
            None => Err(
                AuthenticationError::Internal(String::from_str("invalid digit found in string")),
            ),
        }
    }

    /// Reads the wall clock and decides freshness of a request timestamp
    /// against it. Whatever the clock read, a timestamp that is not a
    /// decimal 64-bit number is an internal error, and so is a clock
    /// failure.
    pub fn verify_request_timestamp(&self, request_creation_timestamp: &str) -> (r: Result<
        bool,
        AuthenticationError,
    >)
        requires
            self.inv(),
        ensures
            r matches Ok(fresh) ==> parses_as_u64(request_creation_timestamp@),
            !parses_as_u64(request_creation_timestamp@) ==> (r matches Err(e) && e is Internal),
            r matches Err(e) ==> e is Internal,
    {
        let now = match now_unix_seconds() {
            Ok(now) => now,
            Err(message) => {
                return Err(AuthenticationError::Internal(message));
            },
        };
        self.verify_request_timestamp_at(now, request_creation_timestamp)
    }

    /// The username of the session a bearer token names; asking for an
    /// unknown token is an internal error, as the bearer check comes first.
    pub fn get_username_from_session(&self, bearer_token: &str) -> (r: Result<
        String,
        AuthenticationError,
    >)
        requires
            self.inv(),
        ensures
            self.sessions().contains_key(bearer_token@) ==> (r matches Ok(u) && u@
                == self.sessions()[bearer_token@].username@),
            !self.sessions().contains_key(bearer_token@) ==> (r matches Err(e) && e is Internal),
    {
        match self.logged_sessions.get(bearer_token) {
            Some(session) => Ok(session.username.clone()),
            None => Err(
                AuthenticationError::Internal(
                    String::from_str(
                        "Session should be present, checks should have been performed before.",
                    ),
                ),
            ),
        }
    }
}

} // verus!
