//! The capability contracts the domain is parameterized by: byte-blob
//! persistence, the per-user vault store, and the authentication component.
//! The domain facade is verified against these contracts alone; which
//! concrete storage or authentication stands behind them is a caller's
//! choice.

use vstd::prelude::*;

verus! {

use crate::crypto::expected_signature;
use crate::errors::AuthenticationError;
use crate::errors::FileStorageError;
use crate::errors::VaultStoreError;
use crate::session::Session;
use crate::timestamp::parses_as_u64;

/// Named byte-blob persistence under a string key.
///
/// The abstract state is the map `files()` from names to contents. A
/// retrieval that returns bytes returns exactly the stored bytes; a name
/// with no stored blob is reported as not found; a save either stores the
/// exact bytes or leaves the state unchanged.
pub trait FileStorage: Sized {
    /// The blobs stored, by name.
    open spec fn files(&self) -> Map<Seq<char>, Seq<u8>> {
        Map::empty()
    }

    /// Whether the storage is in a usable state.
    open spec fn inv(&self) -> bool {
        true
    }

    /// Opens the storage rooted at a path.
    fn new(path: String) -> (r: Self)
        ensures
            r.inv(),
    ;

    /// Reads the blob stored under a name.
    fn retrieve(&self, file_name: &str) -> (r: Result<Vec<u8>, FileStorageError>)
        requires
            self.inv(),
        ensures
            r matches Ok(content) ==> self.files().contains_key(file_name@) && content@
                == self.files()[file_name@],
            !self.files().contains_key(file_name@) ==> (r matches Err(e)
                && e is FileNotFound),
    ;

    /// Stores a blob under a name, overwriting any previous one.
    fn save(&mut self, file_name: &str, content: Vec<u8>) -> (r: Result<(), FileStorageError>)
        requires
            old(self).inv(),
        ensures
            final(self).inv(),
            r is Ok ==> final(self).files() == old(self).files().insert(file_name@, content@),
            r is Err ==> final(self).files() == old(self).files(),
    ;
}

/// Per-user vault persistence.
///
/// The abstract state is the map `vaults()` from usernames to vault bytes,
/// with the same reading-back guarantees as `FileStorage`.
pub trait VaultStore: Sized {
    /// The vault blobs stored, by username.
    open spec fn vaults(&self) -> Map<Seq<char>, Seq<u8>> {
        Map::empty()
    }

    /// Whether the store is in a usable state.
    open spec fn inv(&self) -> bool {
        true
    }

    /// Reads a user's vault.
    fn retrieve(&self, username: &str) -> (r: Result<Vec<u8>, VaultStoreError>)
        requires
            self.inv(),
        ensures
            r matches Ok(vault) ==> self.vaults().contains_key(username@) && vault@
                == self.vaults()[username@],
            !self.vaults().contains_key(username@) ==> (r matches Err(e)
                && e is VaultNotFound),
    ;

    /// Stores a user's vault, overwriting any previous one.
    fn save(&mut self, username: &str, vault: Vec<u8>) -> (r: Result<(), VaultStoreError>)
        requires
            old(self).inv(),
        ensures
            final(self).inv(),
            r is Ok ==> final(self).vaults() == old(self).vaults().insert(username@, vault@),
            r is Err ==> final(self).vaults() == old(self).vaults(),
    ;
}

/// The authentication component: the two registration and two login halves
/// of the aPAKE, and the three per-request checks.
///
/// The abstract state `sessions()` is the table of logged-in sessions by
/// bearer token. The protocol halves run outside code and promise nothing
/// of their results beyond how they treat the session table; the three
/// checks are pinned down exactly.
pub trait Authentication: Sized {
    /// The logged-in sessions, by bearer token.
    open spec fn sessions(&self) -> Map<Seq<char>, Session> {
        Map::empty()
    }

    /// The stored password files, by username.
    open spec fn password_files(&self) -> Map<Seq<char>, Seq<u8>> {
        Map::empty()
    }

    /// The pending login states, by username.
    open spec fn pending_logins(&self) -> Map<Seq<char>, Seq<u8>> {
        Map::empty()
    }

    /// The freshness window for signed requests, in seconds.
    open spec fn max_ttl(&self) -> u64 {
        0
    }

    /// Whether the component is in a usable state.
    open spec fn inv(&self) -> bool {
        true
    }

    /// Answers the first registration message; stateless on the server. A
    /// failure is a malformed message or a protocol error, nothing else.
    fn start_server_registration(&self, username: &str, client_registration_message: Vec<u8>) -> (r:
        Result<Vec<u8>, AuthenticationError>)
        requires
            self.inv(),
        ensures
            r matches Err(e) ==> e is Deserialization || e is Registration,
    ;

    /// Consumes the final registration message and persists the password
    /// file, overwriting any envelope stored for the username before and
    /// touching no other user's; on failure nothing is stored. The session
    /// and pending tables are untouched.
    fn finish_server_registration(
        &mut self,
        username: &str,
        client_registration_message: Vec<u8>,
    ) -> (r: Result<(), AuthenticationError>)
        requires
            old(self).inv(),
        ensures
            final(self).inv(),
            r is Ok ==> exists|envelope: Seq<u8>|
                final(self).password_files() == old(self).password_files().insert(
                    username@,
                    envelope,
                ),
            r matches Err(e) ==> (e is Deserialization || e is PasswordFileSave)
                && final(self).password_files() == old(self).password_files(),
            final(self).sessions() == old(self).sessions(),
            final(self).pending_logins() == old(self).pending_logins(),
            final(self).max_ttl() == old(self).max_ttl(),
    ;

    /// Answers the first login message and stores the pending login state,
    /// replacing any state an earlier attempt left for the username and
    /// touching no other user's; a username with no stored password file is
    /// refused as a retrieval failure, so that account existence is not
    /// leaked. The session table is untouched.
    fn start_server_login(&mut self, username: &str, client_login_message: Vec<u8>) -> (r: Result<
        Vec<u8>,
        AuthenticationError,
    >)
        requires
            old(self).inv(),
        ensures
            final(self).inv(),
            !old(self).password_files().contains_key(username@) ==> (r matches Err(e)
                && e is PasswordFileRetrieve),
            r is Ok ==> exists|login_state: Seq<u8>|
                final(self).pending_logins() == old(self).pending_logins().insert(
                    username@,
                    login_state,
                ),
            r matches Err(e) ==> (e is PasswordFileRetrieve || e is Deserialization
                || e is Login) && final(self).pending_logins() == old(self).pending_logins(),
            final(self).sessions() == old(self).sessions(),
            final(self).password_files() == old(self).password_files(),
            final(self).max_ttl() == old(self).max_ttl(),
    ;

    /// Consumes the final login message together with the pending login
    /// state, which is spent whatever the outcome — one finish per start,
    /// and a failed finish does not restore it. A username that never
    /// started a login is refused. On success the session table gains
    /// exactly one session, indexed under the bearer token its key derives
    /// to and carrying that token and the username; on failure the session
    /// table is untouched.
    fn finish_server_login(&mut self, username: &str, client_login_message: Vec<u8>) -> (r: Result<
        (),
        AuthenticationError,
    >)
        requires
            old(self).inv(),
        ensures
            final(self).inv(),
            !old(self).pending_logins().contains_key(username@) ==> (r matches Err(e)
                && e is Login && final(self).sessions() == old(self).sessions()
                && final(self).pending_logins() == old(self).pending_logins()),
            old(self).pending_logins().contains_key(username@) ==> final(self).pending_logins()
                == old(self).pending_logins().remove(username@),
            r is Ok ==> exists|session_key: Seq<u8>|
                #![trigger crate::crypto::bearer_token_of(session_key)]
                {
                    let token = crate::crypto::bearer_token_of(session_key);
                    &&& session_key.len() >= 64
                    &&& final(self).sessions().contains_key(token)
                    &&& final(self).sessions()[token].session_key@ == session_key
                    &&& final(self).sessions()[token].session_token@ == token
                    &&& final(self).sessions()[token].username@ == username@
                    &&& final(self).sessions() == old(self).sessions().insert(
                        token,
                        final(self).sessions()[token],
                    )
                },
            r matches Err(e) ==> (e is Login || e is CreatingSession) && final(self).sessions()
                == old(self).sessions(),
            final(self).password_files() == old(self).password_files(),
            final(self).max_ttl() == old(self).max_ttl(),
    ;

    /// Whether a bearer token names a logged-in session.
    fn verify_bearer_token(&self, bearer_token: &str) -> (r: bool)
        requires
            self.inv(),
        ensures
            r == self.sessions().contains_key(bearer_token@),
    ;

    /// Whether a presented signature is the HMAC-SHA-512 signature of
    /// `verb|uri|timestamp` under the session key of the bearer token; an
    /// unknown token verifies nothing.
    fn verify_signature(
        &self,
        bearer_token: &str,
        verb: &str,
        uri: &str,
        timestamp: &str,
        signature: &str,
    ) -> (r: Result<bool, AuthenticationError>)
        requires
            self.inv(),
        ensures
            self.sessions().contains_key(bearer_token@) ==> (r matches Ok(b) && b == (signature@
                == expected_signature(
                self.sessions()[bearer_token@].session_key@,
                verb@,
                uri@,
                timestamp@,
            ))),
            !self.sessions().contains_key(bearer_token@) ==> (r matches Ok(b) && !b),
    ;

    /// Whether a request timestamp is still within the freshness window; a
    /// timestamp that is not a decimal 64-bit number is an internal error.
    fn verify_request_timestamp(&self, request_creation_timestamp: &str) -> (r: Result<
        bool,
        AuthenticationError,
    >)
        requires
            self.inv(),
        ensures
            !parses_as_u64(request_creation_timestamp@) ==> (r matches Err(e) && e is Internal),
            r matches Err(e) ==> e is Internal,
    ;

    /// The username of the session a bearer token names.
    fn get_username_from_session(&self, bearer_token: &str) -> (r: Result<
        String,
        AuthenticationError,
    >)
        requires
            self.inv(),
        ensures
            self.sessions().contains_key(bearer_token@) ==> (r matches Ok(u) && u@
                == self.sessions()[bearer_token@].username@),
            !self.sessions().contains_key(bearer_token@) ==> (r matches Err(e) && e is Internal),
    ;
}

} // verus!
