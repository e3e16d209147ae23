//! The domain facade: composes authentication, the request authorizer and
//! the vault store, and exposes the six operations of the service. Every
//! authenticated vault access runs the same pipeline — bearer token,
//! signature, freshness — before any byte of a vault is touched.

use vstd::prelude::*;

verus! {

use vstd::string::StringExecFns;

use crate::crypto::expected_signature;
use crate::errors::auth_error_to_domain_error;
use crate::errors::authentication_error_to_server_domain_error;
use crate::errors::vault_store_error_to_server_domain_error;
use crate::errors::ServerDomainError;
use crate::ports::Authentication;
use crate::ports::VaultStore;
use crate::session::Session;
use crate::timestamp::parses_as_u64;

/// The six operations of the service, over abstract vault and session
/// state. The four handshake operations are open to anyone; the two vault
/// operations demand an authorized request.
pub trait Domain<VS: VaultStore, A: Authentication>: Sized {
    /// The vault blobs stored, by username.
    spec fn vaults(&self) -> Map<Seq<char>, Seq<u8>>;

    /// The logged-in sessions, by bearer token.
    spec fn sessions(&self) -> Map<Seq<char>, Session>;

    /// The stored password files, by username.
    spec fn password_files(&self) -> Map<Seq<char>, Seq<u8>>;

    /// The pending login states, by username.
    spec fn pending_logins(&self) -> Map<Seq<char>, Seq<u8>>;

    /// Whether the facade is in a usable state.
    spec fn inv(&self) -> bool;

    /// Starts a registration handshake; a failure is internal, never an
    /// authorization verdict.
    fn start_server_registration(&self, username: &str, client_message: Vec<u8>) -> (r: Result<
        Vec<u8>,
        ServerDomainError,
    >)
        requires
            self.inv(),
        ensures
            r matches Err(e) ==> e is Internal,
    ;

    /// Finishes a registration handshake: persists the password file —
    /// overwriting any envelope the username had and touching no other
    /// user's — and initializes the user's vault to the empty byte string,
    /// so that a first authenticated read observes an empty vault, not an
    /// error.
    fn finish_server_registration(&mut self, username: &str, client_message: Vec<u8>) -> (r: Result<
        (),
        ServerDomainError,
    >)
        requires
            old(self).inv(),
        ensures
            final(self).inv(),
            r is Ok ==> final(self).vaults() == old(self).vaults().insert(
                username@,
                Seq::<u8>::empty(),
            ),
            r is Ok ==> exists|envelope: Seq<u8>|
                final(self).password_files() == old(self).password_files().insert(
                    username@,
                    envelope,
                ),
            r matches Err(e) ==> e is Internal && final(self).vaults() == old(self).vaults(),
            final(self).sessions() == old(self).sessions(),
    ;

    /// Starts a login handshake, storing the pending login state for the
    /// username and replacing any earlier one. A username that never
    /// finished a registration is refused with `Forbidden`: an absent
    /// password file must be indistinguishable from a wrong password.
    fn start_server_login(&mut self, username: &str, client_message: Vec<u8>) -> (r: Result<
        Vec<u8>,
        ServerDomainError,
    >)
        requires
            old(self).inv(),
        ensures
            final(self).inv(),
            !old(self).password_files().contains_key(username@) ==> (r matches Err(e)
                && e is Forbidden),
            r is Ok ==> exists|login_state: Seq<u8>|
                final(self).pending_logins() == old(self).pending_logins().insert(
                    username@,
                    login_state,
                ),
            r is Err ==> final(self).pending_logins() == old(self).pending_logins(),
            final(self).sessions() == old(self).sessions(),
            final(self).vaults() == old(self).vaults(),
    ;

    /// Finishes a login handshake. A username that never started one is
    /// refused; a pending login is spent whatever the outcome; on success
    /// the session table gains exactly one session, indexed under the
    /// bearer token its key derives to; a failed finish creates no session.
    fn finish_server_login(&mut self, username: &str, client_message: Vec<u8>) -> (r: Result<
        (),
        ServerDomainError,
    >)
        requires
            old(self).inv(),
        ensures
            final(self).inv(),
            old(self).pending_logins().contains_key(username@) ==> final(self).pending_logins()
                == old(self).pending_logins().remove(username@),
            !old(self).pending_logins().contains_key(username@) ==> (r matches Err(e)
                && e is Internal && final(self).sessions() == old(self).sessions()),
            r is Ok ==> exists|session_key: Seq<u8>|
                #![trigger crate::crypto::bearer_token_of(session_key)]
                {
                    let token = crate::crypto::bearer_token_of(session_key);
                    &&& session_key.len() >= 64
                    &&& final(self).sessions().contains_key(token)
                    &&& final(self).sessions()[token].session_key@ == session_key
                    &&& final(self).sessions()[token].session_token@ == token
                    &&& final(self).sessions()[token].username@ == username@
                    &&& final(self).sessions() == old(self).sessions().insert(
                        token,
                        final(self).sessions()[token],
                    )
                },
            r matches Err(e) ==> e is Internal && final(self).sessions() == old(self).sessions(),
            final(self).vaults() == old(self).vaults(),
    ;

    /// Reads the vault of the user an authorized request names: exactly the
    /// bytes last stored for that user.
    fn get_vault(
        &self,
        bearer_token: &str,
        verb: &str,
        uri: &str,
        timestamp: &str,
        signature: &str,
    ) -> (r: Result<Vec<u8>, ServerDomainError>)
        requires
            self.inv(),
        ensures
            !self.sessions().contains_key(bearer_token@) ==> (r matches Err(e) && e matches
                ServerDomainError::Forbidden(m) && m@ == "Invalid bearer token."@),
            self.sessions().contains_key(bearer_token@) && signature@ != expected_signature(
                self.sessions()[bearer_token@].session_key@,
                verb@,
                uri@,
                timestamp@,
            ) ==> (r matches Err(e) && e matches ServerDomainError::Forbidden(m) && m@
                == "Invalid request signature."@),
            r matches Ok(vault) ==> {
                let username = self.sessions()[bearer_token@].username@;
                &&& self.sessions().contains_key(bearer_token@)
                &&& signature@ == expected_signature(
                    self.sessions()[bearer_token@].session_key@,
                    verb@,
                    uri@,
                    timestamp@,
                )
                &&& parses_as_u64(timestamp@)
                &&& self.vaults().contains_key(username)
                &&& vault@ == self.vaults()[username]
            },
            self.sessions().contains_key(bearer_token@) && signature@ == expected_signature(
                self.sessions()[bearer_token@].session_key@,
                verb@,
                uri@,
                timestamp@,
            ) && parses_as_u64(timestamp@) ==> r is Ok || (r matches Err(e) && ((e matches
                ServerDomainError::Forbidden(m) && m@
                == "Invalid request, it outlived its duration."@) || e is Internal)),
    ;

    /// Stores the vault of the user an authorized request names; an
    /// unauthorized request stores nothing.
    fn save_vault(
        &mut self,
        bearer_token: &str,
        verb: &str,
        uri: &str,
        timestamp: &str,
        signature: &str,
        vault: Vec<u8>,
    ) -> (r: Result<(), ServerDomainError>)
        requires
            old(self).inv(),
        ensures
            final(self).inv(),
            !old(self).sessions().contains_key(bearer_token@) ==> (r matches Err(e) && e matches
                ServerDomainError::Forbidden(m) && m@ == "Invalid bearer token."@),
            old(self).sessions().contains_key(bearer_token@) && signature@ != expected_signature(
                old(self).sessions()[bearer_token@].session_key@,
                verb@,
                uri@,
                timestamp@,
            ) ==> (r matches Err(e) && e matches ServerDomainError::Forbidden(m) && m@
                == "Invalid request signature."@),
            r is Ok ==> {
                let username = old(self).sessions()[bearer_token@].username@;
                &&& old(self).sessions().contains_key(bearer_token@)
                &&& signature@ == expected_signature(
                    old(self).sessions()[bearer_token@].session_key@,
                    verb@,
                    uri@,
                    timestamp@,
                )
                &&& parses_as_u64(timestamp@)
                &&& final(self).vaults() == old(self).vaults().insert(username, vault@)
            },
            r is Err ==> final(self).vaults() == old(self).vaults(),
            old(self).sessions().contains_key(bearer_token@) && signature@ == expected_signature(
                old(self).sessions()[bearer_token@].session_key@,
                verb@,
                uri@,
                timestamp@,
            ) && parses_as_u64(timestamp@) ==> r is Ok || (r matches Err(e) && ((e matches
                ServerDomainError::Forbidden(m) && m@
                == "Invalid request, it outlived its duration."@) || e is Internal)),
            final(self).sessions() == old(self).sessions(),
    ;
}

/// The concrete facade over a vault store and an authentication component.
pub struct ServerDomain<VS: VaultStore, A: Authentication> {
    vault_store: VS,
    authentication: A,
}

impl<VS: VaultStore, A: Authentication> ServerDomain<VS, A> {
    /// Composes the facade from its two capabilities.
    pub fn new(vault_store: VS, authentication: A) -> (r: ServerDomain<VS, A>)
        requires
            vault_store.inv(),
            authentication.inv(),
        ensures
            r.inv(),
            r.vaults() == vault_store.vaults(),
            r.sessions() == authentication.sessions(),
            r.password_files() == authentication.password_files(),
    {
        ServerDomain { vault_store, authentication }
    }

    /// Runs the authorization pipeline in order — bearer token, signature,
    /// freshness — and returns the username the session belongs to.
    pub fn verify_request_and_get_username(
        &self,
        bearer_token: &str,
        verb: &str,
        uri: &str,
        timestamp: &str,
        signature: &str,
    ) -> (r: Result<String, ServerDomainError>)
        requires
            self.inv(),
        ensures
            !self.sessions().contains_key(bearer_token@) ==> (r matches Err(e) && e matches
                ServerDomainError::Forbidden(m) && m@ == "Invalid bearer token."@),
            self.sessions().contains_key(bearer_token@) && signature@ != expected_signature(
                self.sessions()[bearer_token@].session_key@,
                verb@,
                uri@,
                timestamp@,
            ) ==> (r matches Err(e) && e matches ServerDomainError::Forbidden(m) && m@
                == "Invalid request signature."@),
            self.sessions().contains_key(bearer_token@) && signature@ == expected_signature(
                self.sessions()[bearer_token@].session_key@,
                verb@,
                uri@,
                timestamp@,
            ) && !parses_as_u64(timestamp@) ==> (r matches Err(e) && e is Internal),
            r matches Ok(username) ==> {
                &&& self.sessions().contains_key(bearer_token@)
                &&& username@ == self.sessions()[bearer_token@].username@
                &&& signature@ == expected_signature(
                    self.sessions()[bearer_token@].session_key@,
                    verb@,
                    uri@,
                    timestamp@,
                )
                &&& parses_as_u64(timestamp@)
            },
            self.sessions().contains_key(bearer_token@) && signature@ == expected_signature(
                self.sessions()[bearer_token@].session_key@,
                verb@,
                uri@,
                timestamp@,
            ) && parses_as_u64(timestamp@) ==> (r matches Ok(username) && username@
                == self.sessions()[bearer_token@].username@) || (r matches Err(e) && ((e matches
                ServerDomainError::Forbidden(m) && m@
                == "Invalid request, it outlived its duration."@) || e is Internal)),
    {
        if !self.authentication.verify_bearer_token(bearer_token) {
            return Err(ServerDomainError::Forbidden(String::from_str("Invalid bearer token.")));
        }
        match self.authentication.verify_signature(bearer_token, verb, uri, timestamp, signature) {
            Ok(true) => (),
            Ok(false) => {
                return Err(
                    ServerDomainError::Forbidden(String::from_str("Invalid request signature.")),
                );
            },
            Err(error) => {
                return Err(ServerDomainError::Internal(error.message()));
            },
        }
        match self.authentication.verify_request_timestamp(timestamp) {
            Ok(true) => (),
            Ok(false) => {
                return Err(
                    ServerDomainError::Forbidden(
                        String::from_str("Invalid request, it outlived its duration."),
                    ),
                );
            },
            Err(error) => {
                return Err(ServerDomainError::Internal(error.message()));
            },
        }
        match self.authentication.get_username_from_session(bearer_token) {
            Ok(username) => Ok(username),
            Err(error) => Err(authentication_error_to_server_domain_error(error)),
        }
    }
}

impl<VS: VaultStore, A: Authentication> Domain<VS, A> for ServerDomain<VS, A> {
    closed spec fn vaults(&self) -> Map<Seq<char>, Seq<u8>> {
        self.vault_store.vaults()
    }

    closed spec fn sessions(&self) -> Map<Seq<char>, Session> {
        self.authentication.sessions()
    }

    closed spec fn password_files(&self) -> Map<Seq<char>, Seq<u8>> {
        self.authentication.password_files()
    }

    closed spec fn pending_logins(&self) -> Map<Seq<char>, Seq<u8>> {
        self.authentication.pending_logins()
    }

    closed spec fn inv(&self) -> bool {
        self.vault_store.inv() && self.authentication.inv()
    }

    fn start_server_registration(&self, username: &str, client_message: Vec<u8>) -> (r: Result<
        Vec<u8>,
        ServerDomainError,
    >) {
        match self.authentication.start_server_registration(username, client_message) {
            Ok(response) => Ok(response),
            Err(error) => Err(authentication_error_to_server_domain_error(error)),
        }
    }

    fn finish_server_registration(&mut self, username: &str, client_message: Vec<u8>) -> (r: Result<
        (),
        ServerDomainError,
    >) {
        match self.authentication.finish_server_registration(username, client_message) {
            Ok(()) => (),
            Err(error) => {
                return Err(authentication_error_to_server_domain_error(error));
            },
        }
        proof {
            let envelope = choose|envelope: Seq<u8>|
                self.authentication.password_files() == old(
                    self,
                ).authentication.password_files().insert(username@, envelope);
            assert(self.password_files() == old(self).password_files().insert(
                username@,
                envelope,
            ));
        }
        match self.vault_store.save(username, Vec::new()) {
            Ok(()) => Ok(()),
            Err(error) => Err(vault_store_error_to_server_domain_error(error)),
        }
    }

    fn start_server_login(&mut self, username: &str, client_message: Vec<u8>) -> (r: Result<
        Vec<u8>,
        ServerDomainError,
    >) {
        match self.authentication.start_server_login(username, client_message) {
            Ok(response) => {
                proof {
                    let login_state = choose|login_state: Seq<u8>|
                        self.authentication.pending_logins() == old(
                            self,
                        ).authentication.pending_logins().insert(username@, login_state);
                    assert(self.pending_logins() == old(self).pending_logins().insert(
                        username@,
                        login_state,
                    ));
                }
                Ok(response)
            },
            Err(error) => Err(authentication_error_to_server_domain_error(error)),
        }
    }

    fn finish_server_login(&mut self, username: &str, client_message: Vec<u8>) -> (r: Result<
        (),
        ServerDomainError,
    >) {
        match self.authentication.finish_server_login(username, client_message) {
            Ok(()) => Ok(()),
            Err(error) => Err(authentication_error_to_server_domain_error(error)),
        }
    }

    fn get_vault(
        &self,
        bearer_token: &str,
        verb: &str,
        uri: &str,
        timestamp: &str,
        signature: &str,
    ) -> (r: Result<Vec<u8>, ServerDomainError>) {
        let username =
            match self.verify_request_and_get_username(bearer_token, verb, uri, timestamp, signature) {
            Ok(username) => username,
            Err(error) => {
                return Err(error);
            },
        };
        match self.vault_store.retrieve(username.as_str()) {
            Ok(vault) => Ok(vault),
            Err(error) => Err(vault_store_error_to_server_domain_error(error)),
        }
    }

    fn save_vault(
        &mut self,
        bearer_token: &str,
        verb: &str,
        uri: &str,
        timestamp: &str,
        signature: &str,
        vault: Vec<u8>,
    ) -> (r: Result<(), ServerDomainError>) {
        let username =
            match self.verify_request_and_get_username(bearer_token, verb, uri, timestamp, signature) {
            Ok(username) => username,
            Err(error) => {
                return Err(error);
            },
        };
        match self.vault_store.save(username.as_str(), vault) {
            Ok(()) => Ok(()),
            Err(error) => Err(vault_store_error_to_server_domain_error(error)),
        }
    }
}

/// Saving a vault and reading it back yields the exact bytes written: a
/// stored table maps the user to the saved bytes, which is what an
/// authorized `get_vault` then returns by its contract.
pub proof fn lemma_vault_round_trip(
    vaults: Map<Seq<char>, Seq<u8>>,
    username: Seq<char>,
    vault: Seq<u8>,
)
    ensures
        vaults.insert(username, vault).contains_key(username),
        vaults.insert(username, vault)[username] == vault,
{
}

/// A finished registration leaves the user's vault holding the empty byte
/// string: the table a successful `finish_server_registration` produces
/// maps the user to no bytes, which is what a first authorized `get_vault`
/// then returns by its contract.
pub proof fn lemma_fresh_vault_is_empty(vaults: Map<Seq<char>, Seq<u8>>, username: Seq<char>)
    ensures
        vaults.insert(username, Seq::<u8>::empty()).contains_key(username),
        vaults.insert(username, Seq::<u8>::empty())[username].len() == 0,
{
}

/// An authentication failure surfaces as `Forbidden` exactly when it is a
/// password-file retrieval failure — an absent account and a wrong
/// password are indistinguishable to a caller.
pub proof fn lemma_only_retrieval_failures_forbidden(e: crate::errors::AuthenticationError)
    ensures
        auth_error_to_domain_error(e) is Forbidden <==> e is PasswordFileRetrieve,
{
}

} // verus!
