//! The two error taxonomies of the server and the mappings between them.
//!
//! Authentication, file-storage and vault-store errors are internal to their
//! components; only `ServerDomainError` crosses the domain boundary. An absent
//! password file during login must surface as `Forbidden` so that account
//! existence is not leaked; every other internal failure becomes `Internal`.

use vstd::prelude::*;

verus! {

use vstd::string::StringExecFns;

/// Errors raised by the authentication component.
#[derive(Debug)]
pub enum AuthenticationError {
    Deserialization(String),
    Registration(String),
    Login(String),
    PasswordFileSave(String),
    PasswordFileRetrieve(String),
    CreatingSession(String),
    Internal(String),
}

/// Errors surfaced by the domain facade to its callers.
#[derive(Debug)]
pub enum ServerDomainError {
    Forbidden(String),
    Internal(String),
}

/// Errors raised by a file storage backend.
#[derive(Debug)]
pub enum FileStorageError {
    FileNotFound(String),
    PermissionDenied(String),
    ReadingFile(String),
    WritingToFile(String),
    Internal(String),
}

/// Errors raised by a vault store.
#[derive(Debug)]
pub enum VaultStoreError {
    VaultNotFound(String),
    PermissionDenied(String),
    ReadingFile(String),
    WritingToFile(String),
    Internal(String),
}

impl AuthenticationError {
    /// The human-readable description of the error.
    pub fn message(&self) -> (r: String)
        ensures
            r@ == self.message_view(),
    {
        match self {
            AuthenticationError::Deserialization(m) => String::from_str(
                "Error during client message deserialization: ",
            ).concat(m.as_str()),
            AuthenticationError::Registration(m) => String::from_str(
                "Error during registration phase: ",
            ).concat(m.as_str()),
            AuthenticationError::Login(m) => String::from_str("Error during login phase: ").concat(
                m.as_str(),
            ),
            AuthenticationError::PasswordFileSave(m) => String::from_str(
                "Error while saving password file: ",
            ).concat(m.as_str()),
            AuthenticationError::PasswordFileRetrieve(m) => String::from_str(
                "Error while retrieving password file: ",
            ).concat(m.as_str()),
            AuthenticationError::CreatingSession(m) => String::from_str(
                "Error while creating session: ",
            ).concat(m.as_str()),
            AuthenticationError::Internal(m) => String::from_str("Internal error: ").concat(
                m.as_str(),
            ),
        }
    }

    /// What `message` returns, at the specification level.
    pub open spec fn message_view(&self) -> Seq<char> {
        match self {
            AuthenticationError::Deserialization(m) => "Error during client message deserialization: "@
                + m@,
            AuthenticationError::Registration(m) => "Error during registration phase: "@ + m@,
            AuthenticationError::Login(m) => "Error during login phase: "@ + m@,
            AuthenticationError::PasswordFileSave(m) => "Error while saving password file: "@ + m@,
            AuthenticationError::PasswordFileRetrieve(m) => "Error while retrieving password file: "@
                + m@,
            AuthenticationError::CreatingSession(m) => "Error while creating session: "@ + m@,
            AuthenticationError::Internal(m) => "Internal error: "@ + m@,
        }
    }
}

impl ServerDomainError {
    /// The human-readable description of the error.
    pub fn message(&self) -> (r: String)
        ensures
            r@ == self.message_view(),
    {
        match self {
            ServerDomainError::Forbidden(m) => String::from_str("Forbidden: ").concat(m.as_str()),
            ServerDomainError::Internal(m) => String::from_str("Internal error: ").concat(
                m.as_str(),
            ),
        }
    }

    /// What `message` returns, at the specification level.
    pub open spec fn message_view(&self) -> Seq<char> {
        match self {
            ServerDomainError::Forbidden(m) => "Forbidden: "@ + m@,
            ServerDomainError::Internal(m) => "Internal error: "@ + m@,
        }
    }
}

impl FileStorageError {
    /// The human-readable description of the error.
    pub fn message(&self) -> (r: String)
        ensures
            r@ == self.message_view(),
    {
        match self {
            FileStorageError::FileNotFound(p) => String::from_str("File ").concat(
                p.as_str(),
            ).concat(" not found"),
            FileStorageError::PermissionDenied(p) => String::from_str(
                "You don't have access to this path: ",
            ).concat(p.as_str()),
            FileStorageError::ReadingFile(m) => String::from_str(
                "Error during file reading: ",
            ).concat(m.as_str()),
            FileStorageError::WritingToFile(m) => String::from_str(
                "Error writing to the file: ",
            ).concat(m.as_str()),
            FileStorageError::Internal(m) => String::from_str("Internal error: ").concat(
                m.as_str(),
            ),
        }
    }

    /// What `message` returns, at the specification level.
    pub open spec fn message_view(&self) -> Seq<char> {
        match self {
            FileStorageError::FileNotFound(p) => "File "@ + p@ + " not found"@,
            FileStorageError::PermissionDenied(p) => "You don't have access to this path: "@ + p@,
            FileStorageError::ReadingFile(m) => "Error during file reading: "@ + m@,
            FileStorageError::WritingToFile(m) => "Error writing to the file: "@ + m@,
            FileStorageError::Internal(m) => "Internal error: "@ + m@,
        }
    }
}

impl VaultStoreError {
    /// The human-readable description of the error.
    pub fn message(&self) -> (r: String)
        ensures
            r@ == self.message_view(),
    {
        match self {
            VaultStoreError::VaultNotFound(p) => String::from_str("Vault ").concat(
                p.as_str(),
            ).concat(" not found"),
            VaultStoreError::PermissionDenied(p) => String::from_str(
                "You don't have access to this path: ",
            ).concat(p.as_str()),
            VaultStoreError::ReadingFile(m) => String::from_str(
                "Error during file reading: ",
            ).concat(m.as_str()),
            VaultStoreError::WritingToFile(m) => String::from_str(
                "Error writing to the file: ",
            ).concat(m.as_str()),
            VaultStoreError::Internal(m) => String::from_str("Internal error: ").concat(
                m.as_str(),
            ),
        }
    }

    /// What `message` returns, at the specification level.
    pub open spec fn message_view(&self) -> Seq<char> {
        match self {
            VaultStoreError::VaultNotFound(p) => "Vault "@ + p@ + " not found"@,
            VaultStoreError::PermissionDenied(p) => "You don't have access to this path: "@ + p@,
            VaultStoreError::ReadingFile(m) => "Error during file reading: "@ + m@,
            VaultStoreError::WritingToFile(m) => "Error writing to the file: "@ + m@,
            VaultStoreError::Internal(m) => "Internal error: "@ + m@,
        }
    }
}

/// How the domain facade maps an authentication error, at the specification
/// level: only a failed password-file retrieval becomes `Forbidden`.
pub open spec fn auth_error_to_domain_error(e: AuthenticationError) -> ServerDomainError {
    match e {
        AuthenticationError::Login(m) => ServerDomainError::Internal(m),
        AuthenticationError::Registration(m) => ServerDomainError::Internal(m),
        AuthenticationError::CreatingSession(m) => ServerDomainError::Internal(m),
        AuthenticationError::Deserialization(m) => ServerDomainError::Internal(m),
        AuthenticationError::PasswordFileRetrieve(m) => ServerDomainError::Forbidden(m),
        AuthenticationError::Internal(m) => ServerDomainError::Internal(m),
        AuthenticationError::PasswordFileSave(m) => ServerDomainError::Internal(m),
    }
}

/// Maps an authentication error to the domain error shown to callers.
pub fn authentication_error_to_server_domain_error(
    authentication_error: AuthenticationError,
) -> (r: ServerDomainError)
    ensures
        r == auth_error_to_domain_error(authentication_error),
{
    match authentication_error {
        AuthenticationError::Login(error) => ServerDomainError::Internal(error),
        AuthenticationError::Registration(error) => ServerDomainError::Internal(error),
        AuthenticationError::CreatingSession(error) => ServerDomainError::Internal(error),
        AuthenticationError::Deserialization(error) => ServerDomainError::Internal(error),
        AuthenticationError::PasswordFileRetrieve(error) => ServerDomainError::Forbidden(error),
        AuthenticationError::Internal(error) => ServerDomainError::Internal(error),
        AuthenticationError::PasswordFileSave(error) => ServerDomainError::Internal(error),
    }
}

/// Maps a vault store error to the domain error shown to callers: every vault
/// store failure is internal.
pub fn vault_store_error_to_server_domain_error(vault_store_error: VaultStoreError) -> (r:
    ServerDomainError)
    ensures
        r matches ServerDomainError::Internal(m) && m@ == vault_store_error.message_view(),
{
    ServerDomainError::Internal(vault_store_error.message())
}

/// How a file storage error surfaces through a vault store, at the
/// specification level: each variant keeps its payload.
pub open spec fn file_error_to_vault_error(e: FileStorageError) -> VaultStoreError {
    match e {
        FileStorageError::FileNotFound(m) => VaultStoreError::VaultNotFound(m),
        FileStorageError::PermissionDenied(m) => VaultStoreError::PermissionDenied(m),
        FileStorageError::ReadingFile(m) => VaultStoreError::ReadingFile(m),
        FileStorageError::WritingToFile(m) => VaultStoreError::WritingToFile(m),
        FileStorageError::Internal(m) => VaultStoreError::Internal(m),
    }
}

/// Maps a file storage error to the matching vault store error.
pub fn file_storage_error_to_vault_store_error(file_storage_error: FileStorageError) -> (r:
    VaultStoreError)
    ensures
        r == file_error_to_vault_error(file_storage_error),
{
    match file_storage_error {
        FileStorageError::FileNotFound(error) => VaultStoreError::VaultNotFound(error),
        FileStorageError::PermissionDenied(error) => VaultStoreError::PermissionDenied(error),
        FileStorageError::ReadingFile(error) => VaultStoreError::ReadingFile(error),
        FileStorageError::WritingToFile(error) => VaultStoreError::WritingToFile(error),
        FileStorageError::Internal(error) => VaultStoreError::Internal(error),
    }
}

/// The kind of a low-level file error, as far as the storage layer reads it.
#[derive(Debug, PartialEq, Eq, Structural)]
pub enum FileErrorKind {
    NotFound,
    PermissionDenied,
    Other,
}

/// Maps a low-level file error, given as the path it concerns (when it is
/// valid UTF-8), its kind and its description, to a file storage error.
pub fn file_error_to_file_storage_error(
    file_path: Option<String>,
    kind: FileErrorKind,
    error_message: String,
) -> (r: FileStorageError)
    ensures
        file_path is None ==> (r matches FileStorageError::Internal(m) && m@
            == "Invalid UTF-8 file path."@),
        file_path matches Some(p) ==> match kind {
            FileErrorKind::NotFound => r matches FileStorageError::FileNotFound(q) && q == p,
            FileErrorKind::PermissionDenied => r matches FileStorageError::PermissionDenied(q) && q
                == p,
            FileErrorKind::Other => r matches FileStorageError::Internal(m) && m == error_message,
        },
{
    let Some(file_path) = file_path else {
        return FileStorageError::Internal(String::from_str("Invalid UTF-8 file path."));
    };
    match kind {
        FileErrorKind::NotFound => FileStorageError::FileNotFound(file_path),
        FileErrorKind::PermissionDenied => FileStorageError::PermissionDenied(file_path),
        FileErrorKind::Other => FileStorageError::Internal(error_message),
    }
}

} // verus!
