//! The construction-time configuration: the freshness window and the two
//! storage paths. How the values are loaded is a caller's business; this
//! module holds the shapes and the argument check.

use vstd::prelude::*;

verus! {

use vstd::string::StringExecFns;

/// The server section: the freshness window in seconds.
#[derive(Debug, Default)]
pub struct ServerInfo {
    pub request_max_ttl: u64,
}

/// Where vault blobs are stored.
#[derive(Debug, Default)]
pub struct VaultStoreInfo {
    pub path: String,
}

/// Where password files are stored.
#[derive(Debug, Default)]
pub struct PasswordFileInfo {
    pub path: String,
}

/// The whole configuration.
#[derive(Debug, Default)]
pub struct AppConfig {
    pub server: ServerInfo,
    pub vault_store: VaultStoreInfo,
    pub password_file: PasswordFileInfo,
}

impl AppConfig {
    /// The configuration file path among the command-line arguments: the
    /// argument after the program name, which must be present.
    pub fn config_path(args: &Vec<String>) -> (r: Result<&String, String>)
        ensures
            args@.len() >= 2 ==> (r matches Ok(p) && p == args@[1]),
            args@.len() < 2 ==> (r matches Err(m) && m@
                == "First argument should be the config path."@),
    {
        if args.len() < 2 {
            return Err(String::from_str("First argument should be the config path."));
        }
        Ok(&args[1])
    }
}

} // verus!
