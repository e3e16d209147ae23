use opaque_vault_server::authentication::AuthenticationCore;
use opaque_vault_server::config::AppConfig;
use opaque_vault_server::crypto::{constant_time_str_eq, derive_bearer_token};
use opaque_vault_server::errors::{
    authentication_error_to_server_domain_error, file_error_to_file_storage_error,
    file_storage_error_to_vault_store_error, vault_store_error_to_server_domain_error,
    AuthenticationError, FileErrorKind, FileStorageError, ServerDomainError, VaultStoreError,
};
use opaque_vault_server::ports::FileStorage;
use opaque_vault_server::requests::{bearer_token_from_authorization, OpaqueRequest, VaultRequest};
use opaque_vault_server::session::Session;
use opaque_vault_server::str_map::StrMap;
use opaque_vault_server::timestamp::{parse_u64, timestamp_within_ttl};
use opaque_vault_server::vault_store::MemoryFileStorage;

#[test]
fn parse_u64_reads_decimal_values() {
    assert_eq!(parse_u64("10"), Some(10));
    assert_eq!(parse_u64("0"), Some(0));
    assert_eq!(parse_u64("+42"), Some(42));
    assert_eq!(parse_u64("18446744073709551615"), Some(u64::MAX));
}

#[test]
fn parse_u64_rejects_malformed_input() {
    assert_eq!(parse_u64(""), None);
    assert_eq!(parse_u64("+"), None);
    assert_eq!(parse_u64("abc"), None);
    assert_eq!(parse_u64("12a"), None);
    assert_eq!(parse_u64("-5"), None);
    assert_eq!(parse_u64(" 5"), None);
    assert_eq!(parse_u64("18446744073709551616"), None);
    assert_eq!(parse_u64("99999999999999999999999"), None);
}

#[test]
fn parse_u64_agrees_with_std() {
    for candidate in [
        "10", "0", "+42", "", "+", "abc", "12a", "-5", " 5", "007",
        "18446744073709551615", "18446744073709551616",
    ] {
        assert_eq!(parse_u64(candidate), candidate.parse::<u64>().ok());
    }
}

#[test]
fn fresh_timestamp_within_ttl_passes() {
    // A request signed right now passes a five-second window.
    assert!(timestamp_within_ttl(1000, 1000, 5));
    // So does one at the edge of the window.
    assert!(timestamp_within_ttl(1000, 995, 5));
    // A future-dated timestamp counts as age zero.
    assert!(timestamp_within_ttl(1000, 2000, 5));
}

#[test]
fn stale_timestamp_past_ttl_is_rejected() {
    // A request signed ten seconds ago fails a five-second window.
    assert!(!timestamp_within_ttl(1000, 990, 5));
    assert!(!timestamp_within_ttl(1000, 994, 5));
}

#[test]
fn bearer_token_derivation_is_stable() {
    let key = vec![7u8; 64];
    let first = derive_bearer_token(&key).unwrap();
    let second = derive_bearer_token(&key).unwrap();
    assert_eq!(first, second);
    assert_eq!(first.len(), 128);
    assert!(first.chars().all(|c| c.is_ascii_hexdigit() && !c.is_ascii_uppercase()));

    let mut other_key = key.clone();
    other_key[0] ^= 1;
    let other = derive_bearer_token(&other_key).unwrap();
    assert_ne!(first, other);
}

#[test]
fn bearer_token_matches_client_side_derivation() {
    let key = vec![42u8; 64];
    let token = derive_bearer_token(&key).unwrap();

    let hkdf = hkdf::Hkdf::<sha2::Sha512>::from_prk(&key).unwrap();
    let mut okm = vec![0u8; 64];
    hkdf.expand(b"opaque-session-token", &mut okm).unwrap();
    assert_eq!(token, hex::encode(okm));
}

#[test]
fn bearer_token_requires_a_full_length_key() {
    let short = vec![1u8; 63];
    assert!(derive_bearer_token(&short).is_err());
}

#[test]
fn constant_time_comparison_agrees_with_equality() {
    assert!(constant_time_str_eq("", ""));
    assert!(constant_time_str_eq("abc", "abc"));
    assert!(!constant_time_str_eq("abc", "abd"));
    assert!(!constant_time_str_eq("abc", "ab"));
    assert!(!constant_time_str_eq("abc", "abcd"));
}

#[test]
fn session_packs_its_parts() {
    let session = Session::new(vec![1, 2], String::from("token"), String::from("user"));
    assert_eq!(session.session_key, vec![1, 2]);
    assert_eq!(session.session_token, "token");
    assert_eq!(session.username, "user");
}

#[test]
fn authentication_errors_map_to_domain_errors() {
    let forbidden = authentication_error_to_server_domain_error(
        AuthenticationError::PasswordFileRetrieve(String::from("gone")),
    );
    assert!(matches!(forbidden, ServerDomainError::Forbidden(m) if m == "gone"));

    for error in [
        AuthenticationError::Login(String::from("x")),
        AuthenticationError::Registration(String::from("x")),
        AuthenticationError::CreatingSession(String::from("x")),
        AuthenticationError::Deserialization(String::from("x")),
        AuthenticationError::Internal(String::from("x")),
        AuthenticationError::PasswordFileSave(String::from("x")),
    ] {
        let mapped = authentication_error_to_server_domain_error(error);
        assert!(matches!(mapped, ServerDomainError::Internal(m) if m == "x"));
    }
}

#[test]
fn vault_store_errors_become_internal() {
    let mapped = vault_store_error_to_server_domain_error(VaultStoreError::VaultNotFound(
        String::from("alice"),
    ));
    assert!(matches!(mapped, ServerDomainError::Internal(m) if m == "Vault alice not found"));
}

#[test]
fn file_storage_errors_map_variant_by_variant() {
    let cases = [
        (
            FileStorageError::FileNotFound(String::from("p")),
            VaultStoreError::VaultNotFound(String::from("p")),
        ),
        (
            FileStorageError::PermissionDenied(String::from("p")),
            VaultStoreError::PermissionDenied(String::from("p")),
        ),
        (
            FileStorageError::ReadingFile(String::from("m")),
            VaultStoreError::ReadingFile(String::from("m")),
        ),
        (
            FileStorageError::WritingToFile(String::from("m")),
            VaultStoreError::WritingToFile(String::from("m")),
        ),
        (
            FileStorageError::Internal(String::from("m")),
            VaultStoreError::Internal(String::from("m")),
        ),
    ];
    for (input, expected) in cases {
        let mapped = file_storage_error_to_vault_store_error(input);
        assert_eq!(format!("{:?}", mapped), format!("{:?}", expected));
    }
}

#[test]
fn file_errors_keep_their_kind() {
    let not_found = file_error_to_file_storage_error(
        Some(String::from("/tmp/x")),
        FileErrorKind::NotFound,
        String::from("unused"),
    );
    assert!(matches!(not_found, FileStorageError::FileNotFound(p) if p == "/tmp/x"));

    let denied = file_error_to_file_storage_error(
        Some(String::from("/tmp/x")),
        FileErrorKind::PermissionDenied,
        String::from("unused"),
    );
    assert!(matches!(denied, FileStorageError::PermissionDenied(p) if p == "/tmp/x"));

    let other = file_error_to_file_storage_error(
        Some(String::from("/tmp/x")),
        FileErrorKind::Other,
        String::from("broken pipe"),
    );
    assert!(matches!(other, FileStorageError::Internal(m) if m == "broken pipe"));

    let invalid = file_error_to_file_storage_error(
        None,
        FileErrorKind::NotFound,
        String::from("unused"),
    );
    assert!(matches!(invalid, FileStorageError::Internal(m) if m == "Invalid UTF-8 file path."));
}

#[test]
fn error_messages_read_as_documented() {
    let error = AuthenticationError::Login(String::from("nope"));
    assert_eq!(error.message(), "Error during login phase: nope");

    let error = FileStorageError::FileNotFound(String::from("/v/alice"));
    assert_eq!(error.message(), "File /v/alice not found");

    let error = ServerDomainError::Forbidden(String::from("no"));
    assert_eq!(error.message(), "Forbidden: no");
}

#[test]
fn bearer_scheme_is_required() {
    assert_eq!(
        bearer_token_from_authorization("Bearer abc123"),
        Some(String::from("abc123"))
    );
    assert_eq!(bearer_token_from_authorization("Bearer "), Some(String::new()));
    assert_eq!(bearer_token_from_authorization("bearer abc"), None);
    assert_eq!(bearer_token_from_authorization("Basic abc"), None);
    assert_eq!(bearer_token_from_authorization(""), None);
    assert_eq!(bearer_token_from_authorization("Bearer"), None);
}

#[test]
fn vault_request_reads_its_headers() {
    let request = VaultRequest::from_headers(
        Some("Bearer deadbeef"),
        Some("localhost"),
        Some("12345"),
        Some("cafe"),
    )
    .unwrap();
    assert_eq!(request.bearer_token, "deadbeef");
    assert_eq!(request.host, "localhost");
    assert_eq!(request.timestamp, "12345");
    assert_eq!(request.signature, "cafe");

    assert!(VaultRequest::from_headers(None, Some("h"), Some("t"), Some("s")).is_err());
    assert!(VaultRequest::from_headers(Some("Token x"), Some("h"), Some("t"), Some("s")).is_err());
    assert!(VaultRequest::from_headers(Some("Bearer x"), None, Some("t"), Some("s")).is_err());
    assert!(VaultRequest::from_headers(Some("Bearer x"), Some("h"), None, Some("s")).is_err());
    assert!(VaultRequest::from_headers(Some("Bearer x"), Some("h"), Some("t"), None).is_err());
}

#[test]
fn opaque_request_reads_its_header() {
    let request = OpaqueRequest::from_headers(Some("alice")).unwrap();
    assert_eq!(request.username, "alice");
    assert!(OpaqueRequest::from_headers(None).is_err());
}

#[test]
fn config_path_is_the_second_argument() {
    let args = vec![String::from("server"), String::from("/etc/server.toml")];
    assert_eq!(AppConfig::config_path(&args).unwrap(), "/etc/server.toml");

    let too_few = vec![String::from("server")];
    let error = AppConfig::config_path(&too_few).unwrap_err();
    assert_eq!(error, "First argument should be the config path.");
}

#[test]
fn memory_storage_round_trips_blobs() {
    let mut storage = MemoryFileStorage::new(String::new());
    assert!(matches!(
        storage.retrieve("alice"),
        Err(FileStorageError::FileNotFound(_))
    ));

    storage.save("alice", vec![1, 2, 3]).unwrap();
    assert_eq!(storage.retrieve("alice").unwrap(), vec![1, 2, 3]);

    storage.save("alice", vec![9]).unwrap();
    assert_eq!(storage.retrieve("alice").unwrap(), vec![9]);
}

#[test]
fn str_map_stores_replaces_and_removes() {
    let mut map: StrMap<u64> = StrMap::new();
    assert!(!map.contains_key("a"));

    map.insert("a", 1);
    map.insert("b", 2);
    assert_eq!(map.get("a"), Some(&1));
    assert_eq!(map.get("b"), Some(&2));

    map.insert("a", 3);
    assert_eq!(map.get("a"), Some(&3));

    assert_eq!(map.remove("a"), Some(3));
    assert_eq!(map.get("a"), None);
    assert_eq!(map.remove("a"), None);
    assert_eq!(map.get("b"), Some(&2));
}

#[test]
fn session_creation_rejects_short_keys() {
    let storage = MemoryFileStorage::new(String::new());
    let mut core = AuthenticationCore::new(storage, 5);

    let result = core.create_session(&[1u8; 10], "alice");
    match result {
        Err(AuthenticationError::CreatingSession(message)) => {
            assert_eq!(message, "invalid pseudorandom key length, too short");
        }
        _ => panic!("A short session key should fail session creation."),
    }
    assert!(!core.verify_bearer_token(""));
}

#[test]
fn created_session_is_found_under_its_derived_token() {
    let storage = MemoryFileStorage::new(String::new());
    let mut core = AuthenticationCore::new(storage, 5);

    let key = vec![5u8; 64];
    core.create_session(&key, "alice").unwrap();

    let token = derive_bearer_token(&key).unwrap();
    assert!(core.verify_bearer_token(&token));
    assert_eq!(core.get_username_from_session(&token).unwrap(), "alice");

    assert!(matches!(
        core.get_username_from_session("unknown"),
        Err(AuthenticationError::Internal(_))
    ));
}

#[test]
fn a_new_login_start_replaces_the_pending_state() {
    let storage = MemoryFileStorage::new(String::new());
    let mut core = AuthenticationCore::new(storage, 5);

    core.store_pending_login("alice", vec![1]);
    core.store_pending_login("alice", vec![2]);

    // The later start wins, and the state is spent by one take.
    assert_eq!(core.take_pending_login("alice").unwrap(), vec![2]);
    match core.take_pending_login("alice") {
        Err(AuthenticationError::Login(message)) => {
            assert_eq!(message, "Username did not start login phase.");
        }
        _ => panic!("A spent pending login should not be taken twice."),
    }
}

#[test]
fn timestamp_checks_at_a_fixed_clock() {
    let storage = MemoryFileStorage::new(String::new());
    let core = AuthenticationCore::new(storage, 5);

    // request_max_ttl = 5: a timestamp ten seconds old is rejected, one
    // from right now passes.
    assert!(!core.verify_request_timestamp_at(1000, "990").unwrap());
    assert!(core.verify_request_timestamp_at(1000, "1000").unwrap());
    assert!(core.verify_request_timestamp_at(1000, "995").unwrap());
    assert!(core.verify_request_timestamp_at(1000, "1999").unwrap());

    assert!(matches!(
        core.verify_request_timestamp_at(1000, "not-a-number"),
        Err(AuthenticationError::Internal(_))
    ));
}
