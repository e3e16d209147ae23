use opaque_vault_server::errors::FileStorageError;
use opaque_vault_server::ports::{FileStorage, VaultStore};
use opaque_vault_server::vault_store::DirectoryVaultStore;

struct MockFileStorage;

impl FileStorage for MockFileStorage {
    fn new(_: String) -> Self {
        Self
    }

    fn retrieve(&self, _: &str) -> Result<Vec<u8>, FileStorageError> {
        Ok(vec![42])
    }

    fn save(&mut self, _: &str, _: Vec<u8>) -> Result<(), FileStorageError> {
        Ok(())
    }
}

#[test]
fn directory_vault_store_tests_should_retrieve_file() {
    let username = "username";

    let directory_vault_store = DirectoryVaultStore::new(MockFileStorage::new(String::new()));

    let result = directory_vault_store.retrieve(username);

    assert!(result.is_ok());
    assert_eq!(result.unwrap(), vec![42]);
}

#[test]
fn directory_vault_store_tests_should_save_file() {
    let mut directory_vault_store = DirectoryVaultStore::new(MockFileStorage::new(String::new()));

    let result = directory_vault_store.save("test", vec![42]);

    assert!(result.is_ok());
}
