//! The vault store: a thin adapter that dedicates a byte-blob storage to
//! user vaults, so the domain never mixes vault and password-file
//! namespaces, plus an in-memory storage that implements the byte-blob
//! contract outright.

use vstd::prelude::*;

verus! {

use vstd::string::StringExecFns;

use crate::errors::file_storage_error_to_vault_store_error;
use crate::errors::FileStorageError;
use crate::errors::VaultStoreError;
use crate::ports::FileStorage;
use crate::ports::VaultStore;
use crate::str_map::StrMap;

/// A vault store that keeps one blob per username in a byte-blob storage.
pub struct DirectoryVaultStore<FS: FileStorage> {
    file_storage: FS,
}

impl<FS: FileStorage> DirectoryVaultStore<FS> {
    /// Wraps a byte-blob storage as a vault store.
    pub fn new(file_storage: FS) -> (r: DirectoryVaultStore<FS>)
        ensures
            r.inv() == file_storage.inv(),
            r.vaults() == file_storage.files(),
    {
        DirectoryVaultStore { file_storage }
    }
}

impl<FS: FileStorage> VaultStore for DirectoryVaultStore<FS> {
    closed spec fn vaults(&self) -> Map<Seq<char>, Seq<u8>> {
        self.file_storage.files()
    }

    closed spec fn inv(&self) -> bool {
        self.file_storage.inv()
    }

    fn retrieve(&self, username: &str) -> (r: Result<Vec<u8>, VaultStoreError>) {
        match self.file_storage.retrieve(username) {
            Ok(vault) => Ok(vault),
            Err(error) => Err(file_storage_error_to_vault_store_error(error)),
        }
    }

    fn save(&mut self, username: &str, vault: Vec<u8>) -> (r: Result<(), VaultStoreError>) {
        match self.file_storage.save(username, vault) {
            Ok(()) => Ok(()),
            Err(error) => Err(file_storage_error_to_vault_store_error(error)),
        }
    }
}

/// A byte-blob storage held entirely in memory. It meets the same contract
/// as a directory of files and backs the storage capabilities where no
/// file system is wanted.
pub struct MemoryFileStorage {
    blobs: StrMap<Vec<u8>>,
}

impl FileStorage for MemoryFileStorage {
    closed spec fn files(&self) -> Map<Seq<char>, Seq<u8>> {
        Map::new(|k: Seq<char>| self.blobs@.contains_key(k), |k: Seq<char>| self.blobs@[k]@)
    }

    closed spec fn inv(&self) -> bool {
        self.blobs.wf()
    }

    fn new(path: String) -> (r: MemoryFileStorage) {
        MemoryFileStorage { blobs: StrMap::new() }
    }

    fn retrieve(&self, file_name: &str) -> (r: Result<Vec<u8>, FileStorageError>) {
        match self.blobs.get(file_name) {
            Some(content) => {
                let copy = content.clone();
                proof {
                    assert(copy@ == self.files()[file_name@]);
                }
                Ok(copy)
            },
            None => Err(FileStorageError::FileNotFound(String::from_str(file_name))),
        }
    }

    fn save(&mut self, file_name: &str, content: Vec<u8>) -> (r: Result<(), FileStorageError>) {
        self.blobs.insert(file_name, content);
        proof {
            assert(self.files() =~= old(self).files().insert(file_name@, content@));
        }
        Ok(())
    }
}

} // verus!
