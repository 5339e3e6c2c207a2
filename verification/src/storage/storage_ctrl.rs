//! The controller that owns the store of keyfiles.

use crate::address::Address;
use crate::keystore::{KeyFile, KeyFileView};
use crate::rpc::error::ServiceError;
use crate::storage::keyfile::{KeyfileStore, KeystoreError};
use crate::storage::{build_path, path_below, StorageType};
use vstd::prelude::*;
use vstd::std_specs::convert::FromSpec;
use vstd::string::*;

verus! {

/// The store that holds `records`, put in their order: of two records for
/// one address the later one stays.
pub open spec fn loaded(records: Seq<KeyFile>) -> Map<Seq<u8>, KeyFileView>
    decreases records.len(),
{
    if records.len() == 0 {
        Map::empty()
    } else {
        loaded(records.drop_last()).insert(records.last().address@, records.last()@)
    }
}

/// Owner of the one store of keyfiles of a storage root.
pub struct StorageController {
    pub keyfile_storage: KeyfileStore,
    pub base_path: String,
    pub storage_type: StorageType,
}

impl StorageController {
    /// The directory of the keyfiles: `keystore` below the base path.
    pub open spec fn root_spec(&self) -> Seq<char> {
        path_below(self.base_path@, "keystore"@)
    }

    /// Makes the controller of the storage root `keystore` below
    /// `base_path`. `opened` is what opening that root with the engine
    /// `storage_type` gave: the keyfiles found there, or why it failed.
    ///
    /// # Errors
    ///
    /// `StorageInit` with the reason if the root could not be opened.
    pub fn new(
        base_path: &str,
        storage_type: StorageType,
        opened: Result<Vec<KeyFile>, String>,
    ) -> (r: Result<StorageController, ServiceError>)
        ensures
            match opened {
                Ok(records) => {
                    &&& r matches Ok(ctrl)
                    &&& ctrl.keyfile_storage@ == loaded(records@)
                    &&& ctrl.base_path@ == base_path@
                    &&& ctrl.storage_type == storage_type
                },
                Err(reason) => r matches Err(ServiceError::StorageInit(text)) && text@
                    == reason@,
            },
    {
        match opened {
            Err(reason) => Err(ServiceError::StorageInit(reason)),
            Ok(records) => {
                let mut storage = KeyfileStore::new();
                let mut i: usize = 0;
                while i < records.len()
                    invariant
                        i <= records@.len(),
                        storage@ == loaded(records@.take(i as int)),
                    decreases records@.len() - i,
                {
                    let keyfile = records[i].clone();
                    let _ = storage.put(keyfile);
                    proof {
                        let next = records@.take(i + 1);
                        assert(next.drop_last() =~= records@.take(i as int));
                        assert(next.last() == records@[i as int]);
                    }
                    i += 1;
                }
                assert(records@.take(i as int) =~= records@);
                Ok(
                    StorageController {
                        keyfile_storage: storage,
                        base_path: String::from_str(base_path),
                        storage_type,
                    },
                )
            },
        }
    }

    /// Settles a change of the keyfile of `address` once the engine was
    /// asked to make it durable. `before` is what the store held for
    /// `address` before the change, `written` what the engine answered, and
    /// `done` the answer of the operation. Where the engine wrote, the
    /// change stands and `done` is answered. Where it failed, the store is
    /// put back as it was for `address`, and the engine's failure is
    /// answered in place of `done`.
    pub fn settle<T>(
        &mut self,
        address: &Address,
        before: Option<KeyFile>,
        written: Result<(), KeystoreError>,
        done: T,
    ) -> (r: Result<T, ServiceError>)
        ensures
            match written {
                Ok(_) => {
                    &&& r == Ok::<T, ServiceError>(done)
                    &&& final(self).keyfile_storage@ == old(self).keyfile_storage@
                },
                Err(e) => {
                    &&& r == Err::<T, ServiceError>(ServiceError::from_spec(e))
                    &&& final(self).keyfile_storage@ == match before {
                        Some(keyfile) => old(self).keyfile_storage@.insert(
                            keyfile.address@,
                            keyfile@,
                        ),
                        None => old(self).keyfile_storage@.remove(address@),
                    }
                },
            },
            final(self).base_path == old(self).base_path,
            final(self).storage_type == old(self).storage_type,
    {
        match written {
            Ok(_) => Ok(done),
            Err(e) => {
                self.keyfile_storage.restore(address, before);
                Err(ServiceError::from(e))
            },
        }
    }

    /// The directory of the keyfiles.
    pub fn root(&self) -> (r: String)
        ensures
            r@ == self.root_spec(),
    {
        build_path(self.base_path.as_str(), "keystore")
    }

}

} // verus!
