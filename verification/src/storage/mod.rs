//! Storage of keyfiles.

pub mod keyfile;
pub mod storage_ctrl;

pub use self::keyfile::{KeyfileStore, KeystoreError};
pub use self::storage_ctrl::StorageController;

use vstd::prelude::*;
use vstd::string::*;

verus! {

/// The persistence engine behind a store.
#[derive(Clone, Copy, Debug, PartialEq, Eq, Structural)]
pub enum StorageType {
    /// One key-value pair for each address in one database directory.
    RocksDB,
    /// One file for each address in one directory.
    Filesystem,
}

/// The path of `folder` below `base_path`.
pub open spec fn path_below(base_path: Seq<char>, folder: Seq<char>) -> Seq<char> {
    base_path + "/"@ + folder
}

/// The path of `folder` below `base_path`.
pub fn build_path(base_path: &str, folder: &str) -> (r: String)
    ensures
        r@ == path_below(base_path@, folder@),
{
    String::from_str(base_path).concat("/").concat(folder)
}

} // verus!
