//! Key custody and signing core: chain registry, request parameters,
//! keyfile storage and the account operations built on them.

pub mod address;
pub mod bytes;
pub mod hex;
pub mod keystore;
pub mod rlp;
pub mod rpc;
pub mod storage;
pub mod transaction;
pub mod typed_data;
pub mod util;
