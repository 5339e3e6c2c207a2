//! Errors for storage of keyfiles.

use vstd::prelude::*;
use vstd::string::*;

verus! {

/// `serde_json::Error`. Nothing is known of it but the text that it is
/// shown with.
#[verifier::external_type_specification]
#[verifier::external_body]
pub struct ExJsonError(serde_json::Error);

/// `std::io::Error`. Nothing is known of it but the text that it is shown
/// with.
#[verifier::external_type_specification]
#[verifier::external_body]
pub struct ExIoError(std::io::Error);

/// `std::str::Utf8Error`. Nothing is known of it but the text that it is
/// shown with.
#[verifier::external_type_specification]
#[verifier::external_body]
pub struct ExUtf8Error(std::str::Utf8Error);

/// What can go wrong in a keyfile store.
#[derive(Debug)]
pub enum KeystoreError {
    /// General storage error.
    StorageError(String),
    /// No keyfile is stored for the address.
    NotFound(String),
}

impl KeystoreError {
    /// Text of the error as shown to a caller.
    pub open spec fn message_spec(self) -> Seq<char> {
        match self {
            KeystoreError::StorageError(detail) => "KeyFile storage error: "@ + detail@,
            KeystoreError::NotFound(address) => "Missing KeyFile for address: "@ + address@,
        }
    }

    /// Text of the error as shown to a caller.
    pub fn message(&self) -> (s: String)
        ensures
            s@ == self.message_spec(),
    {
        match self {
            KeystoreError::StorageError(detail) => {
                String::from_str("KeyFile storage error: ").concat(detail.as_str())
            },
            KeystoreError::NotFound(address) => {
                String::from_str("Missing KeyFile for address: ").concat(address.as_str())
            },
        }
    }

    /// The error for a failure that a persistence engine reported as `detail`.
    pub fn from_backend(detail: &str) -> (r: KeystoreError)
        ensures
            r matches KeystoreError::StorageError(text) && text@ == "Keyfile storage error: "@
                + detail@,
    {
        KeystoreError::StorageError(String::from_str("Keyfile storage error: ").concat(detail))
    }
}

impl From<serde_json::Error> for KeystoreError {
    /// A storage error that carries the text of `err`.
    fn from(err: serde_json::Error) -> (r: KeystoreError)
        ensures
            r matches KeystoreError::StorageError(detail) && to_string_from_display_ensures::<
                serde_json::Error,
            >(&err, detail),
    {
        KeystoreError::StorageError(err.to_string())
    }
}

impl vstd::std_specs::convert::FromSpecImpl<serde_json::Error> for KeystoreError {
    open spec fn obeys_from_spec() -> bool {
        false
    }

    open spec fn from_spec(err: serde_json::Error) -> KeystoreError {
        arbitrary()
    }
}

impl From<std::str::Utf8Error> for KeystoreError {
    /// A storage error that carries the text of `err`.
    fn from(err: std::str::Utf8Error) -> (r: KeystoreError)
        ensures
            r matches KeystoreError::StorageError(detail) && to_string_from_display_ensures::<
                std::str::Utf8Error,
            >(&err, detail),
    {
        KeystoreError::StorageError(err.to_string())
    }
}

impl vstd::std_specs::convert::FromSpecImpl<std::str::Utf8Error> for KeystoreError {
    open spec fn obeys_from_spec() -> bool {
        false
    }

    open spec fn from_spec(err: std::str::Utf8Error) -> KeystoreError {
        arbitrary()
    }
}

impl From<std::io::Error> for KeystoreError {
    /// A storage error that carries the text of `err`.
    fn from(err: std::io::Error) -> (r: KeystoreError)
        ensures
            r matches KeystoreError::StorageError(detail) && to_string_from_display_ensures::<
                std::io::Error,
            >(&err, detail),
    {
        KeystoreError::StorageError(err.to_string())
    }
}

impl vstd::std_specs::convert::FromSpecImpl<std::io::Error> for KeystoreError {
    open spec fn obeys_from_spec() -> bool {
        false
    }

    open spec fn from_spec(err: std::io::Error) -> KeystoreError {
        arbitrary()
    }
}

} // verus!
