//! Errors reported to the caller of an operation.

use crate::storage::keyfile::error::KeystoreError;
use crate::util::{decimal, decimal_string};
use vstd::prelude::*;
use vstd::string::*;

verus! {

/// Failure of an operation.
#[derive(Debug)]
pub enum ServiceError {
    /// The operation needs a chain and the request names none.
    MissingChainId,
    /// The chain identifier is not in the table of chains.
    InvalidChainId(usize),
    /// A parameter is malformed; the text names it.
    InvalidDataFormat(String),
    /// No account is stored under the address.
    NotFound(String),
    /// The passphrase does not open the keyfile.
    InvalidPassphrase,
    /// The account's key is held by an external signer.
    NoKeyMaterial(String),
    /// The passphrase is refused by the strength policy.
    WeakPassphrase,
    /// The random generator failed, or what it gave is no key.
    NoEntropy,
    /// The store failed.
    StoreError(String),
    /// The store could not be opened.
    StorageInit(String),
}

/// Code of a failure that the request's parameters caused.
pub const INVALID_PARAMS: i64 = -32602;

/// Code of a failure inside the service that is none of the kinds below.
pub const INTERNAL_ERROR: i64 = -32603;

/// Code of a failure for an address that the store does not hold.
pub const NOT_FOUND: i64 = -32001;

/// Code of a failure for a passphrase that does not open the keyfile.
pub const INVALID_PASSPHRASE: i64 = -32002;

/// Code of a failure for an account whose key is with an external signer.
pub const NO_KEY_MATERIAL: i64 = -32003;

/// Code of a failure for a passphrase that the policy refuses.
pub const WEAK_PASSPHRASE: i64 = -32004;

/// Code of a failure of the random generator.
pub const NO_ENTROPY: i64 = -32005;

/// Code of a failure of the store.
pub const STORE_ERROR: i64 = -32006;

/// Code of a failure to open the store.
pub const STORAGE_INIT: i64 = -32007;

/// The kinds of failure. Each has one code, and no two have the same.
#[derive(Clone, Copy, Debug, PartialEq, Eq, Structural)]
pub enum ErrorKind {
    /// Malformed or ambiguous parameters, or an unknown chain.
    Validation,
    NotFound,
    InvalidPassphrase,
    NoKeyMaterial,
    WeakPassphrase,
    NoEntropy,
    Store,
    StorageInit,
}

impl ErrorKind {
    /// The code that a failure of this kind is reported with.
    pub open spec fn code_spec(self) -> i64 {
        match self {
            ErrorKind::Validation => INVALID_PARAMS,
            ErrorKind::NotFound => NOT_FOUND,
            ErrorKind::InvalidPassphrase => INVALID_PASSPHRASE,
            ErrorKind::NoKeyMaterial => NO_KEY_MATERIAL,
            ErrorKind::WeakPassphrase => WEAK_PASSPHRASE,
            ErrorKind::NoEntropy => NO_ENTROPY,
            ErrorKind::Store => STORE_ERROR,
            ErrorKind::StorageInit => STORAGE_INIT,
        }
    }

    /// The code that a failure of this kind is reported with.
    pub fn code(self) -> (r: i64)
        ensures
            r == self.code_spec(),
    {
        match self {
            ErrorKind::Validation => INVALID_PARAMS,
            ErrorKind::NotFound => NOT_FOUND,
            ErrorKind::InvalidPassphrase => INVALID_PASSPHRASE,
            ErrorKind::NoKeyMaterial => NO_KEY_MATERIAL,
            ErrorKind::WeakPassphrase => WEAK_PASSPHRASE,
            ErrorKind::NoEntropy => NO_ENTROPY,
            ErrorKind::Store => STORE_ERROR,
            ErrorKind::StorageInit => STORAGE_INIT,
        }
    }
}

/// Two kinds of failure have one code only if they are one kind, and no
/// kind has the code of a failure that is none of them.
pub proof fn lemma_code_tells_kind(a: ErrorKind, b: ErrorKind)
    ensures
        a.code_spec() == b.code_spec() <==> a == b,
        a.code_spec() != INTERNAL_ERROR,
{
}

/// What `ServiceError` holds.
pub enum ServiceErrorView {
    MissingChainId,
    InvalidChainId(usize),
    InvalidDataFormat(Seq<char>),
    NotFound(Seq<char>),
    InvalidPassphrase,
    NoKeyMaterial(Seq<char>),
    WeakPassphrase,
    NoEntropy,
    StoreError(Seq<char>),
    StorageInit(Seq<char>),
}

impl View for ServiceError {
    type V = ServiceErrorView;

    open spec fn view(&self) -> ServiceErrorView {
        match self {
            ServiceError::MissingChainId => ServiceErrorView::MissingChainId,
            ServiceError::InvalidChainId(id) => ServiceErrorView::InvalidChainId(*id),
            ServiceError::InvalidDataFormat(what) => ServiceErrorView::InvalidDataFormat(what@),
            ServiceError::NotFound(address) => ServiceErrorView::NotFound(address@),
            ServiceError::InvalidPassphrase => ServiceErrorView::InvalidPassphrase,
            ServiceError::NoKeyMaterial(address) => ServiceErrorView::NoKeyMaterial(address@),
            ServiceError::WeakPassphrase => ServiceErrorView::WeakPassphrase,
            ServiceError::NoEntropy => ServiceErrorView::NoEntropy,
            ServiceError::StoreError(detail) => ServiceErrorView::StoreError(detail@),
            ServiceError::StorageInit(detail) => ServiceErrorView::StorageInit(detail@),
        }
    }
}

impl ServiceErrorView {
    /// The kind of the failure, which depends on the variant alone.
    pub open spec fn kind(self) -> ErrorKind {
        match self {
            ServiceErrorView::MissingChainId => ErrorKind::Validation,
            ServiceErrorView::InvalidChainId(_) => ErrorKind::Validation,
            ServiceErrorView::InvalidDataFormat(_) => ErrorKind::Validation,
            ServiceErrorView::NotFound(_) => ErrorKind::NotFound,
            ServiceErrorView::InvalidPassphrase => ErrorKind::InvalidPassphrase,
            ServiceErrorView::NoKeyMaterial(_) => ErrorKind::NoKeyMaterial,
            ServiceErrorView::WeakPassphrase => ErrorKind::WeakPassphrase,
            ServiceErrorView::NoEntropy => ErrorKind::NoEntropy,
            ServiceErrorView::StoreError(_) => ErrorKind::Store,
            ServiceErrorView::StorageInit(_) => ErrorKind::StorageInit,
        }
    }
}

/// Whether `r` is the outcome `expected`.
pub open spec fn agrees<T>(
    r: Result<T, ServiceError>,
    expected: Result<T, ServiceErrorView>,
) -> bool {
    match expected {
        Ok(value) => r == Ok::<T, ServiceError>(value),
        Err(e) => r matches Err(got) && got@ == e,
    }
}

/// Whether `r` is the outcome `expected`, where success gives a text.
pub open spec fn agrees_text(
    r: Result<String, ServiceError>,
    expected: Result<Seq<char>, ServiceErrorView>,
) -> bool {
    match expected {
        Ok(text) => r matches Ok(got) && got@ == text,
        Err(e) => r matches Err(got) && got@ == e,
    }
}

impl ServiceError {
    /// The kind of the failure.
    pub fn kind(&self) -> (r: ErrorKind)
        ensures
            r == self@.kind(),
    {
        match self {
            ServiceError::MissingChainId => ErrorKind::Validation,
            ServiceError::InvalidChainId(_) => ErrorKind::Validation,
            ServiceError::InvalidDataFormat(_) => ErrorKind::Validation,
            ServiceError::NotFound(_) => ErrorKind::NotFound,
            ServiceError::InvalidPassphrase => ErrorKind::InvalidPassphrase,
            ServiceError::NoKeyMaterial(_) => ErrorKind::NoKeyMaterial,
            ServiceError::WeakPassphrase => ErrorKind::WeakPassphrase,
            ServiceError::NoEntropy => ErrorKind::NoEntropy,
            ServiceError::StoreError(_) => ErrorKind::Store,
            ServiceError::StorageInit(_) => ErrorKind::StorageInit,
        }
    }

    /// The code that the failure is reported with: that of its kind.
    pub open spec fn code_spec(self) -> i64 {
        self@.kind().code_spec()
    }

    /// The code that the failure is reported with.
    pub fn code(&self) -> (r: i64)
        ensures
            r == self.code_spec(),
    {
        self.kind().code()
    }

    /// Text of the error as shown to a caller. It is made of the variant and
    /// of the text the variant carries, and of nothing else.
    pub open spec fn message_spec(self) -> Seq<char> {
        match self {
            ServiceError::MissingChainId => "Required chain id parameter"@,
            ServiceError::InvalidChainId(id) => "Invalid chain id: "@ + decimal(id as nat),
            ServiceError::InvalidDataFormat(what) => "Invalid data format: "@ + what@,
            ServiceError::NotFound(address) => "Missing KeyFile for address: "@ + address@,
            ServiceError::InvalidPassphrase => "Invalid passphrase"@,
            ServiceError::NoKeyMaterial(address) => "No local key material for address: "@
                + address@,
            ServiceError::WeakPassphrase => "Passphrase is too weak"@,
            ServiceError::NoEntropy => "Random generator failure"@,
            ServiceError::StoreError(detail) => "KeyFile storage error: "@ + detail@,
            ServiceError::StorageInit(detail) => "Storage initialization error: "@ + detail@,
        }
    }

    /// Text of the error as shown to a caller.
    pub fn message(&self) -> (s: String)
        ensures
            s@ == self.message_spec(),
    {
        match self {
            ServiceError::MissingChainId => String::from_str("Required chain id parameter"),
            ServiceError::InvalidChainId(id) => {
                let digits = decimal_string(*id);
                String::from_str("Invalid chain id: ").concat(digits.as_str())
            },
            ServiceError::InvalidDataFormat(what) => {
                String::from_str("Invalid data format: ").concat(what.as_str())
            },
            ServiceError::NotFound(address) => {
                String::from_str("Missing KeyFile for address: ").concat(address.as_str())
            },
            ServiceError::InvalidPassphrase => String::from_str("Invalid passphrase"),
            ServiceError::NoKeyMaterial(address) => {
                String::from_str("No local key material for address: ").concat(address.as_str())
            },
            ServiceError::WeakPassphrase => String::from_str("Passphrase is too weak"),
            ServiceError::NoEntropy => String::from_str("Random generator failure"),
            ServiceError::StoreError(detail) => {
                String::from_str("KeyFile storage error: ").concat(detail.as_str())
            },
            ServiceError::StorageInit(detail) => {
                String::from_str("Storage initialization error: ").concat(detail.as_str())
            },
        }
    }
}

impl From<KeystoreError> for ServiceError {
    fn from(err: KeystoreError) -> (r: ServiceError) {
        match err {
            KeystoreError::StorageError(detail) => ServiceError::StoreError(detail),
            KeystoreError::NotFound(address) => ServiceError::NotFound(address),
        }
    }
}

impl vstd::std_specs::convert::FromSpecImpl<KeystoreError> for ServiceError {
    open spec fn obeys_from_spec() -> bool {
        true
    }

    open spec fn from_spec(err: KeystoreError) -> ServiceError {
        match err {
            KeystoreError::StorageError(detail) => ServiceError::StoreError(detail),
            KeystoreError::NotFound(address) => ServiceError::NotFound(address),
        }
    }
}

} // verus!
