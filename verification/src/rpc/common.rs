//! Common types for request handlers.
//!
//! A request arrives in one of two shapes: the bare positional arguments, or
//! the positional arguments followed by an object of additional fields. The
//! enums of this module hold either shape, and `into_full` turns both into
//! the one form that the handlers work on, filling what the bare shape lacks
//! with the defaults of the additional object.

use crate::rpc::error::{ServiceError, ServiceErrorView};
use crate::util::{
    chain_name, decimal_string, id_of_chain, is_known_chain, known_chain, name_of_chain,
    to_chain_id, to_chain_name, ChainID,
};
use vstd::prelude::*;
use vstd::string::*;

verus! {

/// `serde_json::Value`, a document in the transport's value model. It is
/// carried through as it is: nothing is known of what it holds.
#[verifier::external_type_specification]
#[verifier::external_body]
pub struct ExJsonValue(serde_json::Value);

/// Access to the chain identifier that a request may carry.
pub trait CommonChainParams {
    /// The chain identifier of the request, if it names one.
    spec fn chain_id_spec(&self) -> Option<usize>;

    fn get_chain_id(&self) -> (r: Option<usize>)
        ensures
            r == self.chain_id_spec(),
    ;
}

/// The chain that the identifier `chain_id` of a request stands for: its
/// name and its identifier. A request that names none has no chain, and an
/// identifier that the table of chains does not hold is refused, never
/// replaced.
pub open spec fn chain_resolved(chain_id: Option<usize>) -> Result<
    (Seq<char>, ChainID),
    ServiceErrorView,
> {
    match chain_id {
        None => Err(ServiceErrorView::MissingChainId),
        Some(id) => if is_known_chain(id as int) {
            Ok((chain_name(id as int), id as u8))
        } else {
            Err(ServiceErrorView::InvalidChainId(id))
        },
    }
}

/// Every identifier outside the table of chains is refused as
/// `InvalidChainId`, one that does not fit the identifier's eight bits too,
/// and every identifier of the table resolves to itself and its name.
pub proof fn lemma_chain_resolution(id: usize)
    ensures
        !is_known_chain(id as int) ==> chain_resolved(Some(id)) == Err::<
            (Seq<char>, ChainID),
            ServiceErrorView,
        >(ServiceErrorView::InvalidChainId(id)),
        id > 255 ==> !is_known_chain(id as int),
        is_known_chain(id as int) ==> chain_resolved(Some(id)) == Ok::<
            (Seq<char>, ChainID),
            ServiceErrorView,
        >((chain_name(id as int), id as u8)) && id as u8 == id && name_of_chain(id as int)
            == Some(chain_name(id as int)),
{
}

/// Resolves the chain that the identifier `chain_id` of a request stands
/// for, and returns its name and identifier.
///
/// # Errors
///
/// `MissingChainId` if `chain_id` is none, `InvalidChainId` if the
/// identifier is not in the table of chains (one that does not fit the
/// identifier's eight bits is not).
pub fn resolve_chain(chain_id: Option<usize>) -> (r: Result<(String, ChainID), ServiceError>)
    ensures
        match chain_resolved(chain_id) {
            Ok((name, chain)) => r matches Ok((got, id)) && got@ == name && id == chain,
            Err(e) => r matches Err(got) && got@ == e,
        },
{
    match chain_id {
        None => Err(ServiceError::MissingChainId),
        Some(id) => {
            if id <= 255 && known_chain(id as u8) {
                Ok((decimal_string(id), id as u8))
            } else {
                Err(ServiceError::InvalidChainId(id))
            }
        },
    }
}

/// Resolves the chain a request is for, and returns its name and identifier.
///
/// # Errors
///
/// `MissingChainId` if the request names no chain, `InvalidChainId` if the
/// identifier is not in the table of chains (one that does not fit the
/// identifier's eight bits is not).
pub fn extract_chain_params(p: &dyn CommonChainParams) -> (r: Result<
    (String, ChainID),
    ServiceError,
>)
    ensures
        match chain_resolved(p.chain_id_spec()) {
            Ok((name, chain)) => r matches Ok((got, id)) && got@ == name && id == chain,
            Err(e) => r matches Err(got) && got@ == e,
        },
{
    resolve_chain(p.get_chain_id())
}

/// The identifier of the chain called `n`.
///
/// # Errors
///
/// `InvalidDataFormat`, with a text that ends in `n`, if the table holds no
/// chain of that name.
pub fn check_chain_name(n: &str) -> (r: Result<u8, ServiceError>)
    ensures
        match id_of_chain(n@) {
            Some(id) => r == Ok::<u8, ServiceError>(id),
            None => {
                &&& r matches Err(ServiceError::InvalidDataFormat(text))
                &&& text@ == "Invalid chain name: "@ + n@
            },
        },
{
    match to_chain_id(n) {
        Some(id) => Ok(id),
        None => Err(
            ServiceError::InvalidDataFormat(String::from_str("Invalid chain name: ").concat(n)),
        ),
    }
}

/// The name of the chain `id`.
///
/// # Errors
///
/// `InvalidChainId` if the table holds no chain of that identifier.
pub fn check_chain_id(id: u8) -> (r: Result<String, ServiceError>)
    ensures
        match name_of_chain(id as int) {
            Some(name) => r matches Ok(got) && got@ == name,
            None => r == Err::<String, ServiceError>(ServiceError::InvalidChainId(id as usize)),
        },
{
    match to_chain_name(id) {
        Some(n) => Ok(n),
        None => Err(ServiceError::InvalidChainId(id as usize)),
    }
}

/// The text that tells why a request has neither shape: the complaint about
/// the full shape, then the complaint about the bare shape.
pub open spec fn neither_shape(current: Seq<char>, legacy: Seq<char>) -> Seq<char> {
    current + "; "@ + legacy
}

/// Parameters of a transaction signing request: the transaction and the
/// passphrase, or the full form.
#[derive(Debug)]
pub enum SignTxParams<T, U> {
    Left(T, String),
    Right(U),
}

impl<T, U> SignTxParams<T, U> {
    /// Chooses between the two readings of one request: the full shape where
    /// the request has it, else the bare shape. A reading that failed comes
    /// as the reader's complaint, which names the field that it stumbled on.
    ///
    /// # Errors
    ///
    /// `InvalidDataFormat` with both complaints, that of the full shape
    /// first, if the request has neither shape.
    pub fn from_shapes(
        current: Result<U, String>,
        legacy: Result<(T, String), String>,
    ) -> (r: Result<
        SignTxParams<T, U>,
        ServiceError,
    >)
        ensures
            match (current, legacy) {
                (Ok(u), _) => r == Ok::<SignTxParams<T, U>, ServiceError>(SignTxParams::Right(u)),
                (Err(_), Ok((t, s))) => r == Ok::<SignTxParams<T, U>, ServiceError>(
                    SignTxParams::Left(t, s),
                ),
                (Err(c), Err(l)) => r matches Err(ServiceError::InvalidDataFormat(text))
                    && text@ == neither_shape(c@, l@),
            },
    {
        match current {
            Ok(u) => Ok(SignTxParams::Right(u)),
            Err(c) => match legacy {
                Ok((t, s)) => Ok(SignTxParams::Left(t, s)),
                Err(l) => Err(
                    ServiceError::InvalidDataFormat(c.concat("; ").concat(l.as_str())),
                ),
            },
        }
    }
}

impl<T, U: Default> SignTxParams<T, U> {
    /// The full form, or its default where the request has the bare shape.
    pub fn into_right(self) -> (r: U)
        ensures
            match self {
                SignTxParams::Left(_, _) => call_ensures(U::default, (), r),
                SignTxParams::Right(u) => r == u,
            },
    {
        match self {
            SignTxParams::Left(_, _) => U::default(),
            SignTxParams::Right(u) => u,
        }
    }
}

impl<T, U: Default> SignTxParams<(T, String), (T, String, U)> {
    /// The positional arguments of either shape, with the additional fields
    /// at their defaults where the request has the bare shape.
    pub fn into_full(self) -> (r: (T, String, U))
        ensures
            match self {
                SignTxParams::Left((t, s), _) => r.0 == t && r.1 == s && call_ensures(
                    U::default,
                    (),
                    r.2,
                ),
                SignTxParams::Right(full) => r == full,
            },
    {
        match self {
            SignTxParams::Left((t, s), _) => (t, s, U::default()),
            SignTxParams::Right((t, s, u)) => (t, s, u),
        }
    }
}

/// Parameters of a message signing request: address, message and passphrase,
/// or the full form.
#[derive(Debug)]
pub enum SignParams<U> {
    Left(String, String, String),
    Right(U),
}

impl<U> SignParams<U> {
    /// Chooses between the two readings of one request: the full shape where
    /// the request has it, else the bare shape. A reading that failed comes
    /// as the reader's complaint, which names the field that it stumbled on.
    ///
    /// # Errors
    ///
    /// `InvalidDataFormat` with both complaints, that of the full shape
    /// first, if the request has neither shape.
    pub fn from_shapes(
        current: Result<U, String>,
        legacy: Result<(String, String, String), String>,
    ) -> (r: Result<SignParams<U>, ServiceError>)
        ensures
            match (current, legacy) {
                (Ok(u), _) => r == Ok::<SignParams<U>, ServiceError>(SignParams::Right(u)),
                (Err(_), Ok((t, p, s))) => r == Ok::<SignParams<U>, ServiceError>(
                    SignParams::Left(t, p, s),
                ),
                (Err(c), Err(l)) => r matches Err(ServiceError::InvalidDataFormat(text))
                    && text@ == neither_shape(c@, l@),
            },
    {
        match current {
            Ok(u) => Ok(SignParams::Right(u)),
            Err(c) => match legacy {
                Ok((t, p, s)) => Ok(SignParams::Left(t, p, s)),
                Err(l) => Err(
                    ServiceError::InvalidDataFormat(c.concat("; ").concat(l.as_str())),
                ),
            },
        }
    }
}

impl<U: Default> SignParams<U> {
    /// The full form, or its default where the request has the bare shape.
    pub fn into_right(self) -> (r: U)
        ensures
            match self {
                SignParams::Left(_, _, _) => call_ensures(U::default, (), r),
                SignParams::Right(u) => r == u,
            },
    {
        match self {
            SignParams::Left(_, _, _) => U::default(),
            SignParams::Right(u) => u,
        }
    }
}

impl<U: Default> SignParams<(String, String, String, U)> {
    /// The positional arguments of either shape, with the additional fields
    /// at their defaults where the request has the bare shape.
    pub fn into_full(self) -> (r: (String, String, String, U))
        ensures
            match self {
                SignParams::Left(t, p, s) => r.0 == t && r.1 == p && r.2 == s && call_ensures(
                    U::default,
                    (),
                    r.3,
                ),
                SignParams::Right(full) => r == full,
            },
    {
        match self {
            SignParams::Left(t, p, s) => (t, p, s, U::default()),
            SignParams::Right((t, p, s, u)) => (t, p, s, u),
        }
    }
}

/// Parameters of a typed data signing request: address, document and
/// passphrase, or the full form.
#[derive(Debug)]
pub enum SignTypedDataParams<U> {
    Left(String, serde_json::Value, String),
    Right(U),
}

impl<U> SignTypedDataParams<U> {
    /// Chooses between the two readings of one request: the full shape where
    /// the request has it, else the bare shape. A reading that failed comes
    /// as the reader's complaint, which names the field that it stumbled on.
    ///
    /// # Errors
    ///
    /// `InvalidDataFormat` with both complaints, that of the full shape
    /// first, if the request has neither shape.
    pub fn from_shapes(
        current: Result<U, String>,
        legacy: Result<(String, serde_json::Value, String), String>,
    ) -> (r: Result<SignTypedDataParams<U>, ServiceError>)
        ensures
            match (current, legacy) {
                (Ok(u), _) => r == Ok::<SignTypedDataParams<U>, ServiceError>(
                    SignTypedDataParams::Right(u),
                ),
                (Err(_), Ok((t, p, s))) => r == Ok::<SignTypedDataParams<U>, ServiceError>(
                    SignTypedDataParams::Left(t, p, s),
                ),
                (Err(c), Err(l)) => r matches Err(ServiceError::InvalidDataFormat(text))
                    && text@ == neither_shape(c@, l@),
            },
    {
        match current {
            Ok(u) => Ok(SignTypedDataParams::Right(u)),
            Err(c) => match legacy {
                Ok((t, p, s)) => Ok(SignTypedDataParams::Left(t, p, s)),
                Err(l) => Err(
                    ServiceError::InvalidDataFormat(c.concat("; ").concat(l.as_str())),
                ),
            },
        }
    }
}

impl<U: Default> SignTypedDataParams<U> {
    /// The full form, or its default where the request has the bare shape.
    pub fn into_right(self) -> (r: U)
        ensures
            match self {
                SignTypedDataParams::Left(_, _, _) => call_ensures(U::default, (), r),
                SignTypedDataParams::Right(u) => r == u,
            },
    {
        match self {
            SignTypedDataParams::Left(_, _, _) => U::default(),
            SignTypedDataParams::Right(u) => u,
        }
    }
}

impl<U: Default> SignTypedDataParams<(String, serde_json::Value, String, U)> {
    /// The positional arguments of either shape, with the additional fields
    /// at their defaults where the request has the bare shape.
    pub fn into_full(self) -> (r: (String, serde_json::Value, String, U))
        ensures
            match self {
                SignTypedDataParams::Left(t, p, s) => r.0 == t && r.1 == p && r.2 == s
                    && call_ensures(U::default, (), r.3),
                SignTypedDataParams::Right(full) => r == full,
            },
    {
        match self {
            SignTypedDataParams::Left(t, p, s) => (t, p, s, U::default()),
            SignTypedDataParams::Right((t, p, s, u)) => (t, p, s, u),
        }
    }
}

/// A request in its bare shape `T` or in its full shape `U`.
#[derive(Debug)]
pub enum Either<T, U> {
    Left(T),
    Right(U),
}

impl<T, U> Either<T, U> {
    /// Chooses between the two readings of one request: the full shape where
    /// the request has it, else the bare shape. A reading that failed comes
    /// as the reader's complaint, which names the field that it stumbled on.
    ///
    /// # Errors
    ///
    /// `InvalidDataFormat` with both complaints, that of the full shape
    /// first, if the request has neither shape.
    pub fn from_shapes(current: Result<U, String>, legacy: Result<T, String>) -> (r: Result<
        Either<T, U>,
        ServiceError,
    >)
        ensures
            match (current, legacy) {
                (Ok(u), _) => r == Ok::<Either<T, U>, ServiceError>(Either::Right(u)),
                (Err(_), Ok(t)) => r == Ok::<Either<T, U>, ServiceError>(Either::Left(t)),
                (Err(c), Err(l)) => r matches Err(ServiceError::InvalidDataFormat(text))
                    && text@ == neither_shape(c@, l@),
            },
    {
        match current {
            Ok(u) => Ok(Either::Right(u)),
            Err(c) => match legacy {
                Ok(t) => Ok(Either::Left(t)),
                Err(l) => Err(
                    ServiceError::InvalidDataFormat(c.concat("; ").concat(l.as_str())),
                ),
            },
        }
    }
}

impl<T, U: Default> Either<T, U> {
    /// The full form, or its default where the request has the bare shape.
    pub fn into_right(self) -> (r: U)
        ensures
            match self {
                Either::Left(_) => call_ensures(U::default, (), r),
                Either::Right(u) => r == u,
            },
    {
        match self {
            Either::Left(_) => U::default(),
            Either::Right(u) => u,
        }
    }
}

impl<T, U: Default> Either<(T,), (T, U)> {
    /// The positional argument of either shape, with the additional fields at
    /// their defaults where the request has the bare shape.
    pub fn into_full(self) -> (r: (T, U))
        ensures
            match self {
                Either::Left((t,)) => r.0 == t && call_ensures(U::default, (), r.1),
                Either::Right(full) => r == full,
            },
    {
        match self {
            Either::Left((t,)) => (t, U::default()),
            Either::Right((t, u)) => (t, u),
        }
    }
}

/// Request to change an account's passphrase.
pub struct ShakeAccountAccount {
    pub address: String,
    pub old_passphrase: String,
    pub new_passphrase: String,
}

/// Request to export an account's keyfile.
pub struct ExportAccountAccount {
    pub address: String,
    pub passphrase: String,
}

/// Request to change an account's name and description.
pub struct UpdateAccountAccount {
    pub address: String,
    pub name: String,
    pub description: String,
}

/// Request to create an account.
#[derive(Debug)]
pub struct NewAccountAccount {
    pub name: String,
    pub description: String,
    pub passphrase: String,
}

/// What a listing shows of an account.
#[derive(Debug)]
pub struct ListAccountAccount {
    pub name: String,
    pub address: String,
    pub description: String,
    pub hardware: bool,
    pub is_hidden: bool,
}

/// Additional fields of a listing request.
#[derive(Debug)]
pub struct ListAccountsAdditional {
    pub chain_id: Option<usize>,
    pub show_hidden: bool,
    pub hd_path: Option<String>,
}

impl Default for ListAccountsAdditional {
    /// No chain, hidden accounts left out, no derivation path.
    fn default() -> (r: Self)
        ensures
            r.chain_id is None,
            !r.show_hidden,
            r.hd_path is None,
    {
        ListAccountsAdditional { chain_id: None, show_hidden: false, hd_path: None }
    }
}

impl CommonChainParams for ListAccountsAdditional {
    open spec fn chain_id_spec(&self) -> Option<usize> {
        self.chain_id
    }

    fn get_chain_id(&self) -> (r: Option<usize>) {
        self.chain_id
    }
}

/// Request that names one account.
pub struct SelectedAccount {
    pub address: String,
}

/// Additional fields that most requests share.
#[derive(Debug)]
pub struct CommonAdditional {
    pub chain_id: Option<usize>,
}

impl Default for CommonAdditional {
    /// No chain.
    fn default() -> (r: Self)
        ensures
            r.chain_id is None,
    {
        CommonAdditional { chain_id: None }
    }
}

impl CommonChainParams for CommonAdditional {
    open spec fn chain_id_spec(&self) -> Option<usize> {
        self.chain_id
    }

    fn get_chain_id(&self) -> (r: Option<usize>) {
        self.chain_id
    }
}

/// A transaction as a request gives it: every field in hexadecimal.
#[derive(Debug, Clone)]
pub struct SignTxTransaction {
    pub from: String,
    pub to: String,
    pub gas: String,
    pub gas_price: String,
    pub value: String,
    pub data: String,
    pub nonce: String,
}

/// Additional fields of a transaction signing request.
#[derive(Debug)]
pub struct SignTxAdditional {
    pub chain_id: Option<usize>,
    pub hd_path: Option<String>,
}

impl Default for SignTxAdditional {
    /// No chain, no derivation path.
    fn default() -> (r: Self)
        ensures
            r.chain_id is None,
            r.hd_path is None,
    {
        SignTxAdditional { chain_id: None, hd_path: None }
    }
}

impl CommonChainParams for SignTxAdditional {
    open spec fn chain_id_spec(&self) -> Option<usize> {
        self.chain_id
    }

    fn get_chain_id(&self) -> (r: Option<usize>) {
        self.chain_id
    }
}

/// Values and types of the arguments of a contract function call.
#[derive(Debug)]
pub struct FunctionParams {
    pub values: Vec<String>,
    pub types: Vec<String>,
}

impl Default for FunctionParams {
    /// No arguments.
    fn default() -> (r: Self)
        ensures
            r.values@.len() == 0,
            r.types@.len() == 0,
    {
        FunctionParams { values: Vec::new(), types: Vec::new() }
    }
}

/// Request to create an account from a mnemonic phrase.
#[derive(Debug)]
pub struct NewMnemonicAccount {
    pub name: String,
    pub description: String,
    pub passphrase: String,
    pub mnemonic: String,
    pub hd_path: String,
}

} // verus!
