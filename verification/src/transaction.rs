//! Transactions: how a request gives one, and what is signed of it.

use crate::address::{parse_address, Address};
use crate::bytes::{copy_range, join_bytes};
use crate::hex::{data_bytes, parse_data, parse_quantity, quantity_bytes, trim_zeros, trimmed};
use crate::rlp::{be_bytes, be_bytes_of, encode_item, encode_list, rlp_item, rlp_list};
use crate::rpc::common::SignTxTransaction;
use crate::rpc::error::{ServiceError, ServiceErrorView};
use vstd::prelude::*;
use vstd::string::*;

verus! {

/// A transaction. Each number is held as its bytes from the most
/// significant one, without leading zero bytes.
#[derive(Debug)]
pub struct Transaction {
    pub nonce: Vec<u8>,
    pub gas_price: Vec<u8>,
    pub gas_limit: Vec<u8>,
    /// The receiver; none where the transaction creates a contract.
    pub to: Option<Address>,
    pub value: Vec<u8>,
    pub data: Vec<u8>,
}

/// What `Transaction` holds.
pub struct TransactionView {
    pub nonce: Seq<u8>,
    pub gas_price: Seq<u8>,
    pub gas_limit: Seq<u8>,
    pub to: Option<Seq<u8>>,
    pub value: Seq<u8>,
    pub data: Seq<u8>,
}

impl View for Transaction {
    type V = TransactionView;

    open spec fn view(&self) -> TransactionView {
        TransactionView {
            nonce: self.nonce@,
            gas_price: self.gas_price@,
            gas_limit: self.gas_limit@,
            to: match self.to {
                Some(address) => Some(address@),
                None => None,
            },
            value: self.value@,
            data: self.data@,
        }
    }
}

/// The receiver that the text `to` of a request names: none where the text
/// is empty, `Err` where it is no address.
pub open spec fn receiver_of(to: Seq<char>) -> Result<Option<Seq<u8>>, ()> {
    if to.len() == 0 {
        Ok(None)
    } else {
        match parse_address(to) {
            Some(address) => Ok(Some(address)),
            None => Err(()),
        }
    }
}

/// The sender and the transaction that a request gives, or the error that
/// names the first field that is malformed: `from`, `to`, `gas`, `gasPrice`,
/// `value`, `data`, `nonce`, in this order. The gas limit and the nonce take
/// at most 8 bytes, the gas price and the value at most 32.
pub open spec fn transaction_of(tx: SignTxTransaction) -> Result<
    (Seq<u8>, TransactionView),
    ServiceErrorView,
> {
    if parse_address(tx.from@) is None {
        Err(ServiceErrorView::InvalidDataFormat("from"@))
    } else if receiver_of(tx.to@) is Err {
        Err(ServiceErrorView::InvalidDataFormat("to"@))
    } else if quantity_bytes(tx.gas@, 8) is None {
        Err(ServiceErrorView::InvalidDataFormat("gas"@))
    } else if quantity_bytes(tx.gas_price@, 32) is None {
        Err(ServiceErrorView::InvalidDataFormat("gasPrice"@))
    } else if quantity_bytes(tx.value@, 32) is None {
        Err(ServiceErrorView::InvalidDataFormat("value"@))
    } else if data_bytes(tx.data@) is None {
        Err(ServiceErrorView::InvalidDataFormat("data"@))
    } else if quantity_bytes(tx.nonce@, 8) is None {
        Err(ServiceErrorView::InvalidDataFormat("nonce"@))
    } else {
        Ok(
            (
                parse_address(tx.from@).unwrap(),
                TransactionView {
                    nonce: quantity_bytes(tx.nonce@, 8).unwrap(),
                    gas_price: quantity_bytes(tx.gas_price@, 32).unwrap(),
                    gas_limit: quantity_bytes(tx.gas@, 8).unwrap(),
                    to: receiver_of(tx.to@).unwrap(),
                    value: quantity_bytes(tx.value@, 32).unwrap(),
                    data: data_bytes(tx.data@).unwrap(),
                },
            ),
        )
    }
}

/// The encoded fields of a transaction, one after the other: nonce, gas
/// price, gas limit, receiver, value, data.
pub open spec fn fields_payload(tx: TransactionView) -> Seq<u8> {
    rlp_item(tx.nonce) + rlp_item(tx.gas_price) + rlp_item(tx.gas_limit) + rlp_item(
        match tx.to {
            Some(address) => address,
            None => Seq::empty(),
        },
    ) + rlp_item(tx.value) + rlp_item(tx.data)
}

/// What is hashed and signed of a transaction for the chain `chain`: the
/// list of its fields, the chain identifier and two empty strings, so that
/// the signature holds on that chain only.
pub open spec fn signing_payload(tx: TransactionView, chain: u8) -> Seq<u8> {
    rlp_list(
        fields_payload(tx) + rlp_item(be_bytes(chain as nat)) + rlp_item(Seq::empty()) + rlp_item(
            Seq::empty(),
        ),
    )
}

/// The number that stands for the chain and the recovery identifier in a
/// signed transaction.
pub open spec fn chain_v(chain: u8, recovery: u8) -> nat {
    (35 + 2 * chain + recovery) as nat
}

/// The signed transaction: the list of the fields, the number of
/// `chain_v`, and the two halves of the signature as numbers.
pub open spec fn signed_payload(
    tx: TransactionView,
    chain: u8,
    signature: Seq<u8>,
    recovery: u8,
) -> Seq<u8> {
    rlp_list(
        fields_payload(tx) + rlp_item(be_bytes(chain_v(chain, recovery))) + rlp_item(
            trimmed(signature.take(32)),
        ) + rlp_item(trimmed(signature.skip(32))),
    )
}

impl Transaction {
    /// Reads the sender and the transaction that a request gives.
    ///
    /// # Errors
    ///
    /// `InvalidDataFormat` that names the first field that is malformed.
    pub fn parse(tx: &SignTxTransaction) -> (r: Result<(Address, Transaction), ServiceError>)
        ensures
            match transaction_of(*tx) {
                Ok((from, transaction)) => {
                    &&& r matches Ok((sender, got))
                    &&& sender@ == from
                    &&& got@ == transaction
                },
                Err(e) => r matches Err(got) && got@ == e,
            },
    {
        let from = match Address::parse(tx.from.as_str()) {
            Some(address) => address,
            None => {
                return Err(ServiceError::InvalidDataFormat(String::from_str("from")));
            },
        };
        let to = if tx.to.as_str().is_empty() {
            None
        } else {
            match Address::parse(tx.to.as_str()) {
                Some(address) => Some(address),
                None => {
                    return Err(ServiceError::InvalidDataFormat(String::from_str("to")));
                },
            }
        };
        let gas_limit = match parse_quantity(tx.gas.as_str(), 8) {
            Some(bytes) => bytes,
            None => {
                return Err(ServiceError::InvalidDataFormat(String::from_str("gas")));
            },
        };
        let gas_price = match parse_quantity(tx.gas_price.as_str(), 32) {
            Some(bytes) => bytes,
            None => {
                return Err(ServiceError::InvalidDataFormat(String::from_str("gasPrice")));
            },
        };
        let value = match parse_quantity(tx.value.as_str(), 32) {
            Some(bytes) => bytes,
            None => {
                return Err(ServiceError::InvalidDataFormat(String::from_str("value")));
            },
        };
        let data = match parse_data(tx.data.as_str()) {
            Some(bytes) => bytes,
            None => {
                return Err(ServiceError::InvalidDataFormat(String::from_str("data")));
            },
        };
        let nonce = match parse_quantity(tx.nonce.as_str(), 8) {
            Some(bytes) => bytes,
            None => {
                return Err(ServiceError::InvalidDataFormat(String::from_str("nonce")));
            },
        };
        Ok((from, Transaction { nonce, gas_price, gas_limit, to, value, data }))
    }

    fn fields(&self) -> (r: Vec<u8>)
        ensures
            r@ == fields_payload(self@),
    {
        let nonce = encode_item(self.nonce.as_slice());
        let gas_price = encode_item(self.gas_price.as_slice());
        let gas_limit = encode_item(self.gas_limit.as_slice());
        let to = match &self.to {
            Some(address) => encode_item(address.0.as_slice()),
            None => {
                let empty: Vec<u8> = Vec::new();
                encode_item(empty.as_slice())
            },
        };
        let value = encode_item(self.value.as_slice());
        let data = encode_item(self.data.as_slice());
        let mut out = join_bytes(nonce.as_slice(), gas_price.as_slice());
        out = join_bytes(out.as_slice(), gas_limit.as_slice());
        out = join_bytes(out.as_slice(), to.as_slice());
        out = join_bytes(out.as_slice(), value.as_slice());
        out = join_bytes(out.as_slice(), data.as_slice());
        out
    }

    /// What is hashed and signed of the transaction for the chain `chain`.
    pub fn to_signing_payload(&self, chain: u8) -> (r: Vec<u8>)
        ensures
            r@ == signing_payload(self@, chain),
    {
        let empty: Vec<u8> = Vec::new();
        let chain_bytes = be_bytes_of(chain as usize);
        let chain_item = encode_item(chain_bytes.as_slice());
        let empty_item = encode_item(empty.as_slice());
        let mut out = self.fields();
        out = join_bytes(out.as_slice(), chain_item.as_slice());
        out = join_bytes(out.as_slice(), empty_item.as_slice());
        out = join_bytes(out.as_slice(), empty_item.as_slice());
        encode_list(out.as_slice())
    }

    /// The signed transaction, from the signature of its signing payload.
    pub(crate) fn to_signed_payload(&self, chain: u8, signature: &[u8], recovery: u8) -> (r: Vec<
        u8,
    >)
        requires
            signature@.len() == 64,
        ensures
            r@ == signed_payload(self@, chain, signature@, recovery),
    {
        let v: usize = 35 + 2 * (chain as usize) + recovery as usize;
        let v_bytes = be_bytes_of(v);
        let first = copy_range(signature, 0, 32);
        let second = copy_range(signature, 32, 64);
        assert(first@ =~= signature@.take(32));
        assert(second@ =~= signature@.skip(32));
        let r_bytes = trim_zeros(first.as_slice());
        let s_bytes = trim_zeros(second.as_slice());
        let v_item = encode_item(v_bytes.as_slice());
        let r_item = encode_item(r_bytes.as_slice());
        let s_item = encode_item(s_bytes.as_slice());
        let mut out = self.fields();
        out = join_bytes(out.as_slice(), v_item.as_slice());
        out = join_bytes(out.as_slice(), r_item.as_slice());
        out = join_bytes(out.as_slice(), s_item.as_slice());
        encode_list(out.as_slice())
    }
}

} // verus!
