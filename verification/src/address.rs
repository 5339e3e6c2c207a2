//! Account addresses.

use crate::hex::{
    from_hex, hex_decode, hex_encode, lemma_hex_round_trip, strip_prefix, to_hex, unprefixed,
};
use vstd::prelude::*;
use vstd::string::*;

verus! {

/// Number of bytes of an address.
pub const ADDRESS_BYTES: usize = 20;

/// The number that `bytes` denote, most significant byte first. Among byte
/// strings of one length it orders as the bytes do, read from the left.
pub open spec fn rank_of(bytes: Seq<u8>) -> nat
    decreases bytes.len(),
{
    if bytes.len() == 0 {
        0
    } else {
        rank_of(bytes.drop_last()) * 256 + bytes.last() as nat
    }
}

/// Of two byte strings of one length, the one with the smaller byte at the
/// first place where they differ has the smaller rank.
pub proof fn lemma_rank_first_difference(a: Seq<u8>, b: Seq<u8>, k: int)
    requires
        a.len() == b.len(),
        0 <= k < a.len(),
        forall|j: int| 0 <= j < k ==> a[j] == b[j],
        a[k] < b[k],
    ensures
        rank_of(a) < rank_of(b),
    decreases a.len(),
{
    if k == a.len() - 1 {
        assert(a.drop_last() =~= b.drop_last());
    } else {
        lemma_rank_first_difference(a.drop_last(), b.drop_last(), k);
    }
}

/// The bytes of the address that `text` denotes: forty hexadecimal digits of
/// either case, with or without the prefix `0x`.
pub open spec fn parse_address(text: Seq<char>) -> Option<Seq<u8>> {
    match hex_decode(unprefixed(text)) {
        Some(bytes) => if bytes.len() == ADDRESS_BYTES {
            Some(bytes)
        } else {
            None
        },
        None => None,
    }
}

/// Where one address stands with respect to another in ascending order.
#[derive(Clone, Copy, Debug, PartialEq, Eq, Structural)]
pub enum Place {
    Before,
    Same,
    After,
}

/// Fixed-width identifier of an account.
#[derive(Clone, Copy, Debug)]
pub struct Address(pub [u8; 20]);

impl View for Address {
    type V = Seq<u8>;

    open spec fn view(&self) -> Seq<u8> {
        self.0@
    }
}

impl Address {
    /// Place of the address in the ascending order of addresses.
    pub open spec fn rank(&self) -> nat {
        rank_of(self@)
    }

    /// The address in text: `0x` and forty lower-case hexadecimal digits.
    pub open spec fn hex_spec(&self) -> Seq<char> {
        "0x"@ + hex_encode(self@)
    }

    /// The first place where the two addresses differ, if they do.
    pub fn first_difference(&self, other: &Address) -> (r: Option<usize>)
        ensures
            match r {
                Some(k) => k < ADDRESS_BYTES && self@[k as int] != other@[k as int]
                    && forall|j: int| 0 <= j < k ==> self@[j] == other@[j],
                None => self@ == other@,
            },
    {
        let mut i: usize = 0;
        while i < 20
            invariant
                i <= 20,
                forall|j: int| 0 <= j < i ==> self@[j] == other@[j],
            decreases 20 - i,
        {
            if self.0[i] != other.0[i] {
                return Some(i);
            }
            i += 1;
        }
        assert(self@ =~= other@);
        None
    }

    /// Where this address stands with respect to `other`.
    pub fn place(&self, other: &Address) -> (r: Place)
        ensures
            match r {
                Place::Before => self.rank() < other.rank(),
                Place::Same => self@ == other@,
                Place::After => other.rank() < self.rank(),
            },
    {
        match self.first_difference(other) {
            None => Place::Same,
            Some(k) => {
                if self.0[k] < other.0[k] {
                    proof {
                        lemma_rank_first_difference(self@, other@, k as int);
                    }
                    Place::Before
                } else {
                    proof {
                        lemma_rank_first_difference(other@, self@, k as int);
                    }
                    Place::After
                }
            },
        }
    }

    /// Whether the two addresses are the same.
    pub fn same(&self, other: &Address) -> (r: bool)
        ensures
            r == (self@ == other@),
    {
        self.first_difference(other).is_none()
    }

    /// Whether this address comes before `other` in ascending order.
    pub fn precedes(&self, other: &Address) -> (r: bool)
        ensures
            r == (self.rank() < other.rank()),
    {
        match self.first_difference(other) {
            None => false,
            Some(k) => {
                let less = self.0[k] < other.0[k];
                proof {
                    if less {
                        lemma_rank_first_difference(self@, other@, k as int);
                    } else {
                        lemma_rank_first_difference(other@, self@, k as int);
                    }
                }
                less
            },
        }
    }

    /// Writes the address as `0x` and forty lower-case hexadecimal digits.
    pub fn to_hex(&self) -> (s: String)
        ensures
            s@ == self.hex_spec(),
    {
        let digits = to_hex(self.0.as_slice());
        String::from_str("0x").concat(digits.as_str())
    }

    /// Reads an address from forty hexadecimal digits of either case, with
    /// or without the prefix `0x`: `None` if `text` is no such notation.
    pub fn parse(text: &str) -> (r: Option<Address>)
        ensures
            match parse_address(text@) {
                Some(bytes) => r matches Some(address) && address@ == bytes,
                None => r is None,
            },
    {
        match from_hex(strip_prefix(text)) {
            Some(bytes) => {
                if bytes.len() == 20 {
                    let mut out = [0u8;20];
                    let mut i: usize = 0;
                    while i < 20
                        invariant
                            i <= 20,
                            bytes@.len() == 20,
                            forall|j: int| 0 <= j < i ==> out@[j] == bytes@[j],
                        decreases 20 - i,
                    {
                        out[i] = bytes[i];
                        i += 1;
                    }
                    assert(out@ =~= bytes@);
                    Some(Address(out))
                } else {
                    None
                }
            },
            None => None,
        }
    }
}

/// An address written as text is read back unchanged.
pub proof fn lemma_address_round_trip(address: Address)
    ensures
        parse_address(address.hex_spec()) == Some(address@),
{
    reveal_strlit("0x");
    let text = address.hex_spec();
    assert(text[0] == '0' && text[1] == 'x');
    assert(unprefixed(text) =~= hex_encode(address@));
    lemma_hex_round_trip(address@);
}

} // verus!
