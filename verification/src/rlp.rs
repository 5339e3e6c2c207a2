//! Recursive length prefix encoding of byte strings and of lists.

use crate::bytes::{join_bytes, to_vec};
use vstd::prelude::*;

verus! {

/// The bytes of `n` from the most significant one, without leading zero
/// bytes; none for zero.
pub open spec fn be_bytes(n: nat) -> Seq<u8>
    decreases n,
{
    if n == 0 {
        Seq::empty()
    } else {
        be_bytes(n / 256).push((n % 256) as u8)
    }
}

/// A number below 256 to the power 8 has at most 8 bytes.
pub proof fn lemma_be_bytes_len(n: nat)
    requires
        n < 0x1_0000_0000_0000_0000,
    ensures
        be_bytes(n).len() <= 8,
{
    reveal_with_fuel(be_bytes, 10);
    let n1 = n / 256;
    let n2 = n1 / 256;
    let n3 = n2 / 256;
    let n4 = n3 / 256;
    let n5 = n4 / 256;
    let n6 = n5 / 256;
    let n7 = n6 / 256;
    let n8 = n7 / 256;
    assert(n8 == 0);
}

/// The bytes of `n` from the most significant one, without leading zero
/// bytes.
pub fn be_bytes_of(n: usize) -> (r: Vec<u8>)
    ensures
        r@ == be_bytes(n as nat),
    decreases n,
{
    if n == 0 {
        Vec::new()
    } else {
        let mut out = be_bytes_of(n / 256);
        out.push((n % 256) as u8);
        out
    }
}

/// The prefix of an encoding whose content has `len` bytes: `base` plus the
/// length for a short content, else `base` plus 55 plus the number of bytes
/// of the length, and the length.
pub open spec fn rlp_header(base: u8, len: nat) -> Seq<u8> {
    if len < 56 {
        seq![(base + len) as u8]
    } else {
        seq![(base + 55 + be_bytes(len).len()) as u8] + be_bytes(len)
    }
}

/// The encoding of a byte string: a single byte below 128 stands for
/// itself, any other string follows its prefix.
pub open spec fn rlp_item(bytes: Seq<u8>) -> Seq<u8> {
    if bytes.len() == 1 && bytes[0] < 128 {
        bytes
    } else {
        rlp_header(128, bytes.len()) + bytes
    }
}

/// The encoding of a list whose encoded items, one after the other, are
/// `payload`.
pub open spec fn rlp_list(payload: Seq<u8>) -> Seq<u8> {
    rlp_header(192, payload.len()) + payload
}

fn encode_header(base: u8, len: usize) -> (r: Vec<u8>)
    requires
        base == 128 || base == 192,
    ensures
        r@ == rlp_header(base, len as nat),
{
    if len < 56 {
        let mut out: Vec<u8> = Vec::new();
        out.push(base + len as u8);
        assert(out@ =~= rlp_header(base, len as nat));
        out
    } else {
        let length = be_bytes_of(len);
        proof {
            lemma_be_bytes_len(len as nat);
        }
        let mut out: Vec<u8> = Vec::new();
        out.push(base + 55 + length.len() as u8);
        let r = join_bytes(out.as_slice(), length.as_slice());
        assert(r@ =~= rlp_header(base, len as nat));
        r
    }
}

/// Encodes a byte string.
pub fn encode_item(bytes: &[u8]) -> (r: Vec<u8>)
    ensures
        r@ == rlp_item(bytes@),
{
    if bytes.len() == 1 && bytes[0] < 128 {
        to_vec(bytes)
    } else {
        let header = encode_header(128, bytes.len());
        join_bytes(header.as_slice(), bytes)
    }
}

/// Encodes a list from its encoded items.
pub fn encode_list(payload: &[u8]) -> (r: Vec<u8>)
    ensures
        r@ == rlp_list(payload@),
{
    let header = encode_header(192, payload.len());
    join_bytes(header.as_slice(), payload)
}

} // verus!
