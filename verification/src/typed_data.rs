//! Typed data: a structured document with the types that describe it.

use vstd::prelude::*;
use vstd::string::*;

verus! {

/// Most bytes of a typed data document that is hashed.
pub const MAX_TYPED_DATA_BYTES: usize = 65536;

/// Most opening braces and brackets of a typed data document that is
/// hashed. Every type and every field of a type takes one, so the bound
/// keeps the types of a document few.
pub const MAX_TYPED_DATA_OPENINGS: usize = 48;

/// Whether `byte` is an opening brace or an opening bracket.
pub open spec fn is_opening(byte: u8) -> bool {
    byte == 123 || byte == 91
}

/// Number of opening braces and brackets in `bytes`.
pub open spec fn openings(bytes: Seq<u8>) -> nat
    decreases bytes.len(),
{
    if bytes.len() == 0 {
        0
    } else {
        openings(bytes.drop_last()) + if is_opening(bytes.last()) {
            1nat
        } else {
            0nat
        }
    }
}

/// Whether `pattern` stands in `bytes` at the place `at`.
pub open spec fn occurs_at(bytes: Seq<u8>, pattern: Seq<u8>, at: int) -> bool {
    &&& 0 <= at
    &&& at + pattern.len() <= bytes.len()
    &&& forall|k: int| 0 <= k < pattern.len() ==> bytes[at + k] == pattern[k]
}

/// Whether `pattern` stands somewhere in `bytes`.
pub open spec fn occurs(bytes: Seq<u8>, pattern: Seq<u8>) -> bool {
    exists|at: int| occurs_at(bytes, pattern, at)
}

/// A quotation mark and an opening parenthesis: how a text starts that
/// names a tuple of types.
pub open spec fn tuple_start() -> Seq<u8> {
    seq![34u8, 40u8]
}

/// A quotation mark and `tuple(`: the other way to name a tuple of types.
pub open spec fn tuple_word() -> Seq<u8> {
    seq![34u8, 116u8, 117u8, 112u8, 108u8, 101u8, 40u8]
}

/// A backslash and `u`: how a character is written by its number.
pub open spec fn numbered_character() -> Seq<u8> {
    seq![92u8, 117u8]
}

/// Whether a typed data document of the bytes `bytes` is hashed: it is a
/// JSON object written without anything before its opening brace, of no
/// more bytes and no more opening braces and brackets than the bounds
/// allow, in which no text starts as the name of a tuple of types does and
/// no character is written by its number.
pub open spec fn document_admitted(bytes: Seq<u8>) -> bool {
    &&& 0 < bytes.len() <= MAX_TYPED_DATA_BYTES
    &&& bytes[0] == 123
    &&& openings(bytes) <= MAX_TYPED_DATA_OPENINGS
    &&& !occurs(bytes, tuple_start())
    &&& !occurs(bytes, tuple_word())
    &&& !occurs(bytes, numbered_character())
}

/// Whether `pattern` stands somewhere in `bytes`.
pub fn contains_bytes(bytes: &[u8], pattern: &[u8]) -> (r: bool)
    ensures
        r == occurs(bytes@, pattern@),
{
    if pattern.len() > bytes.len() {
        return false;
    }
    let last: usize = bytes.len() - pattern.len();
    let mut at: usize = 0;
    while at <= last
        invariant
            pattern@.len() <= bytes@.len() <= usize::MAX,
            last == bytes@.len() - pattern@.len(),
            at <= last + 1,
            forall|a: int| 0 <= a < at ==> !occurs_at(bytes@, pattern@, a),
        decreases last + 1 - at,
    {
        let mut k: usize = 0;
        while k < pattern.len() && bytes[at + k] == pattern[k]
            invariant
                pattern@.len() <= bytes@.len() <= usize::MAX,
                last == bytes@.len() - pattern@.len(),
                at <= last,
                k <= pattern@.len(),
                forall|j: int| 0 <= j < k ==> bytes@[at + j] == pattern@[j],
            decreases pattern@.len() - k,
        {
            k += 1;
        }
        if k == pattern.len() {
            assert(occurs_at(bytes@, pattern@, at as int));
            return true;
        }
        at += 1;
    }
    false
}

/// Whether the typed data document `document` is hashed.
pub fn admits(document: &str) -> (r: bool)
    ensures
        r == document_admitted(document.spec_bytes()),
{
    let bytes = document.as_bytes();
    if bytes.len() == 0 || bytes.len() > MAX_TYPED_DATA_BYTES || bytes[0] != 123 {
        return false;
    }
    let start: [u8; 2] = [34, 40];
    let word: [u8; 7] = [34, 116, 117, 112, 108, 101, 40];
    let numbered: [u8; 2] = [92, 117];
    assert(start@ =~= tuple_start());
    assert(word@ =~= tuple_word());
    assert(numbered@ =~= numbered_character());
    if contains_bytes(bytes, start.as_slice()) || contains_bytes(bytes, word.as_slice())
        || contains_bytes(bytes, numbered.as_slice()) {
        return false;
    }
    let mut count: usize = 0;
    let mut i: usize = 0;
    while i < bytes.len()
        invariant
            i <= bytes@.len(),
            count == openings(bytes@.take(i as int)),
            count <= i,
            count <= MAX_TYPED_DATA_OPENINGS,
            bytes@ == document.spec_bytes(),
        decreases bytes@.len() - i,
    {
        proof {
            let next = bytes@.take(i + 1);
            assert(next.drop_last() =~= bytes@.take(i as int));
            assert(next.last() == bytes@[i as int]);
        }
        if bytes[i] == 123 || bytes[i] == 91 {
            if count == MAX_TYPED_DATA_OPENINGS {
                proof {
                    lemma_openings_grow(bytes@, i + 1);
                }
                return false;
            }
            count += 1;
        }
        i += 1;
    }
    assert(bytes@.take(i as int) =~= bytes@);
    true
}

/// A longer part of a document has no fewer openings than a shorter one.
proof fn lemma_openings_grow(bytes: Seq<u8>, n: int)
    requires
        0 <= n <= bytes.len(),
    ensures
        openings(bytes.take(n)) <= openings(bytes),
    decreases bytes.len() - n,
{
    if n == bytes.len() {
        assert(bytes.take(n) =~= bytes);
    } else {
        let next = bytes.take(n + 1);
        assert(next.drop_last() =~= bytes.take(n));
        lemma_openings_grow(bytes, n + 1);
    }
}

/// The digest of the typed data document that `document` holds as JSON
/// text: the hash that is signed for it, of 32 bytes, or `None` where the
/// text is no typed data document.
pub uninterp spec fn typed_data_digest(document: Seq<char>) -> Option<Seq<u8>>;

/// Reads `document` as an `alloy_dyn_abi::TypedData` and calls its
/// `eip712_signing_hash`. The hash is a function of the text alone; `None`
/// stands for a text that is not read as a document and for a document
/// that is not hashed. The hasher works through the types of a document
/// once for every way that leads to them, and follows a tuple of types
/// without end where it names its own type, so `requires` admits only
/// documents that name no tuple and whose types are few.
#[verifier::external_body]
pub(crate) fn hash_typed_data(document: &str) -> (r: Option<Vec<u8>>)
    requires
        document_admitted(document.spec_bytes()),
    ensures
        match r {
            Some(digest) => typed_data_digest(document@) == Some(digest@) && digest@.len() == 32,
            None => typed_data_digest(document@) is None,
        },
{
    match serde_json::from_str::<alloy_dyn_abi::TypedData>(document) {
        Ok(data) => match data.eip712_signing_hash() {
            Ok(digest) => Some(digest.to_vec()),
            Err(_) => None,
        },
        Err(_) => None,
    }
}

} // verus!
