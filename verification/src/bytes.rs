//! Helpers on byte strings.

use vstd::prelude::*;

verus! {

/// A copy of the bytes of `bytes` from `from` up to `to`.
pub fn copy_range(bytes: &[u8], from: usize, to: usize) -> (r: Vec<u8>)
    requires
        from <= to <= bytes@.len(),
    ensures
        r@ == bytes@.subrange(from as int, to as int),
{
    let mut out: Vec<u8> = Vec::new();
    let mut i: usize = from;
    while i < to
        invariant
            from <= i <= to <= bytes@.len(),
            out@ =~= bytes@.subrange(from as int, i as int),
        decreases to - i,
    {
        out.push(bytes[i]);
        i += 1;
    }
    out
}

/// A copy of `bytes`.
pub fn to_vec(bytes: &[u8]) -> (r: Vec<u8>)
    ensures
        r@ == bytes@,
{
    let r = copy_range(bytes, 0, bytes.len());
    assert(bytes@.subrange(0, bytes@.len() as int) =~= bytes@);
    r
}

/// `first` followed by `second`.
pub fn join_bytes(first: &[u8], second: &[u8]) -> (r: Vec<u8>)
    ensures
        r@ == first@ + second@,
{
    let mut out = to_vec(first);
    let mut i: usize = 0;
    while i < second.len()
        invariant
            i <= second@.len(),
            out@ =~= first@ + second@.take(i as int),
        decreases second@.len() - i,
    {
        out.push(second[i]);
        i += 1;
    }
    assert(second@.take(i as int) =~= second@);
    out
}

/// Whether the two byte strings are the same. Every byte is looked at,
/// wherever the first difference is.
pub fn same_bytes(a: &[u8], b: &[u8]) -> (r: bool)
    ensures
        r == (a@ == b@),
{
    if a.len() != b.len() {
        return false;
    }
    let mut differ = false;
    let mut i: usize = 0;
    while i < a.len()
        invariant
            i <= a@.len(),
            a@.len() == b@.len(),
            differ <==> exists|j: int| 0 <= j < i && a@[j] != b@[j],
        decreases a@.len() - i,
    {
        if a[i] != b[i] {
            differ = true;
        }
        i += 1;
    }
    if !differ {
        assert(a@ =~= b@);
    }
    !differ
}

/// Overwrites every byte of `bytes` with zero.
pub fn wipe(bytes: &mut Vec<u8>)
    ensures
        final(bytes)@.len() == old(bytes)@.len(),
        forall|i: int| 0 <= i < final(bytes)@.len() ==> final(bytes)@[i] == 0,
{
    let mut i: usize = 0;
    while i < bytes.len()
        invariant
            i <= bytes@.len(),
            bytes@.len() == old(bytes)@.len(),
            forall|j: int| 0 <= j < i ==> bytes@[j] == 0,
        decreases bytes@.len() - i,
    {
        bytes.set(i, 0);
        i += 1;
    }
}

} // verus!
