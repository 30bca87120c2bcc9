//! Identifiers that the contracts use as keys.
use crate::table::TableKey;
use vstd::prelude::*;

verus! {

/// An account or contract address, in its 56-character text form.
#[derive(Clone, Copy, Debug, PartialEq, Eq, Hash)]
pub struct Address {
    pub strkey: [u8; 56],
}

/// The 32-byte identifier of an invoice.
#[derive(Clone, Copy, Debug, PartialEq, Eq, Hash)]
pub struct InvoiceId {
    pub bytes: [u8; 32],
}

/// Compares two byte arrays of one length.
fn same_bytes<const N: usize>(a: &[u8; N], b: &[u8; N]) -> (r: bool)
    ensures
        r == (*a == *b),
{
    let mut i: usize = 0;
    while i < N
        invariant
            i <= N,
            forall|j: int| 0 <= j < i ==> a@[j] == b@[j],
        decreases N - i,
    {
        if a[i] != b[i] {
            assert(a@[i as int] != b@[i as int]);
            return false;
        }
        i += 1;
    }
    assert(a@ =~= b@);
    assert(*a =~= *b);
    true
}

impl TableKey for Address {
    fn same(&self, other: &Self) -> (r: bool) {
        same_bytes(&self.strkey, &other.strkey)
    }
}

impl TableKey for InvoiceId {
    fn same(&self, other: &Self) -> (r: bool) {
        same_bytes(&self.bytes, &other.bytes)
    }
}

} // verus!
