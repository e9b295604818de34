//! Plain-value identities: 32-byte hashes and account/contract addresses.

use vstd::prelude::*;

verus! {

/// Compares two byte arrays of the same length.
pub fn bytes_equal<const N: usize>(a: &[u8; N], b: &[u8; N]) -> (r: bool)
    ensures
        r == (*a == *b),
{
    let mut i: usize = 0;
    while i < N
        invariant
            i <= N,
            forall|j: int| 0 <= j < i ==> a[j] == b[j],
        decreases N - i,
    {
        if a[i] != b[i] {
            return false;
        }
        i = i + 1;
    }
    assert(*a =~= *b);
    true
}

/// A key whose equality can be decided at run time exactly as in specs.
pub trait SameKey: Sized {
    /// Whether `self` and `other` are the same key.
    fn same_key(&self, other: &Self) -> (r: bool)
        ensures
            r == (*self == *other),
    ;
}

/// A 32-byte value: a transaction hash, a commitment, a nullifier, a
/// condition identifier or a WASM hash.
#[derive(Clone, Copy, Debug, PartialEq, Eq, Hash)]
pub struct Bytes32 {
    /// The raw bytes.
    pub bytes: [u8; 32],
}

impl Bytes32 {
    /// Wraps 32 raw bytes.
    pub fn new(bytes: [u8; 32]) -> (r: Self)
        ensures
            r.bytes == bytes,
    {
        Bytes32 { bytes }
    }
}

impl SameKey for Bytes32 {
    fn same_key(&self, other: &Self) -> (r: bool) {
        bytes_equal(&self.bytes, &other.bytes)
    }
}

/// An account (`G...`) or contract (`C...`) address, held as the 56 ASCII
/// characters of its strkey text.
#[derive(Clone, Copy, Debug, PartialEq, Eq, Hash)]
pub struct Address {
    /// The strkey text of the address.
    pub strkey: [u8; 56],
}

impl Address {
    /// Wraps the 56 characters of a strkey.
    pub fn new(strkey: [u8; 56]) -> (r: Self)
        ensures
            r.strkey == strkey,
    {
        Address { strkey }
    }
}

impl SameKey for Address {
    fn same_key(&self, other: &Self) -> (r: bool) {
        bytes_equal(&self.strkey, &other.strkey)
    }
}

impl<A: SameKey, B: SameKey> SameKey for (A, B) {
    fn same_key(&self, other: &Self) -> (r: bool) {
        self.0.same_key(&other.0) && self.1.same_key(&other.1)
    }
}

} // verus!
