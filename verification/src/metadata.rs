//! What a store knows about a firmware image before any of it is sent.

use vstd::prelude::*;
use vstd::slice::slice_to_vec;

verus! {

/// Mathematical value of a [`Metadata`].
pub struct MetadataView {
    pub version: Seq<u8>,
    pub checksum: Seq<char>,
    pub size: u32,
}

/// Description of a firmware image: its version, its digest as hexadecimal
/// text (with or without `sha256:` in front) and its size in bytes.
#[derive(Debug, PartialEq, Eq)]
pub struct Metadata {
    pub version: Vec<u8>,
    pub checksum: String,
    pub size: u32,
}

impl View for Metadata {
    type V = MetadataView;

    open spec fn view(&self) -> MetadataView {
        MetadataView { version: self.version@, checksum: self.checksum@, size: self.size }
    }
}

impl Clone for Metadata {
    fn clone(&self) -> (copy: Self)
        ensures
            copy@ == self@,
    {
        Metadata {
            version: slice_to_vec(self.version.as_slice()),
            checksum: self.checksum.clone(),
            size: self.size,
        }
    }
}

/// Whether two byte strings are equal, byte for byte.
pub fn same_bytes(a: &[u8], b: &[u8]) -> (same: bool)
    ensures
        same == (a@ == b@),
{
    if a.len() != b.len() {
        return false;
    }
    let mut i: usize = 0;
    while i < a.len()
        invariant
            i <= a@.len(),
            a@.len() == b@.len(),
            forall|j: int| 0 <= j < i ==> a@[j] == b@[j],
        decreases a@.len() - i,
    {
        if a[i] != b[i] {
            return false;
        }
        i += 1;
    }
    assert(a@ =~= b@);
    true
}

} // verus!
