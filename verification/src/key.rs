//! Public keys, held in their serialized form.

use vstd::prelude::*;

verus! {

/// Length in bytes of a public key in compressed form.
pub const COMPRESSED_KEY_LEN: usize = 33;

/// A secp256k1 public key as the bytes of its serialization: 33 bytes in
/// compressed form, 65 bytes otherwise.
///
/// The type does not check that the bytes encode a point of the curve. No
/// signature verifies under bytes that do not.
#[derive(Debug, PartialEq, Eq, PartialOrd, Ord, Hash)]
pub struct PublicKey {
    pub bytes: Vec<u8>,
}

impl View for PublicKey {
    type V = Seq<u8>;

    open spec fn view(&self) -> Seq<u8> {
        self.bytes@
    }
}

impl Clone for PublicKey {
    fn clone(&self) -> (copy: Self)
        ensures
            copy@ == self@,
    {
        PublicKey { bytes: self.bytes.clone() }
    }
}

/// Whether serialized key bytes are in compressed form.
pub open spec fn is_compressed_key(key: Seq<u8>) -> bool {
    key.len() == COMPRESSED_KEY_LEN
}

impl PublicKey {
    /// A key from the bytes of its serialization.
    pub fn from_bytes(bytes: Vec<u8>) -> (key: Self)
        ensures
            key@ == bytes@,
    {
        PublicKey { bytes }
    }

    /// Whether the key is in compressed form.
    pub fn compressed(&self) -> (c: bool)
        ensures
            c == is_compressed_key(self@),
    {
        self.bytes.len() == COMPRESSED_KEY_LEN
    }

    /// Whether two keys are the same.
    pub fn same_as(&self, other: &PublicKey) -> (same: bool)
        ensures
            same == (self@ == other@),
    {
        let same = self.bytes == other.bytes;
        proof {
            if same {
                assert(self.bytes@ =~= other.bytes@);
            }
        }
        same
    }
}

} // verus!
