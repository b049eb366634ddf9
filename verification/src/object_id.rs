//! Revision identifiers: the content hashes that a reference points at.

use vstd::prelude::*;

verus! {

/// Length in bytes of a SHA-1 revision identifier.
pub const SHA1_LEN: usize = 20;

/// Length in bytes of a SHA-256 revision identifier.
pub const SHA256_LEN: usize = 32;

/// Whether `len` is the size of a revision identifier under one of the two
/// hash algorithms.
pub open spec fn is_id_len(len: nat) -> bool {
    len == SHA1_LEN || len == SHA256_LEN
}

/// A revision identifier: the raw bytes of a content hash, 20 or 32 of them.
#[derive(Debug, PartialEq, Eq, PartialOrd, Ord, Hash)]
pub struct ObjectId {
    bytes: Vec<u8>,
}

impl View for ObjectId {
    type V = Seq<u8>;

    closed spec fn view(&self) -> Seq<u8> {
        self.bytes@
    }
}

impl DeepView for ObjectId {
    type V = Seq<u8>;

    open spec fn deep_view(&self) -> Seq<u8> {
        self@
    }
}

impl ObjectId {
    #[verifier::type_invariant]
    spec fn sized(self) -> bool {
        is_id_len(self.bytes@.len())
    }

    /// Makes an identifier of a copy of `bytes`, which must be 20 or 32
    /// bytes long; any other length gives `None`.
    pub fn from_bytes(bytes: &[u8]) -> (id: Option<ObjectId>)
        ensures
            id is Some <==> is_id_len(bytes@.len()),
            id matches Some(id) ==> id@ == bytes@,
    {
        let len: usize = bytes.len();
        if len != SHA1_LEN && len != SHA256_LEN {
            return None;
        }
        let mut copy: Vec<u8> = Vec::with_capacity(len);
        let mut i: usize = 0;
        while i < len
            invariant
                len == bytes@.len(),
                i <= len,
                copy@ == bytes@.subrange(0, i as int),
            decreases len - i,
        {
            copy.push(bytes[i]);
            i += 1;
        }
        assert(copy@ == bytes@);
        Some(ObjectId { bytes: copy })
    }

    /// The bytes of the identifier.
    pub fn as_bytes(&self) -> (bytes: &[u8])
        ensures
            bytes@ == self@,
            is_id_len(bytes@.len()),
    {
        proof {
            use_type_invariant(self);
        }
        self.bytes.as_slice()
    }
}

impl Clone for ObjectId {
    fn clone(&self) -> (copy: ObjectId)
        ensures
            copy@ == self@,
    {
        proof {
            use_type_invariant(self);
        }
        let copy = self.bytes.clone();
        assert(copy@ == self.bytes@);
        ObjectId { bytes: copy }
    }
}

} // verus!
