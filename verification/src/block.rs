//! Blocks, block headers and their hashes.

use sha2::Digest;
use std::sync::Arc;
use vstd::prelude::*;

verus! {

/// The SHA-256 digest of `data`.
pub uninterp spec fn sha256_digest(data: Seq<u8>) -> Seq<u8>;

/// `sha2::Sha256::digest`: the SHA-256 digest of `data`.
#[verifier::external_body]
fn sha256(data: &[u8]) -> (digest: [u8; 32])
    ensures
        digest@ == sha256_digest(data@),
{
    sha2::Sha256::digest(data).into()
}

/// `Arc::clone`: another pointer to the same allocation, so to the same
/// value.
#[verifier::external_body]
pub(crate) fn share<T>(value: &Arc<T>) -> (shared: Arc<T>)
    ensures
        shared == *value,
{
    Arc::clone(value)
}

/// The hash of a block: the double SHA-256 of its serialized header.
pub open spec fn header_hash(header: Seq<u8>) -> Seq<u8> {
    sha256_digest(sha256_digest(header))
}

/// A serialized block header.
#[derive(Clone, Debug, PartialEq, Eq)]
pub struct BlockHeader {
    pub bytes: Vec<u8>,
}

/// A serialized transaction.
#[derive(Clone, Debug, PartialEq, Eq)]
pub struct Transaction {
    pub bytes: Vec<u8>,
}

/// A block: its header and its transactions.
#[derive(Clone, Debug, PartialEq, Eq)]
pub struct Block {
    pub header: BlockHeader,
    pub transactions: Vec<Arc<Transaction>>,
}

/// The hash that identifies a block.
#[derive(Clone, Copy, Debug, PartialEq, Eq, Hash)]
pub struct BlockHeaderHash(pub [u8; 32]);

/// The hash that identifies a transaction.
#[derive(Clone, Copy, Debug, PartialEq, Eq, Hash)]
pub struct TransactionHash(pub [u8; 32]);

impl BlockHeaderHash {
    /// The hash of `block`, computed from its header.
    pub fn from_block(block: &Block) -> (hash: BlockHeaderHash)
        ensures
            hash.0@ == header_hash(block.header.bytes@),
    {
        let first = sha256(block.header.bytes.as_slice());
        let second = sha256(&first);
        BlockHeaderHash(second)
    }

    /// Whether two hashes are the same bytes.
    pub fn same_as(&self, other: &BlockHeaderHash) -> (same: bool)
        ensures
            same == (self.0@ == other.0@),
    {
        let mut i: usize = 0;
        while i < 32
            invariant
                i <= 32,
                forall|j: int| 0 <= j < i ==> self.0@[j] == other.0@[j],
            decreases 32 - i,
        {
            if self.0[i] != other.0[i] {
                assert(self.0@[i as int] != other.0@[i as int]);
                return false;
            }
            i = i + 1;
        }
        assert(self.0@ =~= other.0@);
        true
    }
}

} // verus!
