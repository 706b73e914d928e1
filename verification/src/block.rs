//! A single record of the ledger.

use crate::digest::{compute_digest, digest};
use crate::timestamp::{wall_clock, Timestamp};
use vstd::prelude::*;

verus! {

/// A record of the ledger: a text payload, the instant at which the record
/// was made, the digest of the record before it and its own digest.
///
/// A block is made open, with both digests at 0, and is sealed when a ledger
/// links it to its tail and stores the digest of the result.
#[derive(Debug, Clone, Copy)]
pub struct Block<'a> {
    /// The instant at which this block was made.
    pub timestamp: Timestamp,
    /// The stored digest of this block; 0 while the block is open.
    pub hash: u64,
    /// The stored digest of the block before this one; 0 for a block that
    /// has none.
    pub previous_block_hash: u64,
    /// The payload.
    pub data: &'a str,
}

/// What a block holds, with the payload as a sequence of characters.
pub struct BlockView {
    pub timestamp: Timestamp,
    pub hash: u64,
    pub previous_block_hash: u64,
    pub data: Seq<char>,
}

impl BlockView {
    /// The digest that the block's payload, instant and predecessor digest
    /// give. The stored digest plays no part in it.
    pub open spec fn digest(self) -> u64 {
        digest(self.data, self.timestamp, self.previous_block_hash)
    }

    /// The stored digest is the one that the other three fields give.
    pub open spec fn is_sealed(self) -> bool {
        self.hash == self.digest()
    }

    /// Both stored digests are 0: no ledger has linked this block yet.
    pub open spec fn is_open(self) -> bool {
        self.hash == 0 && self.previous_block_hash == 0
    }

    /// This block, linked to a predecessor with the stored digest
    /// `previous` and sealed.
    pub open spec fn sealed_after(self, previous: u64) -> BlockView {
        BlockView {
            timestamp: self.timestamp,
            hash: digest(self.data, self.timestamp, previous),
            previous_block_hash: previous,
            data: self.data,
        }
    }

    /// This block with another payload and every other field as it was.
    pub open spec fn with_data(self, data: Seq<char>) -> BlockView {
        BlockView {
            timestamp: self.timestamp,
            hash: self.hash,
            previous_block_hash: self.previous_block_hash,
            data,
        }
    }

    /// This block with its stored digest computed anew from the other
    /// fields.
    pub open spec fn resealed(self) -> BlockView {
        BlockView {
            timestamp: self.timestamp,
            hash: self.digest(),
            previous_block_hash: self.previous_block_hash,
            data: self.data,
        }
    }
}

impl<'a> View for Block<'a> {
    type V = BlockView;

    open spec fn view(&self) -> BlockView {
        BlockView {
            timestamp: self.timestamp,
            hash: self.hash,
            previous_block_hash: self.previous_block_hash,
            data: self.data@,
        }
    }
}

impl<'a> Block<'a> {
    /// Makes an open block that holds `data` and the instant at which the
    /// call was made.
    pub fn new(data: &'a str) -> (block: Block<'a>)
        ensures
            block@.is_open(),
            block@.data == data@,
    {
        Block::with_timestamp(data, wall_clock())
    }

    /// Makes an open block that holds `data` and the instant `timestamp`.
    pub fn with_timestamp(data: &'a str, timestamp: Timestamp) -> (block: Block<'a>)
        ensures
            block == (Block { timestamp, hash: 0, previous_block_hash: 0, data }),
    {
        Block { timestamp, hash: 0, previous_block_hash: 0, data }
    }

    /// Computes the digest of this block from its payload, its instant and
    /// the stored digest of its predecessor, in this order. The stored
    /// digest of the block itself is not read.
    pub fn calculate_hash(&self) -> (d: u64)
        ensures
            d == self@.digest(),
    {
        compute_digest(self.data, self.timestamp, self.previous_block_hash)
    }
}

/// The digest of a block is a function of its payload, its instant and its
/// predecessor digest alone: two blocks that agree on these three have the
/// same digest, whatever digests they store for themselves. In particular
/// computing the digest of an unchanged block again gives the same value.
pub proof fn digest_depends_on_three_fields(a: BlockView, b: BlockView)
    requires
        a.data == b.data,
        a.timestamp == b.timestamp,
        a.previous_block_hash == b.previous_block_hash,
    ensures
        a.digest() == b.digest(),
{
}

} // verus!
