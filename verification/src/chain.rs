//! The ledger: a sequence of blocks that is never empty, grows at its tail
//! and can be verified from its first block to its last.

use crate::block::{Block, BlockView};
use crate::digest::digest;
use crate::timestamp::{wall_clock, Timestamp};
use vstd::prelude::*;

verus! {

/// Why the verification of a ledger failed. Each kind carries the index of
/// the block at which the walk stopped.
#[derive(Debug, Clone, Copy, PartialEq, Eq, Structural)]
pub enum VerifyError {
    /// The block's stored digest is not the digest of its other fields.
    InsideBlock(usize),
    /// The block is sealed, but the predecessor digest that it stores is not
    /// the stored digest of the block before it.
    PreviousBlockRelationship(usize),
}

impl VerifyError {
    /// The index of the block that the error speaks of.
    pub open spec fn index(self) -> int {
        match self {
            VerifyError::InsideBlock(i) => i as int,
            VerifyError::PreviousBlockRelationship(i) => i as int,
        }
    }
}

/// What is wrong with the block at index `i`, looked at together with the
/// block before it: an unsealed block is reported as such, whatever its
/// link; a sealed one may still have a broken link.
pub open spec fn fault_at(chain: Seq<BlockView>, i: int) -> Option<VerifyError>
    recommends
        1 <= i < chain.len(),
{
    if !chain[i].is_sealed() {
        Some(VerifyError::InsideBlock(i as usize))
    } else if chain[i].previous_block_hash != chain[i - 1].hash {
        Some(VerifyError::PreviousBlockRelationship(i as usize))
    } else {
        None
    }
}

/// Every block from index 1 on, and before index `end`, is sealed and linked
/// to the block before it.
pub open spec fn intact_before(chain: Seq<BlockView>, end: int) -> bool {
    forall|j: int| 1 <= j < end ==> (#[trigger] fault_at(chain, j)) is None
}

/// Every block but the first is sealed and linked to the block before it.
/// The first block is the root of trust and is not looked at.
pub open spec fn intact(chain: Seq<BlockView>) -> bool {
    intact_before(chain, chain.len() as int)
}

/// `verdict` is the outcome of verifying `chain`: success where the chain is
/// intact, and else the fault of the first block that has one.
pub open spec fn is_verdict(chain: Seq<BlockView>, verdict: Result<(), VerifyError>) -> bool {
    match verdict {
        Ok(_) => intact(chain),
        Err(e) => {
            &&& 1 <= e.index() < chain.len()
            &&& intact_before(chain, e.index())
            &&& fault_at(chain, e.index()) == Some(e)
        },
    }
}

/// The genesis block of a ledger made at `timestamp`: the fixed payload, no
/// predecessor, sealed.
pub open spec fn genesis(timestamp: Timestamp) -> BlockView {
    BlockView {
        timestamp,
        hash: digest("Genesis block"@, timestamp, 0),
        previous_block_hash: 0,
        data: "Genesis block"@,
    }
}

/// An ordered, never empty sequence of blocks.
#[derive(Debug)]
pub struct Blockchain<'a> {
    blocks: Vec<Block<'a>>,
}

impl<'a> View for Blockchain<'a> {
    type V = Seq<BlockView>;

    closed spec fn view(&self) -> Seq<BlockView> {
        Seq::new(self.blocks@.len(), |i: int| self.blocks@[i]@)
    }
}

impl<'a> Blockchain<'a> {
    /// The ledger holds its genesis block. Every ledger that this library
    /// makes does, and every method keeps it so.
    pub open spec fn well_formed(&self) -> bool {
        self@.len() >= 1
    }

    /// Makes a ledger that holds a genesis block made at the instant of the
    /// call.
    pub fn new() -> (chain: Blockchain<'a>)
        ensures
            chain.well_formed(),
            chain@.len() == 1,
            chain@[0].is_sealed(),
            chain@ == seq![genesis(chain@[0].timestamp)],
            intact(chain@),
    {
        Blockchain::with_timestamp(wall_clock())
    }

    /// Makes a ledger that holds a genesis block made at `timestamp`.
    pub fn with_timestamp(timestamp: Timestamp) -> (chain: Blockchain<'a>)
        ensures
            chain.well_formed(),
            chain@ == seq![genesis(timestamp)],
    {
        let mut block = Block::with_timestamp("Genesis block", timestamp);
        block.hash = block.calculate_hash();
        let chain = Blockchain { blocks: vec![block] };
        assert(chain@ =~= seq![genesis(timestamp)]);
        chain
    }

    /// Links `block` to the tail of the ledger, seals it and appends it.
    /// Whatever digests `block` stored before are overwritten.
    pub fn push(&mut self, block: Block<'a>)
        requires
            old(self).well_formed(),
        ensures
            final(self).well_formed(),
            final(self)@ == old(self)@.push(block@.sealed_after(old(self)@.last().hash)),
            final(self)@.len() == old(self)@.len() + 1,
            final(self)@.last().previous_block_hash == old(self)@.last().hash,
            intact(old(self)@) ==> intact(final(self)@),
    {
        proof {
            if intact(self@) {
                push_keeps_intact(self@, block@);
            }
        }
        let mut block = block;
        block.previous_block_hash = self.blocks[self.blocks.len() - 1].hash;
        block.hash = block.calculate_hash();
        self.blocks.push(block);
        assert(final(self)@ =~= old(self)@.push(block@));
    }

    /// The number of blocks, the genesis block included.
    pub fn len(&self) -> (n: usize)
        requires
            self.well_formed(),
        ensures
            n == self@.len(),
            n >= 1,
    {
        self.blocks.len()
    }

    /// The block at `index`, if the ledger has one there.
    pub fn block(&self, index: usize) -> (found: Option<&Block<'a>>)
        ensures
            found is Some <==> index < self@.len(),
            found matches Some(b) ==> b@ == self@[index as int],
    {
        if index < self.blocks.len() {
            Some(&self.blocks[index])
        } else {
            None
        }
    }

    /// Puts `block` in the place of the block at `index`, as it is: nothing
    /// is linked or sealed. This is how a sealed block is tampered with.
    /// Returns whether the ledger has a block at `index`; where it has none,
    /// nothing changes.
    pub fn overwrite(&mut self, index: usize, block: Block<'a>) -> (done: bool)
        ensures
            done <==> index < old(self)@.len(),
            done ==> final(self)@ == old(self)@.update(index as int, block@),
            !done ==> final(self)@ == old(self)@,
            old(self).well_formed() ==> final(self).well_formed(),
    {
        if index < self.blocks.len() {
            self.blocks.set(index, block);
            assert(final(self)@ =~= old(self)@.update(index as int, block@));
            true
        } else {
            false
        }
    }

    /// Looks at every block but the first, in ascending order: that its stored
    /// digest is the digest of its other fields, and then that it stores the
    /// digest of the block before it. Stops at the first block that fails.
    pub fn verify(&self) -> (verdict: Result<(), VerifyError>)
        ensures
            is_verdict(self@, verdict),
            verdict is Ok <==> intact(self@),
    {
        let n = self.blocks.len();
        let mut i: usize = 1;
        while i < n
            invariant
                n == self.blocks@.len(),
                1 <= i,
                intact_before(self@, i as int),
            decreases n - i,
        {
            let current = &self.blocks[i];
            if current.hash != current.calculate_hash() {
                return Err(VerifyError::InsideBlock(i));
            }
            if current.previous_block_hash != self.blocks[i - 1].hash {
                return Err(VerifyError::PreviousBlockRelationship(i));
            }
            proof {
                assert(fault_at(self@, i as int) is None);
            }
            i += 1;
        }
        proof {
            assert forall|j: int| 1 <= j < self@.len() implies (#[trigger] fault_at(self@, j))
                is None by {
                assert(j < i);
            }
        }
        Ok(())
    }
}

/// A ledger has one verdict only.
pub proof fn verdict_is_unique(
    chain: Seq<BlockView>,
    first: Result<(), VerifyError>,
    second: Result<(), VerifyError>,
)
    requires
        is_verdict(chain, first),
        is_verdict(chain, second),
    ensures
        first == second,
{
    match (first, second) {
        (Ok(a), Ok(b)) => {
            assert(a == b);
        },
        (Ok(_), Err(e)) => {
            assert(fault_at(chain, e.index()) is None);
        },
        (Err(e), Ok(_)) => {
            assert(fault_at(chain, e.index()) is None);
        },
        (Err(a), Err(b)) => {
            if a.index() < b.index() {
                assert(fault_at(chain, a.index()) is None);
            } else if b.index() < a.index() {
                assert(fault_at(chain, b.index()) is None);
            }
        },
    }
}

/// A ledger that was made with its genesis block alone is intact.
pub proof fn fresh_ledger_is_intact(timestamp: Timestamp)
    ensures
        genesis(timestamp).is_sealed(),
        intact(seq![genesis(timestamp)]),
        is_verdict(seq![genesis(timestamp)], Ok(())),
{
}

/// Appending a block to an intact ledger leaves the ledger intact.
pub proof fn push_keeps_intact(chain: Seq<BlockView>, block: BlockView)
    requires
        chain.len() >= 1,
        intact(chain),
    ensures
        intact(chain.push(block.sealed_after(chain.last().hash))),
{
    let longer = chain.push(block.sealed_after(chain.last().hash));
    assert forall|j: int| 1 <= j < longer.len() implies (#[trigger] fault_at(longer, j)) is None by {
        if j < chain.len() {
            assert(fault_at(chain, j) is None);
        }
    }
}

/// The ledger that begins with the genesis block made at `timestamp` and to
/// which the blocks of `appended` were appended, first to last.
pub open spec fn grown(timestamp: Timestamp, appended: Seq<BlockView>) -> Seq<BlockView>
    decreases appended.len(),
{
    if appended.len() == 0 {
        seq![genesis(timestamp)]
    } else {
        let shorter = grown(timestamp, appended.drop_last());
        shorter.push(appended.last().sealed_after(shorter.last().hash))
    }
}

/// A ledger that was only ever appended to is intact, whatever its length
/// and whatever was appended: its verification succeeds.
pub proof fn untouched_ledger_is_intact(timestamp: Timestamp, appended: Seq<BlockView>)
    ensures
        grown(timestamp, appended).len() == appended.len() + 1,
        is_verdict(grown(timestamp, appended), Ok(())),
    decreases appended.len(),
{
    if appended.len() > 0 {
        untouched_ledger_is_intact(timestamp, appended.drop_last());
        push_keeps_intact(grown(timestamp, appended.drop_last()), appended.last());
    }
}

/// A changed payload is found where it was changed. Take an intact ledger and
/// give the block at an index `i` from 1 on another payload, leaving its
/// stored digest as it was. Unless the new payload happens to have the digest
/// that is stored, verification fails inside block `i`.
pub proof fn changed_payload_is_found(chain: Seq<BlockView>, i: usize, data: Seq<char>)
    requires
        intact(chain),
        1 <= i < chain.len(),
        chain[i as int].with_data(data).digest() != chain[i as int].hash,
    ensures
        is_verdict(
            chain.update(i as int, chain[i as int].with_data(data)),
            Err(VerifyError::InsideBlock(i)),
        ),
{
    let changed = chain.update(i as int, chain[i as int].with_data(data));
    assert forall|j: int| 1 <= j < i implies (#[trigger] fault_at(changed, j)) is None by {
        assert(fault_at(chain, j) is None);
    }
}

/// A changed and resealed payload is found at the next block. Take an intact
/// ledger and give the block at an index `i` from 1 on another payload and
/// the digest that goes with it. Where a block follows, and unless the new
/// digest happens to be the one that was stored before, verification fails at
/// the link of block `i + 1`.
pub proof fn resealed_payload_breaks_next_link(chain: Seq<BlockView>, i: usize, data: Seq<char>)
    requires
        intact(chain),
        1 <= i,
        i + 1 < chain.len() <= usize::MAX,
        chain[i as int].with_data(data).digest() != chain[i as int].hash,
    ensures
        is_verdict(
            chain.update(i as int, chain[i as int].with_data(data).resealed()),
            Err(VerifyError::PreviousBlockRelationship((i + 1) as usize)),
        ),
{
    let changed = chain.update(i as int, chain[i as int].with_data(data).resealed());
    assert forall|j: int| 1 <= j < i + 1 implies (#[trigger] fault_at(changed, j)) is None by {
        assert(fault_at(chain, j) is None);
    }
    assert(fault_at(chain, i + 1) is None);
}

} // verus!
