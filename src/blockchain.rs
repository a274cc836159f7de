use crate::block::{genesis_payload, no_solution_below, zero_digest, Block, MAX_NONCE};
use crate::types::MiningError;
use vstd::prelude::*;
use vstd::string::StringSliceAdditionalSpecFns;

verus! {

/// Every block after the first names the digest of the block before it.
pub open spec fn is_linked(blocks: Seq<Block>) -> bool {
    forall|i: int| 0 < i < blocks.len() ==> #[trigger] blocks[i].prev_hash@ == blocks[i - 1].digest()
}

/// An append-only chain of mined blocks, starting with the genesis block.
pub struct Blockchain {
    blocks: Vec<Block>,
}

impl View for Blockchain {
    type V = Seq<Block>;

    closed spec fn view(&self) -> Seq<Block> {
        self.blocks@
    }
}

impl Blockchain {
    /// The chain starts with a genesis block, is linked, and each of its
    /// blocks holds the first nonce below `MAX_NONCE` that solves its header.
    pub open spec fn wf(&self) -> bool {
        &&& self@.len() >= 1
        &&& self@[0].prev_hash@ == zero_digest()
        &&& self@[0].payload@ == genesis_payload()
        &&& is_linked(self@)
        &&& forall|i: int| 0 <= i < self@.len() ==> #[trigger] self@[i].is_mined_within(MAX_NONCE)
    }

    /// A chain that holds a freshly mined genesis block.
    pub fn new() -> (r: Result<Self, MiningError>)
        ensures
            match r {
                Ok(c) => c.wf() && c@.len() == 1,
                Err(e) => {
                    &&& e == MiningError::Iteration
                    &&& exists|t: i64| no_solution_below(t, zero_digest(), MAX_NONCE)
                },
            },
    {
        match Block::genesis() {
            Ok(genesis) => Ok(Self { blocks: vec![genesis] }),
            Err(e) => Err(e),
        }
    }

    /// Mines a block that links to the last one and appends it. On an error
    /// the chain is left as it was.
    pub fn add_block(&mut self, payload: &str) -> (r: Result<(), MiningError>)
        ensures
            old(self)@.len() == 0 ==> r == Err::<(), MiningError>(MiningError::NoParent) && final(self)@ == old(self)@,
            old(self)@.len() > 0 ==> match r {
                Ok(_) => {
                    &&& final(self)@.len() == old(self)@.len() + 1
                    &&& final(self)@.drop_last() == old(self)@
                    &&& final(self)@.last().prev_hash@ == old(self)@.last().digest()
                    &&& final(self)@.last().payload@ == payload.spec_bytes()
                    &&& final(self)@.last().is_mined_within(MAX_NONCE)
                },
                Err(e) => {
                    &&& e == MiningError::Iteration
                    &&& final(self)@ == old(self)@
                    &&& exists|t: i64| no_solution_below(t, old(self)@.last().digest(), MAX_NONCE)
                },
            },
            old(self).wf() ==> final(self).wf(),
    {
        let n = self.blocks.len();
        if n == 0 {
            return Err(MiningError::NoParent);
        }
        let prev_hash = self.blocks[n - 1].hash();
        assert(prev_hash@ == self@.last().digest());
        let block = match Block::new(prev_hash, payload) {
            Ok(block) => block,
            Err(e) => {
                return Err(e);
            },
        };
        self.blocks.push(block);
        assert(self@.drop_last() =~= old(self)@);
        Ok(())
    }

    /// The blocks, oldest first.
    pub fn blocks(&self) -> (r: &Vec<Block>)
        ensures
            r@ == self@,
    {
        &self.blocks
    }
}

/// In a well-formed chain, which `new` gives and `add_block` keeps, each block
/// after the first holds the digest of the block before it.
pub proof fn lemma_chain_is_linked(c: Blockchain, i: int)
    requires
        c.wf(),
        0 < i < c@.len(),
    ensures
        c@[i].prev_hash@ == c@[i - 1].digest(),
{
}

} // verus!
