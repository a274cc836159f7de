use crate::encoding::{convert_u64_to_u8_array, le56_bytes};
use crate::hashing::{be_below_pow2, be_value, now_seconds, sha256, sha256_of};
use crate::types::{MiningError, PayloadContent, Sha256Hash};
use vstd::arithmetic::power2::pow2;
use vstd::prelude::*;
use vstd::string::StringSliceAdditionalSpecFns;

verus! {

/// Each unit of difficulty halves the target four times (one hex digit).
pub const DIFFICULTY: usize = 5;

/// Nonces are searched in `0..MAX_NONCE`.
pub const MAX_NONCE: u64 = 1000000;

/// A digest meets the target when, read big-endian, it is below two to this power.
pub const TARGET_BITS: usize = 256 - 4 * DIFFICULTY;

/// The header bytes of a block: its timestamp, cast to `u64` and encoded, then
/// the predecessor's digest. The payload is not part of the header.
pub open spec fn header_bytes(timestamp: i64, prev_hash: Seq<u8>) -> Seq<u8> {
    le56_bytes(timestamp as u64) + prev_hash
}

/// The digest of a block with these fields and this nonce.
pub open spec fn digest_of(timestamp: i64, prev_hash: Seq<u8>, nonce: u64) -> Seq<u8> {
    sha256_of(header_bytes(timestamp, prev_hash) + le56_bytes(nonce))
}

/// A digest meets the target when its big-endian value is below `2^TARGET_BITS`.
pub open spec fn meets_target(digest: Seq<u8>) -> bool {
    be_value(digest) < pow2(TARGET_BITS as nat)
}

/// `nonce` gives a digest that meets the target.
pub open spec fn solves(timestamp: i64, prev_hash: Seq<u8>, nonce: u64) -> bool {
    meets_target(digest_of(timestamp, prev_hash, nonce))
}

/// `nonce` is the smallest nonce that solves the header, and lies below `bound`.
pub open spec fn is_first_solution(timestamp: i64, prev_hash: Seq<u8>, nonce: u64, bound: u64) -> bool {
    &&& nonce < bound
    &&& solves(timestamp, prev_hash, nonce)
    &&& forall|m: u64| m < nonce ==> !solves(timestamp, prev_hash, m)
}

/// No nonce below `bound` solves the header.
pub open spec fn no_solution_below(timestamp: i64, prev_hash: Seq<u8>, bound: u64) -> bool {
    forall|m: u64| m < bound ==> !solves(timestamp, prev_hash, m)
}

/// `r` is what mining a block with these fields and search bound must give:
/// the block with the first solving nonce, or `Iteration` when there is none.
pub open spec fn is_mining_result(
    r: Result<Block, MiningError>,
    timestamp: i64,
    prev_hash: Sha256Hash,
    payload: Seq<u8>,
    bound: u64,
) -> bool {
    match r {
        Ok(b) => {
            &&& b.timestamp == timestamp
            &&& b.prev_hash == prev_hash
            &&& b.payload@ == payload
            &&& b.is_mined_within(bound)
        },
        Err(e) => {
            &&& e == MiningError::Iteration
            &&& no_solution_below(timestamp, prev_hash@, bound)
        },
    }
}

/// The bytes of the text `"Genesis"`.
pub open spec fn genesis_payload() -> Seq<u8> {
    seq![71u8, 101u8, 110u8, 101u8, 115u8, 105u8, 115u8]
}

/// The all-zero digest that stands for the genesis block's predecessor.
pub open spec fn zero_digest() -> Seq<u8> {
    Seq::new(32, |i: int| 0u8)
}

/// A mined block. Its digest depends on the timestamp, the predecessor's digest
/// and the nonce.
pub struct Block {
    pub timestamp: i64,
    pub prev_hash: Sha256Hash,
    pub payload: PayloadContent,
    pub nonce: u64,
}

impl Block {
    /// The digest of this block with its own nonce.
    pub open spec fn digest(&self) -> Seq<u8> {
        digest_of(self.timestamp, self.prev_hash@, self.nonce)
    }

    /// The stored nonce is the first one below `bound` that solves the header.
    pub open spec fn is_mined_within(&self, bound: u64) -> bool {
        is_first_solution(self.timestamp, self.prev_hash@, self.nonce, bound)
    }

    /// Mines a block with the current time as its timestamp.
    pub fn new(prev_hash: Sha256Hash, payload: &str) -> (r: Result<Self, MiningError>)
        ensures
            match r {
                Ok(b) => {
                    &&& b.prev_hash == prev_hash
                    &&& b.payload@ == payload.spec_bytes()
                    &&& b.is_mined_within(MAX_NONCE)
                },
                Err(e) => {
                    &&& e == MiningError::Iteration
                    &&& exists|t: i64| no_solution_below(t, prev_hash@, MAX_NONCE)
                },
            },
    {
        let timestamp = now_seconds();
        let r = Self::mine_at(timestamp, prev_hash, payload, MAX_NONCE);
        assert(r is Err ==> no_solution_below(timestamp, prev_hash@, MAX_NONCE));
        r
    }

    /// Mines a block with the given timestamp, searching nonces in `0..max_nonce`.
    pub fn mine_at(timestamp: i64, prev_hash: Sha256Hash, payload: &str, max_nonce: u64) -> (r: Result<Self, MiningError>)
        ensures
            is_mining_result(r, timestamp, prev_hash, payload.spec_bytes(), max_nonce),
            r is Ok <==> !no_solution_below(timestamp, prev_hash@, max_nonce),
            max_nonce == 0 ==> r == Err::<Self, MiningError>(MiningError::Iteration),
    {
        let mut block = Self {
            timestamp: timestamp,
            prev_hash: prev_hash,
            payload: vstd::slice::slice_to_vec(payload.as_bytes()),
            nonce: 0,
        };
        block.nonce = match block.try_hash(max_nonce) {
            Some(nonce) => nonce,
            None => {
                return Err(MiningError::Iteration);
            },
        };
        Ok(block)
    }

    /// Mines the first block of a chain: an all-zero predecessor digest and
    /// the payload `"Genesis"`.
    pub fn genesis() -> (r: Result<Self, MiningError>)
        ensures
            match r {
                Ok(b) => {
                    &&& b.prev_hash@ == zero_digest()
                    &&& b.payload@ == genesis_payload()
                    &&& b.is_mined_within(MAX_NONCE)
                },
                Err(e) => {
                    &&& e == MiningError::Iteration
                    &&& exists|t: i64| no_solution_below(t, zero_digest(), MAX_NONCE)
                },
            },
    {
        let zero: Sha256Hash = [0u8; 32];
        assert(zero@ =~= zero_digest());
        proof {
            reveal_strlit("Genesis");
            vstd::string::is_ascii_spec_bytes("Genesis");
        }
        assert("Genesis".spec_bytes() =~= genesis_payload());
        Self::new(zero, "Genesis")
    }

    /// The first nonce below `max_nonce` that solves this block's header.
    fn try_hash(&self, max_nonce: u64) -> (r: Option<u64>)
        ensures
            match r {
                Some(n) => is_first_solution(self.timestamp, self.prev_hash@, n, max_nonce),
                None => no_solution_below(self.timestamp, self.prev_hash@, max_nonce),
            },
    {
        let mut i: u64 = 0;
        while i < max_nonce
            invariant
                i <= max_nonce,
                no_solution_below(self.timestamp, self.prev_hash@, i),
            decreases max_nonce - i,
        {
            let hash = Block::calculate_hash(self, i);
            if meets_difficulty(&hash) {
                return Some(i);
            }
            i = i + 1;
        }
        None
    }

    /// The digest of `block`'s header followed by `nonce`, whatever nonce
    /// the block stores.
    pub fn calculate_hash(block: &Block, nonce: u64) -> (r: Sha256Hash)
        ensures
            r@ == digest_of(block.timestamp, block.prev_hash@, nonce),
    {
        let mut headers = block.headers();
        let nonce_bytes = convert_u64_to_u8_array(nonce);
        headers.extend_from_slice(nonce_bytes.as_slice());
        assert(headers@ =~= header_bytes(block.timestamp, block.prev_hash@) + le56_bytes(nonce));
        sha256(&headers)
    }

    /// The digest of this block with its own nonce.
    pub fn hash(&self) -> (r: Sha256Hash)
        ensures
            r@ == self.digest(),
    {
        Block::calculate_hash(self, self.nonce)
    }

    /// The header bytes: encoded timestamp, then the predecessor's digest.
    pub fn headers(&self) -> (r: PayloadContent)
        ensures
            r@ == header_bytes(self.timestamp, self.prev_hash@),
    {
        let mut data: PayloadContent = Vec::new();
        let time_bytes = convert_u64_to_u8_array(self.timestamp as u64);
        data.extend_from_slice(time_bytes.as_slice());
        data.extend_from_slice(self.prev_hash.as_slice());
        assert(data@ =~= header_bytes(self.timestamp, self.prev_hash@));
        data
    }
}

/// Mining is deterministic: two results for the same timestamp, predecessor
/// digest, payload and bound are both blocks or both `Iteration`, and two
/// blocks carry the same nonce and the same digest.
pub proof fn lemma_mining_is_deterministic(
    timestamp: i64,
    prev_hash: Sha256Hash,
    payload: Seq<u8>,
    bound: u64,
    r1: Result<Block, MiningError>,
    r2: Result<Block, MiningError>,
)
    requires
        is_mining_result(r1, timestamp, prev_hash, payload, bound),
        is_mining_result(r2, timestamp, prev_hash, payload, bound),
    ensures
        r1 is Ok <==> r2 is Ok,
        r1 is Err ==> r1 == r2,
        r1 is Ok ==> r1->Ok_0.nonce == r2->Ok_0.nonce && r1->Ok_0.digest() == r2->Ok_0.digest(),
{
    if r1 is Ok && r2 is Ok {
        let (n1, n2) = (r1->Ok_0.nonce, r2->Ok_0.nonce);
        if n1 < n2 {
            assert(!solves(timestamp, prev_hash@, n1));
        } else if n2 < n1 {
            assert(!solves(timestamp, prev_hash@, n2));
        }
    } else if r1 is Ok {
        assert(!solves(timestamp, prev_hash@, r1->Ok_0.nonce));
    } else if r2 is Ok {
        assert(!solves(timestamp, prev_hash@, r2->Ok_0.nonce));
    }
}

/// A mined block's digest, read as a big-endian integer, is below
/// `2^(256 - 4 * DIFFICULTY)`.
pub proof fn lemma_mined_block_meets_target(b: Block, bound: u64)
    requires
        b.is_mined_within(bound),
    ensures
        be_value(b.digest()) < pow2((256 - 4 * DIFFICULTY) as nat),
{
}

/// Hashing a block with its own stored nonce gives the block's hash.
pub proof fn lemma_hash_is_calculate_hash_of_own_nonce(b: Block)
    ensures
        digest_of(b.timestamp, b.prev_hash@, b.nonce) == b.digest(),
{
}

/// Whether `hash`, read as a big-endian integer, is below the target.
pub fn meets_difficulty(hash: &Sha256Hash) -> (r: bool)
    ensures
        r == meets_target(hash@),
{
    be_below_pow2(hash.as_slice(), TARGET_BITS)
}

} // verus!
