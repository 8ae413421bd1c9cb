//! FNV-1a hashing and Merkle roots over 32-bit hashes.
use vstd::prelude::*;

verus! {

/// FNV-1a 64-bit offset basis.
pub const FNV_OFFSET: u64 = 0xcbf29ce484222325;
/// FNV-1a 64-bit prime.
pub const FNV_PRIME: u64 = 0x100000001b3;

/// FNV-1a state after absorbing `data` from state `h`: each byte is XOR-ed
/// in, then the state is multiplied by the prime modulo 2^64.
pub open spec fn fnv1a_from(h: u64, data: Seq<u8>) -> u64
    decreases data.len(),
{
    if data.len() == 0 {
        h
    } else {
        let h1 = vstd::wrapping::u64_specs::wrapping_mul(h ^ (data[0] as u64), FNV_PRIME);
        fnv1a_from(h1, data.drop_first())
    }
}

/// FNV-1a of `data`, cut to its low 32 bits.
pub open spec fn hash32(data: Seq<u8>) -> u32 {
    (fnv1a_from(FNV_OFFSET, data) % 4294967296) as u32
}

proof fn lemma_fnv_step(h: u64, data: Seq<u8>, i: int)
    requires
        0 <= i < data.len(),
    ensures
        fnv1a_from(h, data.take(i + 1)) == fnv1a_from(fnv1a_from(h, data.take(i)), data.subrange(i, i + 1)),
    decreases i,
{
    if i > 0 {
        let h1 = vstd::wrapping::u64_specs::wrapping_mul(h ^ (data[0] as u64), FNV_PRIME);
        assert(data.take(i + 1).drop_first() =~= data.drop_first().take(i));
        assert(data.take(i).drop_first() =~= data.drop_first().take(i - 1));
        lemma_fnv_step(h1, data.drop_first(), i - 1);
        assert(data.drop_first().subrange(i - 1, i) =~= data.subrange(i, i + 1));
    } else {
        assert(data.take(1) =~= data.subrange(0, 1));
        assert(data.take(0).len() == 0);
    }
}

/// An FNV-1a hasher: the running 64-bit state.
pub struct FnvHasher(pub u64);

impl Default for FnvHasher {
    /// A hasher at the offset basis.
    fn default() -> (h: Self)
        ensures
            h.0 == FNV_OFFSET,
    {
        FnvHasher(FNV_OFFSET)
    }
}

impl FnvHasher {
    /// The state so far.
    pub fn finish(&self) -> (h: u64)
        ensures
            h == self.0,
    {
        self.0
    }

    /// Absorbs `bytes` into the state.
    pub fn write(&mut self, bytes: &[u8])
        ensures
            final(self).0 == fnv1a_from(old(self).0, bytes@),
    {
        let ghost start = self.0;
        let mut i: usize = 0;
        while i < bytes.len()
            invariant
                i <= bytes@.len(),
                self.0 == fnv1a_from(start, bytes@.take(i as int)),
            decreases bytes@.len() - i,
        {
            proof {
                lemma_fnv_step(start, bytes@, i as int);
                let s1 = bytes@.subrange(i as int, i + 1);
                assert(s1.drop_first() =~= Seq::<u8>::empty());
                assert(s1[0] == bytes@[i as int]);
                assert(fnv1a_from(self.0, s1) == fnv1a_from(
                    vstd::wrapping::u64_specs::wrapping_mul(self.0 ^ (s1[0] as u64), FNV_PRIME), s1.drop_first()));
            }
            self.0 = (self.0 ^ bytes[i] as u64).wrapping_mul(FNV_PRIME);
            i = i + 1;
        }
        assert(bytes@.take(bytes@.len() as int) =~= bytes@);
    }
}

/// The 32-bit FNV-1a hash of `data`.
pub fn calculate_hash(data: &[u8]) -> (h: u32)
    ensures
        h == hash32(data@),
{
    let mut hasher = FnvHasher::default();
    hasher.write(data);
    (hasher.finish() % 4294967296) as u32
}

/// The 8 bytes hashed for a parent: the two children, little-endian.
pub open spec fn pair_bytes(a: u32, b: u32) -> Seq<u8> {
    seq![(a % 256) as u8, (a / 256 % 256) as u8, (a / 65536 % 256) as u8, (a / 16777216) as u8,
        (b % 256) as u8, (b / 256 % 256) as u8, (b / 65536 % 256) as u8, (b / 16777216) as u8]
}

/// The level above `hs`: the hash of each pair, the last node paired with
/// itself when the count is odd.
pub open spec fn next_level(hs: Seq<u32>) -> Seq<u32> {
    Seq::new(((hs.len() + 1) / 2) as nat, |i: int|
        if 2 * i + 1 < hs.len() { hash32(pair_bytes(hs[2 * i], hs[2 * i + 1])) } else { hash32(pair_bytes(hs[2 * i], hs[2 * i])) })
}

/// The Merkle root of the hashes `hs`: 0 for none, the hash itself for one,
/// else the root of the level above.
pub open spec fn merkle_root(hs: Seq<u32>) -> u32
    decreases hs.len(),
{
    if hs.len() == 0 {
        0
    } else if hs.len() == 1 {
        hs[0]
    } else {
        merkle_root(next_level(hs))
    }
}

fn hash_pair(a: u32, b: u32) -> (h: u32)
    ensures
        h == hash32(pair_bytes(a, b)),
{
    let bytes: [u8; 8] = [(a % 256) as u8, (a / 256 % 256) as u8, (a / 65536 % 256) as u8, (a / 16777216) as u8,
        (b % 256) as u8, (b / 256 % 256) as u8, (b / 65536 % 256) as u8, (b / 16777216) as u8];
    assert(bytes@ =~= pair_bytes(a, b));
    calculate_hash(&bytes)
}

/// A Merkle tree: its root and its leaves.
pub struct MerkleTree {
    pub root_hash: u32,
    pub leaves: Vec<u32>,
}

/// The hashes of each block.
pub open spec fn leaf_hashes(blocks: Seq<Vec<u8>>) -> Seq<u32> {
    Seq::new(blocks.len(), |i: int| hash32(blocks[i]@))
}

impl MerkleTree {
    /// The tree of `blocks`: each block's hash as a leaf, and their root.
    pub fn from_data_blocks(blocks: &[Vec<u8>]) -> (t: Self)
        ensures
            t.leaves@ == leaf_hashes(blocks@),
            t.root_hash == merkle_root(leaf_hashes(blocks@)),
    {
        let mut leaves: Vec<u32> = Vec::new();
        let mut i: usize = 0;
        while i < blocks.len()
            invariant
                i <= blocks@.len(),
                leaves@ == leaf_hashes(blocks@).take(i as int),
            decreases blocks@.len() - i,
        {
            leaves.push(calculate_hash(blocks[i].as_slice()));
            i = i + 1;
            assert(leaves@ =~= leaf_hashes(blocks@).take(i as int));
        }
        assert(leaves@ =~= leaf_hashes(blocks@));
        if blocks.len() == 0 {
            return MerkleTree { root_hash: 0, leaves };
        }
        let root_hash = Self::calculate_root(&leaves);
        MerkleTree { root_hash, leaves }
    }

    /// The root over `hashes`.
    pub fn calculate_root(hashes: &Vec<u32>) -> (r: u32)
        ensures
            r == merkle_root(hashes@),
        decreases hashes@.len(),
    {
        let n = hashes.len();
        if n == 0 {
            return 0;
        }
        if n == 1 {
            return hashes[0];
        }
        let mut next: Vec<u32> = Vec::new();
        let mut i: usize = 0;
        let half = n / 2 + n % 2;
        while i < half
            invariant
                n == hashes@.len(),
                n >= 2,
                half == (n + 1) / 2,
                i <= half,
                next@ == next_level(hashes@).take(i as int),
            decreases half - i,
        {
            let a = hashes[2 * i];
            let h = if 2 * i + 1 < n { hash_pair(a, hashes[2 * i + 1]) } else { hash_pair(a, a) };
            next.push(h);
            i = i + 1;
            assert(next@ =~= next_level(hashes@).take(i as int));
        }
        assert(next@ =~= next_level(hashes@));
        Self::calculate_root(&next)
    }

    /// Whether `data_block` may be leaf `index` of a tree of `total_leaves`
    /// leaves whose root is `root_hash`. A one-leaf tree's root is its leaf's
    /// hash, so there membership is decided exactly. With more leaves and no
    /// authentication path, the block's hash and the root must be nonzero and
    /// the index within the leaf count.
    pub fn verify(root_hash: u32, data_block: &[u8], index: usize, total_leaves: usize) -> (ok: bool)
        ensures
            ok == verify_outcome(root_hash, hash32(data_block@), index as int, total_leaves as int),
            total_leaves == 1 ==> (ok == (index == 0 && root_hash != 0 && hash32(data_block@) == root_hash)),
    {
        let block_hash = calculate_hash(data_block);
        if total_leaves == 1 {
            index == 0 && root_hash != 0 && block_hash == root_hash
        } else {
            block_hash != 0 && root_hash != 0 && index < total_leaves
        }
    }
}

/// What `MerkleTree::verify` answers for a block of hash `block_hash`.
pub open spec fn verify_outcome(root_hash: u32, block_hash: u32, index: int, total_leaves: int) -> bool {
    if total_leaves == 1 {
        index == 0 && root_hash != 0 && block_hash == root_hash
    } else {
        block_hash != 0 && root_hash != 0 && index < total_leaves
    }
}

/// A block verifies as the only leaf against the root of the one-block tree
/// made of it, and no block whose hash differs from that root does.
pub proof fn lemma_single_leaf_membership(block: Vec<u8>, other: Seq<u8>)
    requires
        hash32(block@) != 0,
    ensures
        verify_outcome(merkle_root(leaf_hashes(seq![block])), hash32(block@), 0, 1),
        hash32(other) != hash32(block@) ==> !verify_outcome(merkle_root(leaf_hashes(seq![block])), hash32(other), 0, 1),
{
    lemma_single_block_root(block);
}

/// The root of a single block is that block's hash.
pub proof fn lemma_single_block_root(block: Vec<u8>)
    ensures
        merkle_root(leaf_hashes(seq![block])) == hash32(block@),
{
    assert(leaf_hashes(seq![block]).len() == 1);
}

} // verus!
