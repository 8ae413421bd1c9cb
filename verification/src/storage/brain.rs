//! The tiered key-value memory: entries ("synapses") by key, with a tier
//! and an importance used to prune.
use vstd::prelude::*;
use crate::storage::merkle::{MerkleTree, hash32, lemma_single_block_root};
use crate::strings::str_eq;

verus! {

/// Where a memory lives.
#[derive(Debug, Clone, Copy, PartialEq, Eq, Structural)]
pub enum BrainTier {
    /// Immediate working memory.
    Local,
    /// Shared coordination memory.
    Central,
    /// Immutable shared knowledge, never pruned.
    Decentralized,
}

/// One stored memory.
#[derive(Debug)]
pub struct Synapse {
    pub key: String,
    pub value: Vec<u8>,
    pub tier: BrainTier,
    /// 0-255; entries below the pruning threshold go first.
    pub importance: u8,
    pub last_access: u64,
}

/// The memory store.
pub struct JarvisBrain {
    pub synapses: Vec<Synapse>,
    /// Merkle root of the last decentralized value stored.
    pub hive_root: usize,
    /// Number of entries, as of the last store or effective prune.
    pub synaptic_density: usize,
}

/// No key is stored twice.
pub open spec fn keys_unique(s: Seq<Synapse>) -> bool {
    forall|i: int, j: int| 0 <= i < j < s.len() ==> (#[trigger] s[i]).key@ != (#[trigger] s[j]).key@
}

/// The value stored under `key`, if any.
pub open spec fn recall(s: Seq<Synapse>, key: Seq<char>) -> Option<Seq<u8>> {
    if exists|i: int| 0 <= i < s.len() && (#[trigger] s[i]).key@ == key {
        let i = choose|i: int| 0 <= i < s.len() && (#[trigger] s[i]).key@ == key;
        Some(s[i].value@)
    } else {
        None
    }
}

proof fn lemma_recall_at(s: Seq<Synapse>, i: int)
    requires
        keys_unique(s),
        0 <= i < s.len(),
    ensures
        recall(s, s[i].key@) == Some(s[i].value@),
{
    let k = s[i].key@;
    assert(exists|j: int| 0 <= j < s.len() && (#[trigger] s[j]).key@ == k);
    let c = choose|j: int| 0 <= j < s.len() && (#[trigger] s[j]).key@ == k;
    if c < i {
        assert(s[c].key@ != s[i].key@);
    } else if c > i {
        assert(s[i].key@ != s[c].key@);
    }
}

/// An entry survives pruning at `threshold`: decentralized knowledge always,
/// others when their importance reaches the threshold.
pub open spec fn survives(s: Synapse, threshold: u8) -> bool {
    s.tier == BrainTier::Decentralized || s.importance >= threshold
}

impl JarvisBrain {
    /// An empty store.
    pub fn new() -> (b: Self)
        ensures
            b.synapses@.len() == 0,
            b.hive_root == 0,
            b.synaptic_density == 0,
    {
        JarvisBrain { synapses: Vec::new(), hive_root: 0, synaptic_density: 0 }
    }

    /// No key twice.
    pub open spec fn wf(&self) -> bool {
        keys_unique(self.synapses@)
    }

    fn find(&self, key: &str) -> (r: Option<usize>)
        ensures
            r matches Some(i) ==> i < self.synapses@.len() && self.synapses@[i as int].key@ == key@,
            r is None ==> forall|i: int| 0 <= i < self.synapses@.len() ==> (#[trigger] self.synapses@[i]).key@ != key@,
    {
        let mut i: usize = 0;
        while i < self.synapses.len()
            invariant
                i <= self.synapses@.len(),
                forall|k: int| 0 <= k < i ==> (#[trigger] self.synapses@[k]).key@ != key@,
            decreases self.synapses@.len() - i,
        {
            if str_eq(self.synapses[i].key.as_str(), key) {
                return Some(i);
            }
            i = i + 1;
        }
        None
    }

    /// Stores `value` under `key` (replacing what was there), with its tier
    /// and importance. A decentralized value also becomes the hive root: the
    /// Merkle root of that single block, its hash.
    pub fn store(&mut self, key: &str, value: Vec<u8>, tier: BrainTier, importance: u8)
        requires
            old(self).wf(),
        ensures
            final(self).wf(),
            recall(final(self).synapses@, key@) == Some(value@),
            forall|k: Seq<char>| k != key@ ==> recall(final(self).synapses@, k) == recall(old(self).synapses@, k),
            final(self).synaptic_density == final(self).synapses@.len(),
            tier == BrainTier::Decentralized ==> final(self).hive_root == hash32(value@) as usize,
            tier != BrainTier::Decentralized ==> final(self).hive_root == old(self).hive_root,
    {
        let ghost vv = value@;
        let ghost kv = key@;
        if tier == BrainTier::Decentralized {
            let copy = vstd::slice::slice_to_vec(value.as_slice());
            let mut blocks: Vec<Vec<u8>> = Vec::new();
            blocks.push(copy);
            let tree = MerkleTree::from_data_blocks(blocks.as_slice());
            proof {
                assert(blocks@ =~= seq![blocks@[0]]);
                lemma_single_block_root(blocks@[0]);
            }
            self.hive_root = tree.root_hash as usize;
        }
        let entry = Synapse { key: key.to_owned(), value, tier, importance, last_access: 0 };
        let ghost ev = entry;
        match self.find(key) {
            Some(i) => {
                self.synapses.set(i, entry);
                proof {
                    assert forall|a: int, b: int| 0 <= a < b < self.synapses@.len() implies
                        (#[trigger] self.synapses@[a]).key@ != (#[trigger] self.synapses@[b]).key@ by {
                        assert(old(self).synapses@[a].key@ != old(self).synapses@[b].key@);
                    }
                    lemma_recall_at(self.synapses@, i as int);
                    assert forall|k: Seq<char>| k != kv implies recall(self.synapses@, k) == recall(old(self).synapses@, k) by {
                        if exists|j: int| 0 <= j < old(self).synapses@.len() && (#[trigger] old(self).synapses@[j]).key@ == k {
                            let j = choose|j: int| 0 <= j < old(self).synapses@.len() && (#[trigger] old(self).synapses@[j]).key@ == k;
                            lemma_recall_at(old(self).synapses@, j);
                            assert(self.synapses@[j] == old(self).synapses@[j]);
                            lemma_recall_at(self.synapses@, j);
                        } else {
                            assert forall|j: int| 0 <= j < self.synapses@.len() implies (#[trigger] self.synapses@[j]).key@ != k by {
                                if j != i {
                                    assert(self.synapses@[j] == old(self).synapses@[j]);
                                }
                            }
                        }
                    }
                }
            },
            None => {
                self.synapses.push(entry);
                let ghost n = self.synapses@.len() - 1;
                proof {
                    assert forall|a: int, b: int| 0 <= a < b < self.synapses@.len() implies
                        (#[trigger] self.synapses@[a]).key@ != (#[trigger] self.synapses@[b]).key@ by {
                        if b < n {
                            assert(old(self).synapses@[a].key@ != old(self).synapses@[b].key@);
                        } else {
                            assert(self.synapses@[a] == old(self).synapses@[a]);
                        }
                    }
                    lemma_recall_at(self.synapses@, n);
                    assert forall|k: Seq<char>| k != kv implies recall(self.synapses@, k) == recall(old(self).synapses@, k) by {
                        if exists|j: int| 0 <= j < old(self).synapses@.len() && (#[trigger] old(self).synapses@[j]).key@ == k {
                            let j = choose|j: int| 0 <= j < old(self).synapses@.len() && (#[trigger] old(self).synapses@[j]).key@ == k;
                            lemma_recall_at(old(self).synapses@, j);
                            assert(self.synapses@[j] == old(self).synapses@[j]);
                            lemma_recall_at(self.synapses@, j);
                        } else {
                            assert forall|j: int| 0 <= j < self.synapses@.len() implies (#[trigger] self.synapses@[j]).key@ != k by {
                                if j < n {
                                    assert(self.synapses@[j] == old(self).synapses@[j]);
                                }
                            }
                        }
                    }
                }
            },
        }
        self.synaptic_density = self.synapses.len();
    }

    /// The value stored under `key`, if any.
    pub fn retrieve(&self, key: &str) -> (r: Option<Vec<u8>>)
        requires
            self.wf(),
        ensures
            match recall(self.synapses@, key@) {
                Some(v) => r matches Some(x) && x@ == v,
                None => r is None,
            },
    {
        match self.find(key) {
            Some(i) => {
                proof {
                    lemma_recall_at(self.synapses@, i as int);
                }
                Some(vstd::slice::slice_to_vec(self.synapses[i].value.as_slice()))
            },
            None => None,
        }
    }

    /// Evicts every entry that does not survive `threshold`, keeping the
    /// others in order; the density is updated when anything was evicted.
    pub fn prune(&mut self, threshold: u8)
        requires
            old(self).wf(),
        ensures
            final(self).wf(),
            final(self).synapses@ == old(self).synapses@.filter(|s: Synapse| survives(s, threshold)),
            forall|i: int| 0 <= i < old(self).synapses@.len() && (#[trigger] old(self).synapses@[i]).tier == BrainTier::Decentralized
                ==> recall(final(self).synapses@, old(self).synapses@[i].key@) == Some(old(self).synapses@[i].value@),
            forall|i: int| 0 <= i < old(self).synapses@.len() && (#[trigger] old(self).synapses@[i]).importance >= threshold
                ==> recall(final(self).synapses@, old(self).synapses@[i].key@) == Some(old(self).synapses@[i].value@),
            forall|i: int| 0 <= i < old(self).synapses@.len() && (#[trigger] old(self).synapses@[i]).tier != BrainTier::Decentralized
                && old(self).synapses@[i].importance < threshold
                ==> recall(final(self).synapses@, old(self).synapses@[i].key@) is None,
            forall|k: Seq<char>| (#[trigger] recall(old(self).synapses@, k)) is None ==> recall(final(self).synapses@, k) is None,
            final(self).hive_root == old(self).hive_root,
            final(self).synapses@.len() < old(self).synapses@.len() ==> final(self).synaptic_density == final(self).synapses@.len(),
            final(self).synapses@.len() == old(self).synapses@.len() ==> final(self).synaptic_density == old(self).synaptic_density,
    {
        let ghost orig = self.synapses@;
        let initial_count = self.synapses.len();
        let mut kept: Vec<Synapse> = Vec::new();
        let mut taken: usize = 0;
        let ghost pred = |s: Synapse| survives(s, threshold);
        while self.synapses.len() > 0
            invariant
                taken + self.synapses@.len() == orig.len(),
                orig.len() == initial_count,
                self.synapses@ == orig.skip(taken as int),
                kept@ == orig.take(taken as int).filter(pred),
                pred == (|s: Synapse| survives(s, threshold)),
                self.hive_root == old(self).hive_root,
                self.synaptic_density == old(self).synaptic_density,
            decreases self.synapses@.len(),
        {
            let s = self.synapses.remove(0);
            proof {
                assert(orig.take(taken as int).push(s) =~= orig.take(taken + 1));
                orig.take(taken as int).lemma_filter_push(s, pred);
            }
            if s.tier == BrainTier::Decentralized || s.importance >= threshold {
                kept.push(s);
            }
            taken = taken + 1;
            assert(self.synapses@ =~= orig.skip(taken as int));
        }
        assert(orig.take(taken as int) =~= orig);
        self.synapses = kept;
        proof {
            lemma_filter_keeps_unique(orig, pred);
            orig.lemma_filter_len(pred);
        }
        proof {
            assert forall|i: int| 0 <= i < orig.len() implies {
                &&& orig[i].tier == BrainTier::Decentralized ==> recall(self.synapses@, orig[i].key@) == Some(orig[i].value@)
                &&& orig[i].importance >= threshold ==> recall(self.synapses@, orig[i].key@) == Some(orig[i].value@)
                &&& (orig[i].tier != BrainTier::Decentralized && orig[i].importance < threshold)
                    ==> recall(self.synapses@, orig[i].key@) is None
            } by {
                lemma_prune_recall(orig, threshold, i);
            }
            assert forall|k: Seq<char>| (#[trigger] recall(orig, k)) is None implies recall(self.synapses@, k) is None by {
                lemma_pruned_keys_were_stored(orig, threshold, k);
            }
        }
        if self.synapses.len() < initial_count {
            self.synaptic_density = self.synapses.len();
        }
    }
}

/// What pruning at `threshold` leaves of a store: every decentralized entry
/// keeps its value whatever its importance, every entry whose importance
/// reaches the threshold keeps its value, and every other entry is gone.
pub proof fn lemma_prune_recall(s: Seq<Synapse>, threshold: u8, i: int)
    requires
        keys_unique(s),
        0 <= i < s.len(),
    ensures
        s[i].tier == BrainTier::Decentralized
            ==> recall(s.filter(|x: Synapse| survives(x, threshold)), s[i].key@) == Some(s[i].value@),
        s[i].importance >= threshold
            ==> recall(s.filter(|x: Synapse| survives(x, threshold)), s[i].key@) == Some(s[i].value@),
        s[i].tier != BrainTier::Decentralized && s[i].importance < threshold
            ==> recall(s.filter(|x: Synapse| survives(x, threshold)), s[i].key@) is None,
{
    let p = |x: Synapse| survives(x, threshold);
    let f = s.filter(p);
    lemma_filter_keeps_unique(s, p);
    if s[i].tier == BrainTier::Decentralized || s[i].importance >= threshold {
        s.lemma_filter_contains(p, i);
        let w = choose|w: int| 0 <= w < f.len() && f[w] == s[i];
        lemma_recall_at(f, w);
    } else {
        assert forall|w: int| 0 <= w < f.len() implies (#[trigger] f[w]).key@ != s[i].key@ by {
            s.lemma_filter_pred(p, w);
            s.lemma_filter_contains_rev(p, f[w]);
            assert(f.contains(f[w]));
            let u = choose|u: int| 0 <= u < s.len() && s[u] == f[w];
            if u == i {
                assert(p(s[i]));
            } else if u < i {
                assert(s[u].key@ != s[i].key@);
            } else {
                assert(s[i].key@ != s[u].key@);
            }
        }
    }
}

/// Pruning adds no key.
proof fn lemma_pruned_keys_were_stored(s: Seq<Synapse>, threshold: u8, k: Seq<char>)
    requires
        recall(s, k) is None,
    ensures
        recall(s.filter(|x: Synapse| survives(x, threshold)), k) is None,
{
    let p = |x: Synapse| survives(x, threshold);
    let f = s.filter(p);
    assert forall|w: int| 0 <= w < f.len() implies (#[trigger] f[w]).key@ != k by {
        s.lemma_filter_contains_rev(p, f[w]);
        assert(f.contains(f[w]));
        let u = choose|u: int| 0 <= u < s.len() && s[u] == f[w];
        assert(s[u].key@ != k);
    }
}

proof fn lemma_filter_keeps_unique(s: Seq<Synapse>, p: spec_fn(Synapse) -> bool)
    requires
        keys_unique(s),
    ensures
        keys_unique(s.filter(p)),
    decreases s.len(),
{
    if s.len() > 0 {
        let init = s.drop_last();
        assert(init.push(s.last()) =~= s);
        assert forall|i: int, j: int| 0 <= i < j < init.len() implies (#[trigger] init[i]).key@ != (#[trigger] init[j]).key@ by {
            assert(init[i] == s[i] && init[j] == s[j]);
        }
        lemma_filter_keeps_unique(init, p);
        init.lemma_filter_push(s.last(), p);
        if p(s.last()) {
            let f = init.filter(p);
            assert forall|k: int| 0 <= k < f.len() implies (#[trigger] f[k]).key@ != s.last().key@ by {
                init.lemma_filter_contains_rev(p, f[k]);
                assert(f.contains(f[k]));
                let w = choose|w: int| 0 <= w < init.len() && init[w] == f[k];
                assert(s[w] == init[w]);
            }
            assert forall|i: int, j: int| 0 <= i < j < f.push(s.last()).len() implies
                (#[trigger] f.push(s.last())[i]).key@ != (#[trigger] f.push(s.last())[j]).key@ by {
                if j == f.len() {
                    assert(f.push(s.last())[i] == f[i]);
                } else {
                    assert(f.push(s.last())[i] == f[i] && f.push(s.last())[j] == f[j]);
                }
            }
        }
    }
}

} // verus!
