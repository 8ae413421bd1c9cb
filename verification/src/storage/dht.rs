//! A content-addressed store of 4 KiB chunks and the files made of them.
use vstd::prelude::*;

verus! {

/// Bytes per chunk.
pub const CHUNK_SIZE: usize = 4096;

/// XOR of the bytes of `data[..n]` whose index is `j` modulo 32.
pub open spec fn xor_fold(data: Seq<u8>, n: int, j: int) -> u8
    decreases n,
{
    if n <= 0 {
        0
    } else {
        let prev = xor_fold(data, n - 1, j);
        if (n - 1) % 32 == j { prev ^ data[n - 1] } else { prev }
    }
}

/// The 32 bytes of a chunk hash: byte j is the XOR of every byte of the
/// chunk at an index congruent to j modulo 32.
pub open spec fn chunk_hash_bytes(data: Seq<u8>) -> Seq<u8> {
    Seq::new(32, |j: int| xor_fold(data, data.len() as int, j))
}

/// The hash naming a chunk.
#[derive(Debug, Clone, PartialEq, Eq, PartialOrd, Ord)]
pub struct ChunkHash(pub [u8; 32]);

impl ChunkHash {
    /// The hash of `data`.
    pub fn new(data: &[u8]) -> (h: Self)
        ensures
            h.0@ == chunk_hash_bytes(data@),
    {
        let mut hash = [0u8; 32];
        let mut i: usize = 0;
        while i < data.len()
            invariant
                i <= data@.len(),
                hash@.len() == 32,
                forall|j: int| 0 <= j < 32 ==> hash@[j] == xor_fold(data@, i as int, j),
            decreases data@.len() - i,
        {
            let k = i % 32;
            hash[k] = hash[k] ^ data[i];
            i = i + 1;
        }
        let h = ChunkHash(hash);
        assert(h.0@ =~= chunk_hash_bytes(data@));
        h
    }
}

/// Whether two hashes are the same 32 bytes.
pub fn hash_eq(a: &ChunkHash, b: &ChunkHash) -> (r: bool)
    ensures
        r == (a.0@ == b.0@),
{
    let mut i: usize = 0;
    while i < 32
        invariant
            i <= 32,
            a.0@.len() == 32 && b.0@.len() == 32,
            forall|j: int| 0 <= j < i ==> a.0@[j] == b.0@[j],
        decreases 32 - i,
    {
        if a.0[i] != b.0[i] {
            return false;
        }
        i = i + 1;
    }
    assert(a.0@ =~= b.0@);
    true
}

/// No hash is stored twice.
pub open spec fn frags_wf(frags: Seq<(ChunkHash, Vec<u8>)>) -> bool {
    forall|i: int, j: int| 0 <= i < j < frags.len() ==> (#[trigger] frags[i]).0.0@ != (#[trigger] frags[j]).0.0@
}

/// The bytes stored under hash `h`, if any.
pub open spec fn frag_lookup(frags: Seq<(ChunkHash, Vec<u8>)>, h: Seq<u8>) -> Option<Seq<u8>> {
    if exists|i: int| 0 <= i < frags.len() && (#[trigger] frags[i]).0.0@ == h {
        let i = choose|i: int| 0 <= i < frags.len() && (#[trigger] frags[i]).0.0@ == h;
        Some(frags[i].1@)
    } else {
        None
    }
}

proof fn lemma_frag_lookup_at(frags: Seq<(ChunkHash, Vec<u8>)>, i: int)
    requires
        frags_wf(frags),
        0 <= i < frags.len(),
    ensures
        frag_lookup(frags, frags[i].0.0@) == Some(frags[i].1@),
{
    let h = frags[i].0.0@;
    assert(exists|k: int| 0 <= k < frags.len() && (#[trigger] frags[k]).0.0@ == h);
    let c = choose|k: int| 0 <= k < frags.len() && (#[trigger] frags[k]).0.0@ == h;
    if c < i {
        assert(frags[c].0.0@ != frags[i].0.0@);
    } else if c > i {
        assert(frags[i].0.0@ != frags[c].0.0@);
    }
}

/// No file number is listed twice.
pub open spec fn index_wf(index: Seq<(usize, Vec<ChunkHash>)>) -> bool {
    forall|i: int, j: int| 0 <= i < j < index.len() ==> (#[trigger] index[i]).0 != (#[trigger] index[j]).0
}

/// The chunk list stored for file `id`, if any.
pub open spec fn index_lookup(index: Seq<(usize, Vec<ChunkHash>)>, id: usize) -> Option<Seq<ChunkHash>> {
    if exists|i: int| 0 <= i < index.len() && (#[trigger] index[i]).0 == id {
        let i = choose|i: int| 0 <= i < index.len() && (#[trigger] index[i]).0 == id;
        Some(index[i].1@)
    } else {
        None
    }
}

proof fn lemma_index_lookup_at(index: Seq<(usize, Vec<ChunkHash>)>, i: int)
    requires
        index_wf(index),
        0 <= i < index.len(),
    ensures
        index_lookup(index, index[i].0) == Some(index[i].1@),
{
    let id = index[i].0;
    assert(exists|k: int| 0 <= k < index.len() && (#[trigger] index[k]).0 == id);
    let c = choose|k: int| 0 <= k < index.len() && (#[trigger] index[k]).0 == id;
    if c < i {
        assert(index[c].0 != index[i].0);
    } else if c > i {
        assert(index[i].0 != index[c].0);
    }
}

/// The chunks named by `hs`, concatenated; None when one is missing.
pub open spec fn gather(frags: Seq<(ChunkHash, Vec<u8>)>, hs: Seq<ChunkHash>) -> Option<Seq<u8>>
    decreases hs.len(),
{
    if hs.len() == 0 {
        Some(Seq::empty())
    } else {
        match (gather(frags, hs.drop_last()), frag_lookup(frags, hs.last().0@)) {
            (Some(prefix), Some(c)) => Some(prefix + c),
            _ => None,
        }
    }
}

/// Chunk `k` of `data`.
pub open spec fn chunk(data: Seq<u8>, k: int) -> Seq<u8> {
    data.subrange(4096 * k, if 4096 * (k + 1) < data.len() { 4096 * (k + 1) } else { data.len() as int })
}

/// Number of chunks of `data`.
pub open spec fn chunk_count(data: Seq<u8>) -> int {
    (data.len() as int + 4095) / 4096
}

/// Chunks of `data` with the same hash hold the same bytes.
pub open spec fn chunks_consistent(data: Seq<u8>) -> bool {
    forall|j: int, k: int| 0 <= j < chunk_count(data) && 0 <= k < chunk_count(data)
        && chunk_hash_bytes(#[trigger] chunk(data, j)) == chunk_hash_bytes(#[trigger] chunk(data, k))
        ==> chunk(data, j) == chunk(data, k)
}

/// A node of the hash table: chunks by hash, files as chunk lists.
pub struct DhtNode {
    pub node_id: u64,
    pub fragments: Vec<(ChunkHash, Vec<u8>)>,
    pub file_index: Vec<(usize, Vec<ChunkHash>)>,
    pub file_counter: usize,
}

/// The contents of file `id` on a node with these fragments and index.
pub open spec fn file_contents(frags: Seq<(ChunkHash, Vec<u8>)>, index: Seq<(usize, Vec<ChunkHash>)>, id: usize) -> Option<Seq<u8>> {
    match index_lookup(index, id) {
        Some(hs) => gather(frags, hs),
        None => None,
    }
}

/// The bytes `data[start..end]`.
fn copy_range(data: &[u8], start: usize, end: usize) -> (r: Vec<u8>)
    requires
        start <= end <= data@.len(),
    ensures
        r@ == data@.subrange(start as int, end as int),
{
    let mut r: Vec<u8> = Vec::new();
    let mut i = start;
    while i < end
        invariant
            start <= i <= end,
            end <= data@.len(),
            r@ == data@.subrange(start as int, i as int),
        decreases end - i,
    {
        r.push(data[i]);
        i = i + 1;
        assert(r@ =~= data@.subrange(start as int, i as int));
    }
    r
}

/// Appends `src` to `dst`.
fn append_bytes(dst: &mut Vec<u8>, src: &Vec<u8>)
    ensures
        final(dst)@ == old(dst)@ + src@,
{
    let mut i: usize = 0;
    while i < src.len()
        invariant
            i <= src@.len(),
            dst@ == old(dst)@ + src@.take(i as int),
        decreases src@.len() - i,
    {
        dst.push(src[i]);
        i = i + 1;
        assert(dst@ =~= old(dst)@ + src@.take(i as int));
    }
    assert(src@.take(src@.len() as int) =~= src@);
}

proof fn lemma_gather_prefix(frags: Seq<(ChunkHash, Vec<u8>)>, hs: Seq<ChunkHash>, data: Seq<u8>, k: int)
    requires
        0 <= k <= hs.len(),
        hs.len() == chunk_count(data),
        forall|j: int| 0 <= j < hs.len() ==> frag_lookup(frags, (#[trigger] hs[j]).0@) == Some(chunk(data, j)),
    ensures
        gather(frags, hs.take(k)) == Some(data.take(if 4096 * k < data.len() { 4096 * k } else { data.len() as int })),
    decreases k,
{
    if k == 0 {
        assert(hs.take(0) =~= Seq::<ChunkHash>::empty());
        assert(data.take(0) =~= Seq::<u8>::empty());
    } else {
        lemma_gather_prefix(frags, hs, data, k - 1);
        assert(hs.take(k).drop_last() =~= hs.take(k - 1));
        assert(hs.take(k).last() == hs[k - 1]);
        let lo = 4096 * (k - 1);
        let hi = if 4096 * k < data.len() { 4096 * k } else { data.len() as int };
        assert(lo < data.len());
        assert(data.take(lo) + chunk(data, k - 1) =~= data.take(hi));
    }
}

impl DhtNode {
    /// An empty node; file numbers start at 1.
    pub fn new(node_id: u64) -> (n: Self)
        ensures
            n.node_id == node_id,
            n.fragments@.len() == 0,
            n.file_index@.len() == 0,
            n.file_counter == 1,
    {
        DhtNode { node_id, fragments: Vec::new(), file_index: Vec::new(), file_counter: 1 }
    }

    /// The node's invariant: no hash and no file number twice.
    pub open spec fn wf(&self) -> bool {
        frags_wf(self.fragments@) && index_wf(self.file_index@)
    }

    fn find_frag(&self, h: &ChunkHash) -> (r: Option<usize>)
        ensures
            r matches Some(i) ==> i < self.fragments@.len() && self.fragments@[i as int].0.0@ == h.0@,
            r is None ==> forall|i: int| 0 <= i < self.fragments@.len() ==> (#[trigger] self.fragments@[i]).0.0@ != h.0@,
    {
        let mut i: usize = 0;
        while i < self.fragments.len()
            invariant
                i <= self.fragments@.len(),
                forall|k: int| 0 <= k < i ==> (#[trigger] self.fragments@[k]).0.0@ != h.0@,
            decreases self.fragments@.len() - i,
        {
            if hash_eq(&self.fragments[i].0, h) {
                return Some(i);
            }
            i = i + 1;
        }
        None
    }

    fn insert_frag(&mut self, h: ChunkHash, v: Vec<u8>)
        requires
            old(self).wf(),
        ensures
            final(self).wf(),
            final(self).file_index@ == old(self).file_index@,
            final(self).node_id == old(self).node_id,
            final(self).file_counter == old(self).file_counter,
            frag_lookup(final(self).fragments@, h.0@) == Some(v@),
            forall|h2: Seq<u8>| h2 != h.0@ ==> frag_lookup(final(self).fragments@, h2) == frag_lookup(old(self).fragments@, h2),
    {
        let ghost hv = h.0@;
        let ghost vv = v@;
        match self.find_frag(&h) {
            Some(i) => {
                self.fragments.set(i, (h, v));
                assert(frags_wf(self.fragments@)) by {
                    assert forall|a: int, b: int| 0 <= a < b < self.fragments@.len() implies
                        (#[trigger] self.fragments@[a]).0.0@ != (#[trigger] self.fragments@[b]).0.0@ by {
                        assert(old(self).fragments@[a].0.0@ != old(self).fragments@[b].0.0@);
                    }
                }
                proof {
                    lemma_frag_lookup_at(self.fragments@, i as int);
                    assert forall|h2: Seq<u8>| h2 != hv implies
                        frag_lookup(self.fragments@, h2) == frag_lookup(old(self).fragments@, h2) by {
                        if exists|k: int| 0 <= k < old(self).fragments@.len() && (#[trigger] old(self).fragments@[k]).0.0@ == h2 {
                            let k = choose|k: int| 0 <= k < old(self).fragments@.len() && (#[trigger] old(self).fragments@[k]).0.0@ == h2;
                            lemma_frag_lookup_at(old(self).fragments@, k);
                            assert(self.fragments@[k] == old(self).fragments@[k]);
                            lemma_frag_lookup_at(self.fragments@, k);
                        } else {
                            assert forall|k: int| 0 <= k < self.fragments@.len() implies (#[trigger] self.fragments@[k]).0.0@ != h2 by {
                                if k != i {
                                    assert(self.fragments@[k] == old(self).fragments@[k]);
                                }
                            }
                        }
                    }
                }
            },
            None => {
                self.fragments.push((h, v));
                let ghost n = self.fragments@.len() - 1;
                assert(frags_wf(self.fragments@)) by {
                    assert forall|a: int, b: int| 0 <= a < b < self.fragments@.len() implies
                        (#[trigger] self.fragments@[a]).0.0@ != (#[trigger] self.fragments@[b]).0.0@ by {
                        if b < n {
                            assert(old(self).fragments@[a].0.0@ != old(self).fragments@[b].0.0@);
                        } else {
                            assert(self.fragments@[a] == old(self).fragments@[a]);
                        }
                    }
                }
                proof {
                    lemma_frag_lookup_at(self.fragments@, n);
                    assert forall|h2: Seq<u8>| h2 != hv implies
                        frag_lookup(self.fragments@, h2) == frag_lookup(old(self).fragments@, h2) by {
                        if exists|k: int| 0 <= k < old(self).fragments@.len() && (#[trigger] old(self).fragments@[k]).0.0@ == h2 {
                            let k = choose|k: int| 0 <= k < old(self).fragments@.len() && (#[trigger] old(self).fragments@[k]).0.0@ == h2;
                            lemma_frag_lookup_at(old(self).fragments@, k);
                            assert(self.fragments@[k] == old(self).fragments@[k]);
                            lemma_frag_lookup_at(self.fragments@, k);
                        } else {
                            assert forall|k: int| 0 <= k < self.fragments@.len() implies (#[trigger] self.fragments@[k]).0.0@ != h2 by {
                                if k < n {
                                    assert(self.fragments@[k] == old(self).fragments@[k]);
                                }
                            }
                        }
                    }
                }
            },
        }
    }

    fn insert_index(&mut self, id: usize, hs: Vec<ChunkHash>)
        requires
            old(self).wf(),
        ensures
            final(self).wf(),
            final(self).fragments@ == old(self).fragments@,
            final(self).node_id == old(self).node_id,
            final(self).file_counter == old(self).file_counter,
            index_lookup(final(self).file_index@, id) == Some(hs@),
    {
        let ghost hsv = hs@;
        let mut i: usize = 0;
        while i < self.file_index.len()
            invariant
                i <= self.file_index@.len(),
                self.wf(),
                self.file_index@ == old(self).file_index@,
                self.fragments@ == old(self).fragments@,
                self.node_id == old(self).node_id,
                self.file_counter == old(self).file_counter,
                forall|k: int| 0 <= k < i ==> (#[trigger] self.file_index@[k]).0 != id,
            decreases self.file_index@.len() - i,
        {
            if self.file_index[i].0 == id {
                self.file_index.set(i, (id, hs));
                assert(index_wf(self.file_index@)) by {
                    assert forall|a: int, b: int| 0 <= a < b < self.file_index@.len() implies
                        (#[trigger] self.file_index@[a]).0 != (#[trigger] self.file_index@[b]).0 by {
                        assert(old(self).file_index@[a].0 != old(self).file_index@[b].0);
                    }
                }
                proof {
                    lemma_index_lookup_at(self.file_index@, i as int);
                }
                return;
            }
            i = i + 1;
        }
        self.file_index.push((id, hs));
        let ghost n = self.file_index@.len() - 1;
        assert(index_wf(self.file_index@)) by {
            assert forall|a: int, b: int| 0 <= a < b < self.file_index@.len() implies
                (#[trigger] self.file_index@[a]).0 != (#[trigger] self.file_index@[b]).0 by {
                if b < n {
                    assert(old(self).file_index@[a].0 != old(self).file_index@[b].0);
                } else {
                    assert(self.file_index@[a] == old(self).file_index@[a]);
                }
            }
        }
        proof {
            lemma_index_lookup_at(self.file_index@, n);
        }
    }

    /// Stores `data` as a new file, in chunks of 4 KiB, and returns its
    /// number. Reading that number back gives `data`, as long as no two of
    /// its chunks with the same hash differ.
    pub fn store_file(&mut self, data: &[u8]) -> (file_id: usize)
        requires
            old(self).wf(),
        ensures
            final(self).wf(),
            file_id == old(self).file_counter,
            final(self).file_counter == old(self).file_counter.wrapping_add(1),
            final(self).node_id == old(self).node_id,
            chunks_consistent(data@) ==> file_contents(final(self).fragments@, final(self).file_index@, file_id) == Some(data@),
    {
        let file_id = self.file_counter;
        self.file_counter = self.file_counter.wrapping_add(1);
        let mut hashes: Vec<ChunkHash> = Vec::new();
        let len = data.len();
        let mut pos: usize = 0;
        let mut n: usize = 0;
        while pos < len
            invariant
                len == data@.len(),
                pos == (if 4096 * n <= len { 4096 * n } else { len as int }),
                n <= chunk_count(data@),
                pos < len ==> n < chunk_count(data@),
                self.wf(),
                self.node_id == old(self).node_id,
                self.file_counter == old(self).file_counter.wrapping_add(1),
                hashes@.len() == n,
                forall|k: int| 0 <= k < n ==> (#[trigger] hashes@[k]).0@ == chunk_hash_bytes(chunk(data@, k)),
                chunks_consistent(data@) ==> forall|k: int| 0 <= k < n ==>
                    frag_lookup(self.fragments@, (#[trigger] hashes@[k]).0@) == Some(chunk(data@, k)),
            decreases len - pos,
        {
            let end = if len - pos > CHUNK_SIZE { pos + CHUNK_SIZE } else { len };
            let piece = copy_range(data, pos, end);
            assert(piece@ == chunk(data@, n as int));
            let hash = ChunkHash::new(piece.as_slice());
            let hash2 = ChunkHash(hash.0);
            assert(hash2.0@ == hash.0@);
            let ghost before = self.fragments@;
            self.insert_frag(hash, piece);
            proof {
                if chunks_consistent(data@) {
                    assert forall|k: int| 0 <= k < n + 1 implies
                        frag_lookup(self.fragments@, (#[trigger] hashes@.push(hash2)[k]).0@) == Some(chunk(data@, k)) by {
                        if k < n {
                            if hashes@[k].0@ == hash2.0@ {
                                assert(chunk(data@, k) == chunk(data@, n as int));
                            }
                        }
                    }
                }
            }
            hashes.push(hash2);
            pos = end;
            n = n + 1;
        }
        let ghost hv = hashes@;
        proof {
            if chunks_consistent(data@) {
                lemma_gather_prefix(self.fragments@, hv, data@, n as int);
                assert(hv.take(n as int) =~= hv);
                assert(data@.take(data@.len() as int) =~= data@);
            }
        }
        self.insert_index(file_id, hashes);
        file_id
    }

    /// The contents of file `file_id`: its chunks in order; None when the
    /// file or one of its chunks is missing.
    pub fn retrieve_file(&self, file_id: usize) -> (r: Option<Vec<u8>>)
        requires
            self.wf(),
        ensures
            match file_contents(self.fragments@, self.file_index@, file_id) {
                Some(c) => r matches Some(v) && v@ == c,
                None => r is None,
            },
    {
        let mut found: Option<usize> = None;
        let mut i: usize = 0;
        while i < self.file_index.len()
            invariant
                i <= self.file_index@.len(),
                self.wf(),
                found is None ==> forall|k: int| 0 <= k < i ==> (#[trigger] self.file_index@[k]).0 != file_id,
                found matches Some(j) ==> j < self.file_index@.len() && self.file_index@[j as int].0 == file_id,
            decreases self.file_index@.len() - i,
        {
            if found.is_none() && self.file_index[i].0 == file_id {
                found = Some(i);
            }
            i = i + 1;
        }
        let j = match found {
            Some(j) => j,
            None => {
                return None;
            },
        };
        proof {
            lemma_index_lookup_at(self.file_index@, j as int);
        }
        let hashes = &self.file_index[j].1;
        assert(index_lookup(self.file_index@, file_id) == Some(hashes@));
        let mut data: Vec<u8> = Vec::new();
        let mut k: usize = 0;
        while k < hashes.len()
            invariant
                k <= hashes@.len(),
                self.wf(),
                gather(self.fragments@, hashes@.take(k as int)) == Some(data@),
                index_lookup(self.file_index@, file_id) == Some(hashes@),
            decreases hashes@.len() - k,
        {
            assert(hashes@.take(k + 1).drop_last() =~= hashes@.take(k as int));
            match self.find_frag(&hashes[k]) {
                Some(f) => {
                    proof {
                        lemma_frag_lookup_at(self.fragments@, f as int);
                    }
                    append_bytes(&mut data, &self.fragments[f].1);
                },
                None => {
                    assert(frag_lookup(self.fragments@, hashes@[k as int].0@) is None);
                    assert(gather(self.fragments@, hashes@.take(k + 1)) is None);
                    proof {
                        lemma_gather_none(self.fragments@, hashes@, k as int + 1);
                    }
                    return None;
                },
            }
            k = k + 1;
        }
        assert(hashes@.take(hashes@.len() as int) =~= hashes@);
        Some(data)
    }
}

proof fn lemma_gather_none(frags: Seq<(ChunkHash, Vec<u8>)>, hs: Seq<ChunkHash>, k: int)
    requires
        0 <= k <= hs.len(),
        gather(frags, hs.take(k)) is None,
    ensures
        gather(frags, hs) is None,
    decreases hs.len() - k,
{
    if k < hs.len() {
        assert(hs.take(k + 1).drop_last() =~= hs.take(k));
        lemma_gather_none(frags, hs, k + 1);
    } else {
        assert(hs.take(k) =~= hs);
    }
}

/// A hundred-byte file stored on a node comes back whole.
pub fn test_dht_storage() -> (passed: bool)
    ensures
        passed,
{
    let mut node = DhtNode::new(99);
    let test_data: Vec<u8> = vec![0x42u8; 100];
    proof {
        assert(chunk_count(test_data@) == 1);
        assert(chunks_consistent(test_data@));
    }
    let file_id = node.store_file(test_data.as_slice());
    let retrieved = match node.retrieve_file(file_id) {
        Some(r) => r,
        None => return false,
    };
    if retrieved.len() != test_data.len() {
        return false;
    }
    let mut i: usize = 0;
    while i < 10
        invariant
            i <= 10,
            retrieved@ == test_data@,
            test_data@.len() == 100,
        decreases 10 - i,
    {
        if retrieved[i] != test_data[i] {
            return false;
        }
        i = i + 1;
    }
    true
}

} // verus!
