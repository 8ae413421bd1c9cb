//! The secure mesh: X25519 key agreement between nodes and
//! ChaCha20-Poly1305 sealed packets on each channel.
use vstd::prelude::*;
use std::collections::BTreeMap;
use chacha20poly1305::aead::{Aead, KeyInit};
use chacha20poly1305::ChaCha20Poly1305;
use x25519_dalek::{PublicKey, StaticSecret};
use vstd::bytes::{spec_u64_to_le_bytes, u64_to_le_bytes};
use vstd::std_specs::iter::IteratorSpec;

verus! {

/// ChaCha20-Poly1305 seals plaintexts shorter than this many bytes:
/// 2^32 - 1 keystream blocks of 64 bytes.
pub const AEAD_PLAINTEXT_LIMIT: u64 = 274877906880;

/// Bytes of the Poly1305 tag appended to every sealed payload.
pub const AEAD_TAG_LEN: usize = 16;

/// The X25519 public key of a 32-byte secret.
pub uninterp spec fn x25519_public_key(secret: Seq<u8>) -> Seq<u8>;

/// The X25519 shared secret of our secret and their public key.
pub uninterp spec fn x25519_agreement(secret: Seq<u8>, their_public: Seq<u8>) -> Seq<u8>;

/// ChaCha20-Poly1305 ciphertext and tag of a plaintext (no associated data).
pub uninterp spec fn chacha20poly1305_seal(key: Seq<u8>, nonce: Seq<u8>, plaintext: Seq<u8>) -> Seq<u8>;

/// ChaCha20-Poly1305 opening of a ciphertext with its tag: the plaintext,
/// or `None` where the tag does not authenticate it.
pub uninterp spec fn chacha20poly1305_open(key: Seq<u8>, nonce: Seq<u8>, ciphertext: Seq<u8>) -> Option<Seq<u8>>;

/// `PublicKey::from(&StaticSecret::from(secret))` of x25519-dalek, as bytes.
/// Claimed: the result is the named X25519 public key of the secret.
#[verifier::external_body]
fn public_key_of(secret: [u8; 32]) -> (public: [u8; 32])
    ensures
        public@ == x25519_public_key(secret@),
{
    PublicKey::from(&StaticSecret::from(secret)).to_bytes()
}

/// `StaticSecret::diffie_hellman` of x25519-dalek, as bytes. Claimed: the
/// result is the named agreement of the two keys, and, where their public key
/// is that of some secret, it is also what that secret agrees with our public
/// key (both sides of an X25519 exchange compute the same value).
#[verifier::external_body]
fn shared_secret_of(secret: [u8; 32], their_public: [u8; 32]) -> (shared: [u8; 32])
    ensures
        shared@ == x25519_agreement(secret@, their_public@),
        forall|theirs: Seq<u8>|
            theirs.len() == 32 && their_public@ == #[trigger] x25519_public_key(theirs) ==> shared@
                == x25519_agreement(theirs, x25519_public_key(secret@)),
{
    StaticSecret::from(secret).diffie_hellman(&PublicKey::from(their_public)).to_bytes()
}

/// `Aead::encrypt` of `ChaCha20Poly1305` keyed with `key`, no associated
/// data. Claimed: under the length limit it succeeds, its result is the named
/// seal of the arguments, and it is the plaintext's length plus the tag.
#[verifier::external_body]
fn seal(key: [u8; 32], nonce: [u8; 12], plaintext: &[u8]) -> (sealed: Vec<u8>)
    requires
        plaintext@.len() < AEAD_PLAINTEXT_LIMIT,
    ensures
        sealed@ == chacha20poly1305_seal(key@, nonce@, plaintext@),
        sealed@.len() == plaintext@.len() + AEAD_TAG_LEN,
{
    let cipher = ChaCha20Poly1305::new(chacha20poly1305::Key::from_slice(&key));
    cipher.encrypt(chacha20poly1305::Nonce::from_slice(&nonce), plaintext).expect("plaintext within the ChaCha20 block limit")
}

/// `Aead::decrypt` of `ChaCha20Poly1305` keyed with `key`, no associated
/// data, its error as `None`. Claimed: the result is the named opening; a
/// ciphertext shorter than the tag is refused; and a ciphertext sealed with
/// the same key and nonce opens to its plaintext.
#[verifier::external_body]
fn open(key: [u8; 32], nonce: [u8; 12], ciphertext: &[u8]) -> (opened: Option<Vec<u8>>)
    ensures
        opened matches Some(p) ==> chacha20poly1305_open(key@, nonce@, ciphertext@) == Some(p@),
        opened is None ==> chacha20poly1305_open(key@, nonce@, ciphertext@) is None,
        ciphertext@.len() < AEAD_TAG_LEN ==> opened is None,
        forall|pt: Seq<u8>| pt.len() < AEAD_PLAINTEXT_LIMIT && ciphertext@ == #[trigger] chacha20poly1305_seal(key@, nonce@, pt) ==> opened is Some && opened.unwrap()@ == pt,
{
    let cipher = ChaCha20Poly1305::new(chacha20poly1305::Key::from_slice(&key));
    cipher.decrypt(chacha20poly1305::Nonce::from_slice(&nonce), ciphertext).ok()
}

/// A sealed packet of the mesh.
#[derive(Debug, Clone)]
pub struct MeshPacket {
    pub sender_id: u64,
    pub nonce: [u8; 12],
    pub payload: Vec<u8>,
}

/// A peer's public key and the secret shared with it.
#[derive(Debug, Clone, Copy)]
pub struct MeshPeer {
    pub public_key: [u8; 32],
    pub shared_secret: [u8; 32],
}

/// A node of the mesh: its identity, key pair, peers and the sequence
/// number of its next nonce.
pub struct MeshNode {
    node_id: u64,
    secret: [u8; 32],
    public_key: [u8; 32],
    peers: BTreeMap<u64, MeshPeer>,
    nonce_counter: u64,
}

/// The key seed of a node: its id little-endian, then zeros.
pub open spec fn node_seed(node_id: u64) -> Seq<u8> {
    spec_u64_to_le_bytes(node_id) + Seq::new(24, |i: int| 0u8)
}

/// The nonce of sequence number `seq`: the number little-endian, then zeros.
pub open spec fn sequence_nonce(seq: u64) -> Seq<u8> {
    spec_u64_to_le_bytes(seq) + seq![0u8, 0u8, 0u8, 0u8]
}

/// The sequence number after `seq` (wrapping, as an atomic counter does).
pub open spec fn next_sequence(seq: u64) -> u64 {
    if seq == u64::MAX { 0 } else { (seq + 1) as u64 }
}

/// The sequence number `n` steps after `seq`, wrapping.
pub open spec fn sequence_after(seq: u64, n: nat) -> u64 {
    ((seq + n) % 0x1_0000_0000_0000_0000) as u64
}

/// One more step after `n` steps is `n + 1` steps.
pub proof fn lemma_sequence_after_step(seq: u64, n: nat)
    ensures
        next_sequence(sequence_after(seq, n)) == sequence_after(seq, n + 1),
        sequence_after(seq, 0) == seq,
{
    let m: int = 0x1_0000_0000_0000_0000;
    let x: int = (seq + n) % m;
    vstd::arithmetic::div_mod::lemma_fundamental_div_mod(seq + n, m);
    vstd::arithmetic::div_mod::lemma_fundamental_div_mod(seq + n + 1, m);
    vstd::arithmetic::div_mod::lemma_mod_add_multiples_vanish(seq as int, m);
    vstd::arithmetic::div_mod::lemma_small_mod(seq as nat, m as nat);
    vstd::arithmetic::div_mod::lemma_add_mod_noop(seq + n, 1, m);
    vstd::arithmetic::div_mod::lemma_small_mod(1, m as nat);
    if x == m - 1 {
        vstd::arithmetic::div_mod::lemma_mod_self_0(m);
        assert((x + 1) % m == 0);
    } else {
        vstd::arithmetic::div_mod::lemma_small_mod((x + 1) as nat, m as nat);
    }
}

impl MeshNode {
    pub closed spec fn spec_id(&self) -> u64 {
        self.node_id
    }

    pub closed spec fn spec_secret(&self) -> Seq<u8> {
        self.secret@
    }

    pub closed spec fn spec_public(&self) -> Seq<u8> {
        self.public_key@
    }

    pub closed spec fn spec_peers(&self) -> Map<u64, MeshPeer> {
        self.peers@
    }

    pub closed spec fn spec_sequence(&self) -> u64 {
        self.nonce_counter
    }

    /// The public key is the one of the secret.
    pub closed spec fn wf(&self) -> bool {
        &&& self.secret@.len() == 32
        &&& self.public_key@ == x25519_public_key(self.secret@)
    }

    /// A node whose secret is seeded from its id, with no peers.
    pub fn new(node_id: u64) -> (node: Self)
        ensures
            node.wf(),
            node.spec_id() == node_id,
            node.spec_secret() == node_seed(node_id),
            node.spec_public() == x25519_public_key(node_seed(node_id)),
            node.spec_peers() == Map::<u64, MeshPeer>::empty(),
            node.spec_sequence() == 0,
    {
        let id_bytes = u64_to_le_bytes(node_id);
        let mut seed = [0u8; 32];
        let mut i: usize = 0;
        while i < 8
            invariant
                i <= 8,
                id_bytes@ == spec_u64_to_le_bytes(node_id),
                id_bytes@.len() == 8,
                seed@.len() == 32,
                forall|k: int| 0 <= k < i ==> seed@[k] == id_bytes@[k],
                forall|k: int| i <= k < 32 ==> seed@[k] == 0u8,
            decreases 8 - i,
        {
            seed[i] = id_bytes[i];
            i = i + 1;
        }
        assert(seed@ =~= node_seed(node_id));
        let public_key = public_key_of(seed);
        MeshNode { node_id, secret: seed, public_key, peers: BTreeMap::new(), nonce_counter: 0 }
    }

    /// The node's public key.
    pub fn public_key(&self) -> (key: [u8; 32])
        ensures
            key@ == self.spec_public(),
    {
        self.public_key
    }

    /// Agrees a shared secret with a peer's public key and records the peer,
    /// replacing an earlier record under the same id.
    pub fn add_peer(&mut self, peer_id: u64, peer_public_key: [u8; 32])
        requires
            old(self).wf(),
        ensures
            final(self).wf(),
            final(self).spec_id() == old(self).spec_id(),
            final(self).spec_secret() == old(self).spec_secret(),
            final(self).spec_public() == old(self).spec_public(),
            final(self).spec_sequence() == old(self).spec_sequence(),
            final(self).spec_peers() == old(self).spec_peers().insert(
                peer_id,
                (MeshPeer {
                    public_key: peer_public_key,
                    shared_secret: final(self).spec_peers()[peer_id].shared_secret,
                }),
            ),
            final(self).spec_peers()[peer_id].shared_secret@ == x25519_agreement(
                old(self).spec_secret(),
                peer_public_key@,
            ),
            forall|theirs: Seq<u8>|
                theirs.len() == 32 && peer_public_key@ == #[trigger] x25519_public_key(theirs)
                    ==> final(self).spec_peers()[peer_id].shared_secret@ == x25519_agreement(
                    theirs,
                    old(self).spec_public(),
                ),
    {
        broadcast use vstd::laws_cmp::group_laws_cmp;
        let shared_secret = shared_secret_of(self.secret, peer_public_key);
        self.peers.insert(peer_id, MeshPeer { public_key: peer_public_key, shared_secret });
    }
    /// The ids of the recorded peers, each once.
    pub fn get_peer_ids(&self) -> (ids: Vec<u64>)
        ensures
            ids@.to_set() == self.spec_peers().dom(),
            ids@.no_duplicates(),
    {
        broadcast use vstd::laws_cmp::group_laws_cmp;
        broadcast use vstd::std_specs::btree::group_btree_axioms;
        let ghost keys = vstd::std_specs::btree::spec_keys_iter(&self.peers).remaining();
        let mut ids: Vec<u64> = Vec::new();
        for k in it: self.peers.keys()
            invariant
                it.seq() == keys,
                ids@ == keys.take(it.index()).unref(),
        {
            ids.push(*k);
            assert(keys.take(it.index() + 1).unref() =~= keys.take(it.index()).unref().push(*k));
        }
        assert(ids@ =~= keys.unref());
        ids
    }

    /// Seals `payload` for a recorded peer under the next sequence nonce;
    /// `None`, with nothing changed, for an unknown peer.
    pub fn send_to(&mut self, peer_id: u64, payload: &[u8]) -> (packet: Option<MeshPacket>)
        requires
            old(self).wf(),
            payload@.len() < AEAD_PLAINTEXT_LIMIT,
        ensures
            final(self).wf(),
            final(self).spec_id() == old(self).spec_id(),
            final(self).spec_secret() == old(self).spec_secret(),
            final(self).spec_public() == old(self).spec_public(),
            final(self).spec_peers() == old(self).spec_peers(),
            !old(self).spec_peers().contains_key(peer_id) ==> packet is None && final(self).spec_sequence()
                == old(self).spec_sequence(),
            old(self).spec_peers().contains_key(peer_id) ==> {
                &&& packet is Some
                &&& packet.unwrap().sender_id == old(self).spec_id()
                &&& packet.unwrap().nonce@ == sequence_nonce(old(self).spec_sequence())
                &&& packet.unwrap().payload@ == chacha20poly1305_seal(
                    old(self).spec_peers()[peer_id].shared_secret@,
                    sequence_nonce(old(self).spec_sequence()),
                    payload@,
                )
                &&& final(self).spec_sequence() == next_sequence(old(self).spec_sequence())
            },
    {
        broadcast use vstd::laws_cmp::group_laws_cmp;
        let peer = match self.peers.get(&peer_id) {
            Some(p) => *p,
            None => return None,
        };
        let seq = self.nonce_counter;
        self.nonce_counter = seq.wrapping_add(1);
        let seq_bytes = u64_to_le_bytes(seq);
        let mut nonce = [0u8; 12];
        let mut i: usize = 0;
        while i < 8
            invariant
                i <= 8,
                seq_bytes@ == spec_u64_to_le_bytes(seq),
                seq_bytes@.len() == 8,
                nonce@.len() == 12,
                forall|k: int| 0 <= k < i ==> nonce@[k] == seq_bytes@[k],
                forall|k: int| i <= k < 12 ==> nonce@[k] == 0u8,
            decreases 8 - i,
        {
            nonce[i] = seq_bytes[i];
            i = i + 1;
        }
        assert(nonce@ =~= sequence_nonce(seq));
        let sealed = seal(peer.shared_secret, nonce, payload);
        Some(MeshPacket { sender_id: self.node_id, nonce, payload: sealed })
    }

    /// Opens a packet from a recorded peer with the secret shared with it;
    /// `None` for an unknown sender or a packet that does not authenticate.
    pub fn receive_from(&self, packet: MeshPacket) -> (plaintext: Option<Vec<u8>>)
        ensures
            !self.spec_peers().contains_key(packet.sender_id) ==> plaintext is None,
            self.spec_peers().contains_key(packet.sender_id) ==> {
                let key = self.spec_peers()[packet.sender_id].shared_secret@;
                &&& plaintext is Some ==> chacha20poly1305_open(key, packet.nonce@, packet.payload@)
                    == Some(plaintext.unwrap()@)
                &&& plaintext is None ==> chacha20poly1305_open(key, packet.nonce@, packet.payload@) is None
                &&& forall|pt: Seq<u8>|
                    pt.len() < AEAD_PLAINTEXT_LIMIT && packet.payload@ == #[trigger] chacha20poly1305_seal(
                        key,
                        packet.nonce@,
                        pt,
                    ) ==> plaintext is Some && plaintext.unwrap()@ == pt
            },
    {
        broadcast use vstd::laws_cmp::group_laws_cmp;
        match self.peers.get(&packet.sender_id) {
            Some(peer) => open(peer.shared_secret, packet.nonce, packet.payload.as_slice()),
            None => None,
        }
    }
}

/// Two nodes exchange public keys, and a message sealed by the first opens
/// unchanged at the second.
pub fn test_mesh_crypto() -> (passed: bool)
    ensures
        passed,
{
    let mut node_a = MeshNode::new(10);
    let mut node_b = MeshNode::new(20);
    let key_b = node_b.public_key();
    node_a.add_peer(20, key_b);
    let key_a = node_a.public_key();
    node_b.add_peer(10, key_a);
    let message: [u8; 17] = [72, 101, 108, 108, 111, 32, 102, 114, 111, 109, 32, 78, 111, 100, 101, 32, 65];
    let packet = match node_a.send_to(20, message.as_slice()) {
        Some(p) => p,
        None => return false,
    };
    assert(node_b.spec_peers().contains_key(packet.sender_id));
    let decrypted = match node_b.receive_from(packet) {
        Some(d) => d,
        None => return false,
    };
    bytes_equal(decrypted.as_slice(), message.as_slice())
}

/// Byte-wise equality of two slices.
fn bytes_equal(a: &[u8], b: &[u8]) -> (eq: bool)
    ensures
        eq == (a@ == b@),
{
    if a.len() != b.len() {
        return false;
    }
    let mut i: usize = 0;
    while i < a.len()
        invariant
            a@.len() == b@.len(),
            i <= a@.len(),
            forall|k: int| 0 <= k < i ==> a@[k] == b@[k],
        decreases a@.len() - i,
    {
        if a[i] != b[i] {
            return false;
        }
        i = i + 1;
    }
    assert(a@ =~= b@);
    true
}

} // verus!
