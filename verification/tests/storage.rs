use jarvis_kernel::storage::brain::{BrainTier, JarvisBrain};
use jarvis_kernel::storage::dht::{ChunkHash, DhtNode};
use jarvis_kernel::storage::jfs::{Jfs, RamDisk};
use jarvis_kernel::storage::merkle::{calculate_hash, MerkleTree};
use jarvis_kernel::storage::vfs::{Error, Vfs};

#[test]
fn fnv_known_values() {
    // FNV-1a 64 of "" is the offset basis; of "a" is 0xaf63dc4c8601ec8c.
    assert_eq!(calculate_hash(b""), 0x84222325);
    assert_eq!(calculate_hash(b"a"), 0x8601ec8c);
}

#[test]
fn merkle_roots() {
    let empty = MerkleTree::from_data_blocks(&[]);
    assert_eq!(empty.root_hash, 0);
    assert!(empty.leaves.is_empty());
    let one = MerkleTree::from_data_blocks(&[b"abc".to_vec()]);
    assert_eq!(one.root_hash, calculate_hash(b"abc"));
    let two = MerkleTree::from_data_blocks(&[b"a".to_vec(), b"b".to_vec()]);
    let ha = calculate_hash(b"a");
    let hb = calculate_hash(b"b");
    let mut pair = Vec::new();
    pair.extend_from_slice(&ha.to_le_bytes());
    pair.extend_from_slice(&hb.to_le_bytes());
    assert_eq!(two.root_hash, calculate_hash(&pair));
    assert_eq!(two.leaves, vec![ha, hb]);
    // An odd node is paired with itself.
    let three = MerkleTree::from_data_blocks(&[b"a".to_vec(), b"b".to_vec(), b"c".to_vec()]);
    let hc = calculate_hash(b"c");
    let mut cc = Vec::new();
    cc.extend_from_slice(&hc.to_le_bytes());
    cc.extend_from_slice(&hc.to_le_bytes());
    let l1 = vec![calculate_hash(&pair), calculate_hash(&cc)];
    assert_eq!(three.root_hash, MerkleTree::calculate_root(&l1));
}

#[test]
fn merkle_verify() {
    let t = MerkleTree::from_data_blocks(&[b"a".to_vec()]);
    assert_eq!(t.root_hash, 0x8601EC8C);
    assert!(MerkleTree::verify(t.root_hash, b"a", 0, 1));
    assert!(!MerkleTree::verify(t.root_hash, b"b", 0, 1));
    assert!(!MerkleTree::verify(t.root_hash, b"a", 1, 1));
    assert!(!MerkleTree::verify(0, b"a", 0, 1));
    // With more leaves and no path, only the nonzero and range checks apply.
    assert!(MerkleTree::verify(5, b"x", 1, 2));
    assert!(!MerkleTree::verify(0, b"x", 0, 2));
    assert!(!MerkleTree::verify(5, b"x", 2, 2));
    assert!(!MerkleTree::verify(5, b"x", 0, 0));
}

#[test]
fn chunk_hash_folds_xor() {
    let h = ChunkHash::new(&[1u8; 33]);
    assert_eq!(h.0[0], 0);
    assert_eq!(h.0[1], 1);
    let mut data = vec![0u8; 64];
    data[3] = 0xF0;
    data[35] = 0x0F;
    assert_eq!(ChunkHash::new(&data).0[3], 0xFF);
}

#[test]
fn test_dht_storage_round_trip() {
    let mut node = DhtNode::new(99);
    let test_data = vec![0x42u8; 100];
    let file_id = node.store_file(&test_data);
    assert_eq!(file_id, 1);
    let retrieved = node.retrieve_file(file_id).expect("stored file");
    assert_eq!(retrieved, test_data);
    assert!(node.retrieve_file(7).is_none());
}

#[test]
fn dht_multi_chunk_and_empty() {
    let mut node = DhtNode::new(1);
    let data: Vec<u8> = (0..10000u32).map(|i| (i % 251) as u8).collect();
    let id = node.store_file(&data);
    let empty_id = node.store_file(&[]);
    assert_eq!(empty_id, id + 1);
    assert_eq!(node.retrieve_file(id).unwrap(), data);
    assert_eq!(node.retrieve_file(empty_id).unwrap(), Vec::<u8>::new());
}

#[test]
fn jfs_appends_and_fills() {
    let disk = RamDisk::new(4);
    assert_eq!(disk.data, vec![0, 0, 0, 0]);
    let mut fs = Jfs::new(8);
    assert!(matches!(fs.open("/x"), Err(Error::NotFound)));
    assert_eq!(fs.mkdir("/d"), Err(Error::Other));
    {
        let mut f = fs.create("/log").ok().unwrap();
        assert_eq!(f.write(&[1, 2, 3]), Ok(3));
        assert_eq!(f.write(&[4, 5]), Ok(2));
        assert_eq!(f.write(&[6, 7, 8, 9]), Err(Error::DiskFull));
        let mut buf = vec![0u8; 2];
        assert_eq!(f.read(&mut buf), Ok(0));
        assert_eq!(f.seek(0), Ok(()));
    }
    assert_eq!(fs.write_ptr, 5);
    assert_eq!(fs.storage.data, vec![1, 2, 3, 4, 5, 0, 0, 0]);
}

#[test]
fn vfs_mount() {
    let mut v: Vfs<Jfs> = Vfs::new();
    assert!(v.get_root().is_none());
    v.mount(Jfs::new(16));
    assert_eq!(v.get_root().unwrap().write_ptr, 0);
}

#[test]
fn brain_store_retrieve_prune() {
    let mut b = JarvisBrain::new();
    b.store("CORE_DIRECTIVE", vec![1, 2, 3], BrainTier::Decentralized, 255);
    assert_eq!(b.hive_root, calculate_hash(&[1, 2, 3]) as usize);
    b.store("TEMPORARY_CONTEXT", vec![0; 4], BrainTier::Local, 10);
    b.store("NOTE", vec![9], BrainTier::Central, 50);
    assert_eq!(b.synaptic_density, 3);
    assert_eq!(b.retrieve("NOTE"), Some(vec![9]));
    b.store("NOTE", vec![8, 8], BrainTier::Central, 50);
    assert_eq!(b.retrieve("NOTE"), Some(vec![8, 8]));
    assert_eq!(b.synaptic_density, 3);
    assert_eq!(b.retrieve("missing"), None);
    b.prune(20);
    assert_eq!(b.retrieve("TEMPORARY_CONTEXT"), None);
    assert_eq!(b.retrieve("CORE_DIRECTIVE"), Some(vec![1, 2, 3]));
    assert_eq!(b.retrieve("NOTE"), Some(vec![8, 8]));
    assert_eq!(b.synaptic_density, 2);
    b.prune(255);
    assert_eq!(b.retrieve("CORE_DIRECTIVE"), Some(vec![1, 2, 3]));
    assert_eq!(b.retrieve("NOTE"), None);
}
