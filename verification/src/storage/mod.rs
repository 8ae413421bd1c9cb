//! Storage: content hashing and Merkle roots, the chunked hash table, the
//! journaling RAM file system and the tiered key-value memory.
pub mod brain;
pub mod dht;
pub mod jfs;
pub mod merkle;
pub mod vfs;
