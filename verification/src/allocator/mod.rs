//! Heap allocators: a first-fit free-list allocator and a fixed-size slab.
pub mod linked_list;
pub mod slab;
