//! Duplicating values that are known only through a type-erased handle.
//!
//! Memory is an explicit allocator model (`Heap`) of raw blocks, each tagged
//! with the layout it was allocated with. A type-erased handle is a pair of a
//! data address and a type descriptor (`&dyn CloneIntoBox`); the engine in
//! `CloneIntoBoxExt` allocates a block of the descriptor's exact layout, asks
//! the descriptor to duplicate the value into it, releases the block if that
//! fails, and otherwise pairs the new address with the same descriptor.
pub mod layout;
pub mod heap;
pub mod erased;
pub mod plain;
pub mod handle;
pub mod laws;
