use vstd::prelude::*;

use crate::erased::{CloneError, CloneIntoBox, value_at};
use crate::heap::Heap;
use crate::layout::Layout;

verus! {

/// Descriptor of a type with ordinary duplication: its copy is a
/// byte-for-byte copy of the value, and duplicating never fails.
pub struct PlainData {
    pub layout: Layout,
}

impl CloneIntoBox for PlainData {
    open spec fn layout_spec(&self) -> Layout {
        self.layout
    }

    open spec fn duplicate_spec(&self, src: Seq<u8>) -> Result<Seq<u8>, CloneError> {
        Ok(src)
    }

    fn layout(&self) -> (r: Layout) {
        self.layout
    }

    fn clone_into_ptr(&self, heap: &mut Heap, src: usize, dst: usize) -> (r: Result<(), CloneError>) {
        if self.layout.size == 0 {
            return Ok(());
        }
        let bytes = heap.read(src);
        heap.write(dst, bytes);
        Ok(())
    }
}

/// Descriptor of a type whose values must not be duplicated (they stand for
/// a resource of which there is one): every duplication fails with `error`.
pub struct Unique {
    pub layout: Layout,
    pub error: CloneError,
}

impl CloneIntoBox for Unique {
    open spec fn layout_spec(&self) -> Layout {
        self.layout
    }

    open spec fn duplicate_spec(&self, src: Seq<u8>) -> Result<Seq<u8>, CloneError> {
        Err(self.error)
    }

    fn layout(&self) -> (r: Layout) {
        self.layout
    }

    fn clone_into_ptr(&self, heap: &mut Heap, src: usize, dst: usize) -> (r: Result<(), CloneError>) {
        proof {
            if self.layout.size > 0 {
                heap.lemma_block_fits(dst);
                assert(heap@ =~= heap@.insert(dst, (self.layout, heap@[dst].1)));
            }
        }
        Err(self.error)
    }
}

} // verus!
