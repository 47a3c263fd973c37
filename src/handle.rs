use vstd::prelude::*;

use crate::erased::{CloneError, CloneIntoBox, CloneIntoBoxExt, clone_placed, holds_value, value_at};
use crate::heap::Heap;
use crate::layout::Layout;

verus! {

/// An owning handle: the address of a value together with the descriptor of
/// its type. With `D = dyn CloneIntoBox` the handle is type-erased: the
/// descriptor is a trait object and the concrete type is never named.
pub struct ErasedBox<'a, D: CloneIntoBox + ?Sized> {
    addr: usize,
    meta: &'a D,
}

impl<'a, D: CloneIntoBox + ?Sized> ErasedBox<'a, D> {
    pub closed spec fn addr_spec(&self) -> usize {
        self.addr
    }

    /// The descriptor of the value's dynamic type.
    pub closed spec fn descriptor(&self) -> &'a D {
        self.meta
    }

    pub open spec fn layout_spec(&self) -> Layout {
        self.descriptor().layout_spec()
    }

    /// The handle's value lives in `heap` with its type's layout.
    pub open spec fn wf(&self, heap: Heap) -> bool {
        &&& heap.wf()
        &&& self.layout_spec().valid()
        &&& holds_value(heap, self.addr_spec(), self.layout_spec())
    }

    /// The bytes of the handle's value.
    pub open spec fn value(&self, heap: Heap) -> Seq<u8> {
        value_at(heap, self.addr_spec(), self.layout_spec())
    }

    /// What cloning `self` from heap `before` leaves: heap `after` and result `r`.
    pub open spec fn clone_outcome(
        &self,
        before: Heap,
        after: Heap,
        r: Result<ErasedBox<'a, D>, CloneError>,
    ) -> bool {
        &&& after.wf()
        &&& match self.descriptor().duplicate_spec(self.value(before)) {
            Ok(copy) => r is Ok && {
                let c = r->Ok_0;
                &&& c.descriptor() == self.descriptor()
                &&& c.wf(after)
                &&& c.value(after) == copy
                &&& self.value(after) == self.value(before)
                &&& self.layout_spec().size > 0 ==> c.addr_spec() != self.addr_spec()
                &&& clone_placed(before, after, c.addr_spec(), self.layout_spec(), copy)
                &&& after.allocs_spec() - after.deallocs_spec() == before.allocs_spec()
                    - before.deallocs_spec() + if self.layout_spec().size > 0 {
                    1int
                } else {
                    0int
                }
            },
            Err(e) => {
                &&& r == Err::<ErasedBox<'a, D>, CloneError>(e)
                &&& after@ == before@
                &&& after.allocs_spec() - after.deallocs_spec() == before.allocs_spec()
                    - before.deallocs_spec()
            },
        }
    }

    /// `after` is `before` with the handle's value replaced by `bytes`.
    pub open spec fn written(&self, before: Heap, after: Heap, bytes: Seq<u8>) -> bool {
        &&& self.layout_spec().size == 0 ==> after == before
        &&& self.layout_spec().size > 0 ==> after@ == before@.insert(
            self.addr_spec(),
            (self.layout_spec(), bytes),
        )
    }

    /// Places a value of `meta`'s type, given by its bytes, in fresh storage.
    pub fn new(heap: &mut Heap, meta: &'a D, bytes: Vec<u8>) -> (r: ErasedBox<'a, D>)
        requires
            old(heap).wf(),
            meta.layout_spec().valid(),
            old(heap).has_room_spec(meta.layout_spec()),
            bytes@.len() == meta.layout_spec().size,
        ensures
            r.descriptor() == meta,
            r.wf(*final(heap)),
            clone_placed(*old(heap), *final(heap), r.addr_spec(), meta.layout_spec(), bytes@),
    {
        let layout = meta.layout();
        let addr = heap.allocate(layout);
        if layout.size > 0 {
            heap.write(addr, bytes);
            proof {
                assert(heap@ =~= old(heap)@.insert(addr, (layout, bytes@)));
            }
        }
        ErasedBox { addr, meta }
    }

    pub fn addr(&self) -> (r: usize)
        ensures
            r == self.addr_spec(),
    {
        self.addr
    }

    pub fn layout(&self) -> (r: Layout)
        ensures
            r == self.layout_spec(),
    {
        self.meta.layout()
    }

    /// A handle of the same dynamic type as `self` whose data lives at `addr`.
    pub fn with_addr(&self, addr: usize) -> (r: ErasedBox<'a, D>)
        ensures
            r.descriptor() == self.descriptor(),
            r.addr_spec() == addr,
    {
        ErasedBox { addr, meta: self.meta }
    }

    /// Duplicates the value into fresh storage and returns an owning handle
    /// of the same dynamic type. When the type's routine fails, its error
    /// comes back and every block allocated on the way has been released.
    pub fn clone_to_owned(&self, heap: &mut Heap) -> (r: Result<ErasedBox<'a, D>, CloneError>)
        requires
            self.wf(*old(heap)),
            old(heap).has_room_spec(self.layout_spec()),
        ensures
            final(heap).wf(),
            self.clone_outcome(*old(heap), *final(heap), r),
    {
        match self.meta.clone_into_box(heap, self.addr) {
            Ok(addr) => {
                let r = self.with_addr(addr);
                proof {
                    if let Ok(copy) = self.descriptor().duplicate_spec(self.value(*old(heap))) {
                        if self.layout_spec().size == 0 {
                            assert(copy =~= r.value(*heap));
                        }
                    }
                }
                Ok(r)
            },
            Err(e) => Err(e),
        }
    }

    /// The bytes of the handle's value.
    pub fn contents(&self, heap: &Heap) -> (r: Vec<u8>)
        requires
            self.wf(*heap),
        ensures
            r@ == self.value(*heap),
    {
        if self.meta.layout().size == 0 {
            return Vec::new();
        }
        heap.read(self.addr)
    }

    /// Replaces the handle's value; no other block changes.
    pub fn set_contents(&self, heap: &mut Heap, bytes: Vec<u8>)
        requires
            self.wf(*old(heap)),
            bytes@.len() == self.layout_spec().size,
        ensures
            self.wf(*final(heap)),
            self.value(*final(heap)) == bytes@,
            self.written(*old(heap), *final(heap), bytes@),
    {
        if self.meta.layout().size > 0 {
            heap.write(self.addr, bytes);
        }
    }

    /// Gives the handle's storage back to the heap.
    pub fn free(self, heap: &mut Heap)
        requires
            self.wf(*old(heap)),
        ensures
            final(heap).wf(),
            self.layout_spec().size == 0 ==> *final(heap) == *old(heap),
            self.layout_spec().size > 0 ==> final(heap)@ == old(heap)@.remove(self.addr_spec()),
    {
        let layout = self.meta.layout();
        if layout.size > 0 {
            heap.deallocate(self.addr, layout);
        }
    }
}

} // verus!
