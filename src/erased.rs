use vstd::prelude::*;

use crate::heap::{Heap, placement};
use crate::layout::Layout;

verus! {

/// Why a duplication routine gave up.
#[derive(Clone, Copy, PartialEq, Eq, Structural, Debug)]
pub struct CloneError {
    pub code: u32,
}

/// Whether `heap` holds a value of `layout` at `addr`. A zero-sized value
/// occupies no block, so any address holds one.
pub open spec fn holds_value(heap: Heap, addr: usize, layout: Layout) -> bool {
    layout.size == 0 || (heap@.contains_key(addr) && heap@[addr].0 == layout)
}

/// The bytes of the value of `layout` at `addr`; empty when zero-sized.
pub open spec fn value_at(heap: Heap, addr: usize, layout: Layout) -> Seq<u8> {
    if layout.size == 0 {
        Seq::empty()
    } else {
        heap@[addr].1
    }
}

/// A type descriptor: the layout of one dynamic type and the routine that
/// duplicates a value of it into storage that the caller provides.
///
/// Values are reached only through `&dyn CloneIntoBox`, so callers never
/// name the concrete type.
pub trait CloneIntoBox {
    /// Size and alignment of every value of this type.
    spec fn layout_spec(&self) -> Layout;

    /// What duplicating a value with these bytes yields: the bytes of the
    /// copy, or the error the routine reports.
    spec fn duplicate_spec(&self, src: Seq<u8>) -> Result<Seq<u8>, CloneError>;

    fn layout(&self) -> (r: Layout)
        ensures
            r == self.layout_spec(),
    ;

    /// Writes a copy of the value at `src` into the uninitialized block at
    /// `dst`, which has this type's layout. Touches no other block; on
    /// failure the bytes at `dst` are unspecified. A zero-sized value is
    /// duplicated without touching the heap at all.
    fn clone_into_ptr(&self, heap: &mut Heap, src: usize, dst: usize) -> (r: Result<(), CloneError>)
        requires
            old(heap).wf(),
            self.layout_spec().valid(),
            holds_value(*old(heap), src, self.layout_spec()),
            self.layout_spec().size > 0 ==> {
                &&& old(heap)@.contains_key(dst)
                &&& old(heap)@[dst].0 == self.layout_spec()
                &&& src != dst
            },
        ensures
            final(heap).wf(),
            final(heap).allocs_spec() == old(heap).allocs_spec(),
            final(heap).deallocs_spec() == old(heap).deallocs_spec(),
            final(heap).top() == old(heap).top(),
            self.layout_spec().size == 0 ==> *final(heap) == *old(heap),
            self.layout_spec().size > 0 ==> {
                &&& final(heap)@ == old(heap)@.insert(
                    dst,
                    (self.layout_spec(), final(heap)@[dst].1),
                )
                &&& final(heap)@[dst].1.len() == self.layout_spec().size
            },
            match self.duplicate_spec(value_at(*old(heap), src, self.layout_spec())) {
                Ok(copy) => r is Ok && value_at(*final(heap), dst, self.layout_spec()) == copy,
                Err(e) => r == Err::<(), CloneError>(e),
            },
    ;
}

/// Owns a freshly allocated block until the copy into it has succeeded:
/// `release` gives the block back with the layout it was allocated with,
/// `disarm` hands its address on.
struct AllocGuard {
    addr: usize,
    layout: Layout,
}

impl AllocGuard {
    fn acquire(heap: &mut Heap, layout: Layout) -> (g: AllocGuard)
        requires
            old(heap).wf(),
            layout.valid(),
            old(heap).has_room_spec(layout),
        ensures
            final(heap).wf(),
            g.layout == layout,
            g.addr % layout.align == 0,
            layout.size == 0 ==> g.addr == layout.align && *final(heap) == *old(heap),
            layout.size > 0 ==> {
                &&& g.addr == placement(old(heap).top(), layout)
                &&& final(heap).top() == g.addr + layout.size
                &&& !old(heap)@.contains_key(g.addr)
                &&& final(heap)@ == old(heap)@.insert(g.addr, (layout, final(heap)@[g.addr].1))
                &&& final(heap)@[g.addr].1.len() == layout.size
                &&& final(heap).allocs_spec() == old(heap).allocs_spec() + 1
                &&& final(heap).deallocs_spec() == old(heap).deallocs_spec()
            },
    {
        let addr = heap.allocate(layout);
        AllocGuard { addr, layout }
    }

    fn release(self, heap: &mut Heap)
        requires
            old(heap).wf(),
            self.layout.valid(),
            self.layout.size > 0 ==> old(heap)@.contains_key(self.addr) && old(heap)@[self.addr].0
                == self.layout,
        ensures
            final(heap).wf(),
            self.layout.size == 0 ==> *final(heap) == *old(heap),
            self.layout.size > 0 ==> {
                &&& final(heap)@ == old(heap)@.remove(self.addr)
                &&& final(heap).allocs_spec() == old(heap).allocs_spec()
                &&& final(heap).deallocs_spec() == old(heap).deallocs_spec() + 1
            },
    {
        if self.layout.size > 0 {
            heap.deallocate(self.addr, self.layout);
        }
    }

    fn disarm(self) -> (r: usize)
        ensures
            r == self.addr,
    {
        self.addr
    }
}

/// Duplication of a value reached through its type descriptor: allocate a
/// block of the descriptor's exact layout, duplicate into it, and give the
/// block back if the duplication fails.
pub trait CloneIntoBoxExt: CloneIntoBox {
    /// Duplicates the value at `src` into fresh storage and returns the
    /// copy's address. On failure the routine's error comes back and the
    /// heap's live blocks are as before.
    fn clone_into_box(&self, heap: &mut Heap, src: usize) -> (r: Result<usize, CloneError>)
        requires
            old(heap).wf(),
            self.layout_spec().valid(),
            holds_value(*old(heap), src, self.layout_spec()),
            old(heap).has_room_spec(self.layout_spec()),
        ensures
            final(heap).wf(),
            final(heap).allocs_spec() - final(heap).deallocs_spec() + (if r is Ok
                && self.layout_spec().size > 0 {
                -1int
            } else {
                0int
            }) == old(heap).allocs_spec() - old(heap).deallocs_spec(),
            match self.duplicate_spec(value_at(*old(heap), src, self.layout_spec())) {
                Ok(copy) => r is Ok && clone_placed(
                    *old(heap),
                    *final(heap),
                    r->Ok_0,
                    self.layout_spec(),
                    copy,
                ),
                Err(e) => r == Err::<usize, CloneError>(e) && final(heap)@ == old(heap)@,
            },
    {
        let layout = self.layout();
        let guard = AllocGuard::acquire(heap, layout);
        let ghost mid = *heap;
        assert(value_at(mid, src, layout) == value_at(*old(heap), src, layout));
        match self.clone_into_ptr(heap, src, guard.addr) {
            Ok(()) => {
                proof {
                    if layout.size > 0 {
                        assert(heap@ =~= old(heap)@.insert(guard.addr, (layout, heap@[guard.addr].1)));
                    }
                }
                Ok(guard.disarm())
            },
            Err(e) => {
                guard.release(heap);
                proof {
                    if layout.size > 0 {
                        assert(heap@ =~= old(heap)@);
                    }
                }
                Err(e)
            },
        }
    }
}

impl<T: CloneIntoBox + ?Sized> CloneIntoBoxExt for T {

}

/// `after` is `before` with one more value, `copy`, of `layout`, at `addr`:
/// a fresh block when the layout has a size, else the dangling address
/// `layout.align` with the heap untouched.
pub open spec fn clone_placed(
    before: Heap,
    after: Heap,
    addr: usize,
    layout: Layout,
    copy: Seq<u8>,
) -> bool {
    &&& addr % layout.align == 0
    &&& layout.size == 0 ==> addr == layout.align && after == before && copy.len() == 0
    &&& layout.size > 0 ==> {
        &&& addr == placement(before.top(), layout)
        &&& after.top() == addr + layout.size
        &&& !before@.contains_key(addr)
        &&& after@ == before@.insert(addr, (layout, copy))
    }
}

} // verus!
