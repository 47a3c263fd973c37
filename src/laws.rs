use vstd::prelude::*;

use crate::erased::{CloneError, CloneIntoBox};
use crate::handle::ErasedBox;
use crate::heap::Heap;

verus! {

/// A successful clone has the same dynamic type as the value it was made
/// from: both handles carry the same descriptor.
pub proof fn lemma_clone_same_type<'a, D: CloneIntoBox + ?Sized>(
    orig: ErasedBox<'a, D>,
    before: Heap,
    after: Heap,
    r: Result<ErasedBox<'a, D>, CloneError>,
)
    requires
        orig.wf(before),
        orig.clone_outcome(before, after, r),
        r is Ok,
    ensures
        r->Ok_0.descriptor() == orig.descriptor(),
        r->Ok_0.layout_spec() == orig.layout_spec(),
{
}

/// For a type whose duplication is a full structural copy, a clone holds
/// exactly the source value's bytes, and the source is untouched.
pub proof fn lemma_clone_equivalent<'a, D: CloneIntoBox + ?Sized>(
    orig: ErasedBox<'a, D>,
    before: Heap,
    after: Heap,
    r: Result<ErasedBox<'a, D>, CloneError>,
)
    requires
        orig.wf(before),
        orig.clone_outcome(before, after, r),
        forall|s: Seq<u8>| #[trigger] orig.descriptor().duplicate_spec(s) == Ok::<Seq<u8>, CloneError>(s),
    ensures
        r is Ok,
        r->Ok_0.value(after) == orig.value(before),
        orig.value(after) == orig.value(before),
{
    assert(orig.descriptor().duplicate_spec(orig.value(before)) == Ok::<Seq<u8>, CloneError>(orig.value(before)));
}

/// Writing through a clone leaves the source value as it was, and writing
/// through the source leaves the clone as it was.
pub proof fn lemma_clone_independent<'a, D: CloneIntoBox + ?Sized>(
    orig: ErasedBox<'a, D>,
    before: Heap,
    after: Heap,
    r: Result<ErasedBox<'a, D>, CloneError>,
    later: Heap,
    bytes: Seq<u8>,
)
    requires
        orig.wf(before),
        orig.clone_outcome(before, after, r),
        r is Ok,
    ensures
        r->Ok_0.written(after, later, bytes) ==> orig.value(later) == orig.value(after),
        orig.written(after, later, bytes) ==> r->Ok_0.value(later) == r->Ok_0.value(after),
{
}

/// A failed clone is reported with the routine's own error, and leaves the
/// heap's live blocks as they were: whatever was allocated was released.
pub proof fn lemma_failed_clone_leaks_nothing<'a, D: CloneIntoBox + ?Sized>(
    orig: ErasedBox<'a, D>,
    before: Heap,
    after: Heap,
    r: Result<ErasedBox<'a, D>, CloneError>,
)
    requires
        orig.wf(before),
        orig.clone_outcome(before, after, r),
        orig.descriptor().duplicate_spec(orig.value(before)) is Err,
    ensures
        r is Err,
        r == Err::<ErasedBox<'a, D>, CloneError>(
            orig.descriptor().duplicate_spec(orig.value(before))->Err_0,
        ),
        after@ == before@,
        after@.len() == before@.len(),
        after.allocs_spec() - after.deallocs_spec() == before.allocs_spec() - before.deallocs_spec(),
{
}

/// Cloning a zero-sized value whose routine succeeds leaves the heap exactly
/// as it was: no block is allocated, read or written, and the clone sits at
/// the dangling address of its alignment.
pub proof fn lemma_zero_sized_clone<'a, D: CloneIntoBox + ?Sized>(
    orig: ErasedBox<'a, D>,
    before: Heap,
    after: Heap,
    r: Result<ErasedBox<'a, D>, CloneError>,
)
    requires
        orig.wf(before),
        orig.clone_outcome(before, after, r),
        orig.layout_spec().size == 0,
        orig.descriptor().duplicate_spec(orig.value(before)) is Ok,
    ensures
        r is Ok,
        after == before,
        r->Ok_0.addr_spec() == orig.layout_spec().align,
        r->Ok_0.value(after).len() == 0,
{
}

} // verus!
