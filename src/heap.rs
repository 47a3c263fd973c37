use std::collections::HashMap;
use vstd::prelude::*;
use vstd::std_specs::hash::group_hash_axioms;

use crate::layout::Layout;

verus! {

broadcast use group_hash_axioms;

/// A live block of raw storage: the layout it was allocated with, and its bytes.
pub struct Block {
    pub layout: Layout,
    pub bytes: Vec<u8>,
}

/// An allocator of raw storage blocks, addressed by `usize`.
///
/// Blocks of nonzero size are placed at fresh, suitably aligned addresses
/// above every live block. A request of size zero touches no storage: it is
/// answered with the dangling address `align`, through which nothing is ever
/// read or written.
pub struct Heap {
    blocks: HashMap<usize, Block>,
    next: usize,
    allocs: usize,
    deallocs: usize,
}

/// The address at which a block of `layout` is placed when `next` is the
/// lowest free address.
pub open spec fn placement(next: usize, layout: Layout) -> int
    recommends
        layout.valid(),
{
    let (n, a) = (next as int, layout.align as int);
    n + (a - n % a) % a
}

proof fn lemma_placement_aligned(n: int, a: int)
    requires
        n >= 0,
        a > 0,
    ensures
        (n + (a - n % a) % a) % a == 0,
        n <= n + (a - n % a) % a < n + a,
{
    let r = n % a;
    vstd::arithmetic::div_mod::lemma_fundamental_div_mod(n, a);
    if r == 0 {
        vstd::arithmetic::div_mod::lemma_mod_self_0(a);
    } else {
        vstd::arithmetic::div_mod::lemma_small_mod((a - r) as nat, a as nat);
        let q = n / a;
        assert(n + (a - r) == (q + 1) * a) by (nonlinear_arith)
            requires
                n == a * q + r,
        ;
        vstd::arithmetic::div_mod::lemma_mod_multiples_basic(q + 1, a);
    }
}

impl View for Heap {
    /// The live blocks, by address: layout and current bytes.
    type V = Map<usize, (Layout, Seq<u8>)>;

    closed spec fn view(&self) -> Map<usize, (Layout, Seq<u8>)> {
        self.blocks@.map_values(|b: Block| (b.layout, b.bytes@))
    }
}

impl Heap {
    pub closed spec fn wf(&self) -> bool {
        &&& self.blocks@.dom().finite()
        &&& forall|a: usize| #[trigger]
            self.blocks@.contains_key(a) ==> {
                let b = self.blocks@[a];
                &&& b.layout.valid()
                &&& b.layout.size > 0
                &&& b.bytes@.len() == b.layout.size
                &&& a % b.layout.align == 0
                &&& a + b.layout.size <= self.next
            }
        &&& self.deallocs <= self.allocs
        &&& self.allocs - self.deallocs == self.blocks@.len()
        &&& self.allocs <= self.next
    }

    /// Number of blocks handed out so far.
    pub closed spec fn allocs_spec(&self) -> nat {
        self.allocs as nat
    }

    /// Number of blocks released so far.
    pub closed spec fn deallocs_spec(&self) -> nat {
        self.deallocs as nat
    }

    /// The lowest address above every live block.
    pub closed spec fn top(&self) -> usize {
        self.next
    }

    /// Whether a block of `layout` still fits in the address space.
    pub open spec fn has_room_spec(&self, layout: Layout) -> bool {
        layout.size == 0 || placement(self.top(), layout) + layout.size <= usize::MAX
    }

    /// Every live block has the size and alignment it was allocated with.
    pub proof fn lemma_block_fits(&self, addr: usize)
        requires
            self.wf(),
            self@.contains_key(addr),
        ensures
            self@[addr].0.valid(),
            self@[addr].0.size > 0,
            self@[addr].1.len() == self@[addr].0.size,
            addr % self@[addr].0.align == 0,
    {
    }

    pub fn new() -> (r: Heap)
        ensures
            r.wf(),
            r@ == Map::<usize, (Layout, Seq<u8>)>::empty(),
            r.top() == 1,
            r.allocs_spec() == 0,
            r.deallocs_spec() == 0,
    {
        let r = Heap { blocks: HashMap::new(), next: 1, allocs: 0, deallocs: 0 };
        assert(r@ =~= Map::<usize, (Layout, Seq<u8>)>::empty());
        r
    }

    pub fn allocations(&self) -> (r: usize)
        ensures
            r == self.allocs_spec(),
    {
        self.allocs
    }

    pub fn deallocations(&self) -> (r: usize)
        ensures
            r == self.deallocs_spec(),
    {
        self.deallocs
    }

    /// Number of live blocks.
    pub fn live_blocks(&self) -> (r: usize)
        requires
            self.wf(),
        ensures
            r == self@.len(),
    {
        assert(self@.dom() =~= self.blocks@.dom());
        self.blocks.len()
    }

    pub fn is_live(&self, addr: usize) -> (r: bool)
        requires
            self.wf(),
        ensures
            r == self@.contains_key(addr),
    {
        self.blocks.contains_key(&addr)
    }

    /// Allocates a block of exactly `layout`. Its bytes are unspecified.
    /// A zero-sized request allocates nothing and yields the dangling
    /// address `layout.align`.
    pub fn allocate(&mut self, layout: Layout) -> (r: usize)
        requires
            old(self).wf(),
            layout.valid(),
            old(self).has_room_spec(layout),
        ensures
            final(self).wf(),
            r % layout.align == 0,
            layout.size == 0 ==> r == layout.align && *final(self) == *old(self),
            layout.size > 0 ==> {
                &&& r == placement(old(self).top(), layout)
                &&& final(self).top() == r + layout.size
                &&& !old(self)@.contains_key(r)
                &&& final(self)@ == old(self)@.insert(r, (layout, final(self)@[r].1))
                &&& final(self)@[r].1.len() == layout.size
                &&& final(self).allocs_spec() == old(self).allocs_spec() + 1
                &&& final(self).deallocs_spec() == old(self).deallocs_spec()
            },
    {
        if layout.size == 0 {
            proof {
                vstd::arithmetic::div_mod::lemma_mod_self_0(layout.align as int);
            }
            return layout.align;
        }
        proof {
            lemma_placement_aligned(self.next as int, layout.align as int);
        }
        let addr = self.next + (layout.align - self.next % layout.align) % layout.align;
        let mut bytes: Vec<u8> = Vec::new();
        while bytes.len() < layout.size
            invariant
                bytes@.len() <= layout.size,
            decreases layout.size - bytes@.len(),
        {
            bytes.push(0u8);
        }
        assert(!self.blocks@.contains_key(addr));
        let ghost before = self.blocks@;
        self.blocks.insert(addr, Block { layout, bytes });
        self.next = addr + layout.size;
        self.allocs = self.allocs + 1;
        proof {
            assert(self.blocks@.dom() == before.dom().insert(addr));
            assert(self@ =~= old(self)@.insert(addr, (layout, self@[addr].1)));
        }
        addr
    }

    /// Releases the live block at `addr`, which must have been allocated
    /// with exactly `layout`.
    pub fn deallocate(&mut self, addr: usize, layout: Layout)
        requires
            old(self).wf(),
            old(self)@.contains_key(addr),
            old(self)@[addr].0 == layout,
        ensures
            final(self).wf(),
            final(self)@ == old(self)@.remove(addr),
            final(self).top() == old(self).top(),
            final(self).allocs_spec() == old(self).allocs_spec(),
            final(self).deallocs_spec() == old(self).deallocs_spec() + 1,
    {
        let ghost before = self.blocks@;
        let _ = self.blocks.remove(&addr);
        self.deallocs = self.deallocs + 1;
        proof {
            assert(self.blocks@.dom() == before.dom().remove(addr));
            assert(self@ =~= old(self)@.remove(addr));
        }
    }

    /// The bytes of the live block at `addr`.
    pub fn read(&self, addr: usize) -> (r: Vec<u8>)
        requires
            self.wf(),
            self@.contains_key(addr),
        ensures
            r@ == self@[addr].1,
            r@.len() == self@[addr].0.size,
    {
        let b = self.blocks.get(&addr).unwrap();
        let mut out: Vec<u8> = Vec::new();
        let mut i: usize = 0;
        while i < b.bytes.len()
            invariant
                i <= b.bytes@.len(),
                out@ == b.bytes@.subrange(0, i as int),
            decreases b.bytes@.len() - i,
        {
            out.push(b.bytes[i]);
            i = i + 1;
        }
        assert(out@ =~= b.bytes@);
        out
    }

    /// Overwrites the whole live block at `addr`; no other block changes.
    pub fn write(&mut self, addr: usize, bytes: Vec<u8>)
        requires
            old(self).wf(),
            old(self)@.contains_key(addr),
            bytes@.len() == old(self)@[addr].0.size,
        ensures
            final(self).wf(),
            final(self)@ == old(self)@.insert(addr, (old(self)@[addr].0, bytes@)),
            final(self).top() == old(self).top(),
            final(self).allocs_spec() == old(self).allocs_spec(),
            final(self).deallocs_spec() == old(self).deallocs_spec(),
    {
        let layout = self.blocks.get(&addr).unwrap().layout;
        let ghost before = self.blocks@;
        let ghost bv = bytes@;
        self.blocks.insert(addr, Block { layout, bytes });
        proof {
            assert(self.blocks@.dom() =~= before.dom());
            assert(self@ =~= old(self)@.insert(addr, (layout, bv)));
        }
    }

    pub fn has_room(&self, layout: Layout) -> (r: bool)
        requires
            layout.valid(),
        ensures
            r == self.has_room_spec(layout),
    {
        if layout.size == 0 {
            return true;
        }
        let pad = (layout.align - self.next % layout.align) % layout.align;
        if self.next > usize::MAX - pad {
            return false;
        }
        self.next + pad <= usize::MAX - layout.size
    }
}

} // verus!
