use vstd::prelude::*;

verus! {

/// Size and alignment of a value, in bytes.
#[derive(Clone, Copy, PartialEq, Eq, Structural, Debug)]
pub struct Layout {
    pub size: usize,
    pub align: usize,
}

impl Layout {
    /// A layout can be allocated with: a nonzero alignment.
    pub open spec fn valid(self) -> bool {
        self.align > 0
    }

    pub fn new(size: usize, align: usize) -> (r: Option<Layout>)
        ensures
            align > 0 ==> r == Some(Layout { size, align }),
            align == 0 ==> r is None,
    {
        if align == 0 {
            None
        } else {
            Some(Layout { size, align })
        }
    }
}

} // verus!
