use vstd::prelude::*;

verus! {

/// Position (0-origin) of a field / column in a record / row.
#[derive(Copy, Clone, Eq, PartialEq, Ord, PartialOrd, Hash, Debug, Structural)]
pub struct RPos(usize);

impl View for RPos {
    type V = usize;

    closed spec fn view(&self) -> usize {
        self.0
    }
}

impl RPos {
    /// The position `pos`.
    pub closed spec fn spec_new(pos: usize) -> RPos {
        RPos(pos)
    }

    /// Constructor.
    pub fn new(pos: usize) -> (r: Self)
        ensures
            r == RPos::spec_new(pos),
            r@ == pos,
    {
        RPos(pos)
    }

    /// The position as `usize`.
    pub fn to_usize(&self) -> (r: usize)
        ensures
            r == self@,
    {
        self.0
    }
}

} // verus!
