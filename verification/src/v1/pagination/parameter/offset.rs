//! The position of the first result of a page.

use vstd::prelude::*;
use super::constrained::ConstrainedU64;

verus! {

/// The number of results to skip before a page starts. Every `u64` is
/// accepted; what the service allows depends on the page's limit too.
#[derive(Clone, Copy, Debug, PartialEq, Eq)]
pub struct Offset {
    offset: ConstrainedU64<0, 18446744073709551615, 0>,
}

impl Offset {
    /// The greatest offset.
    pub const MAX: u64 = 18446744073709551615;

    /// The least offset.
    pub const MIN: u64 = 0;

    /// The offset of `default()`: the start of the list.
    pub const DEF: u64 = 0;

    /// The offset as an integer.
    pub closed spec fn value(self) -> u64 {
        self.offset.value()
    }

    /// An offset is its integer and nothing else.
    pub proof fn lemma_same(self, other: Offset)
        requires
            self.value() == other.value(),
        ensures
            self == other,
    {
        self.offset.lemma_same(other.offset);
    }

    /// An offset of `offset` results.
    pub fn new(offset: u64) -> (res: Offset)
        ensures
            res.value() == offset,
    {
        Offset { offset: ConstrainedU64::new_infallible(offset) }
    }

    /// Moves the offset to `offset`.
    pub fn set(&mut self, offset: u64)
        ensures
            final(self).value() == offset,
    {
        self.offset.set_infallible(offset)
    }

    /// The offset as an integer.
    pub fn get(&self) -> (offset: u64)
        ensures
            offset == self.value(),
    {
        self.offset.get()
    }
}

impl Default for Offset {
    fn default() -> (res: Offset)
        ensures
            res.value() == Offset::DEF,
    {
        Offset { offset: ConstrainedU64::default() }
    }
}

/// The bounds of an offset span all of `u64`, and its default lies within
/// them.
pub proof fn offset_bounds_hold()
    ensures
        Offset::MIN == 0,
        Offset::MAX == u64::MAX,
        Offset::MAX >= Offset::MIN,
        Offset::MIN <= Offset::DEF <= Offset::MAX,
{
}

} // verus!
