use vstd::prelude::*;
use smallvec::SmallVec;

verus! {

/// An ordered list of raw driver handles, kept in a `smallvec::SmallVec`:
/// inline for the usual two to four swapchain images, on the heap beyond.
/// Its contents are `handles_of`, which every method below states its effect
/// on.
#[verifier::external_body]
pub struct HandleList {
    items: SmallVec<[u64; 4]>,
}

/// The handles held by a list, in order of insertion.
pub uninterp spec fn handles_of(v: HandleList) -> Seq<u64>;

impl View for HandleList {
    type V = Seq<u64>;

    open spec fn view(&self) -> Seq<u64> {
        handles_of(*self)
    }
}

impl HandleList {
    /// Relies on `SmallVec::new`: the vector starts empty.
    #[verifier::external_body]
    pub(crate) fn new() -> (r: HandleList)
        ensures
            handles_of(r) == Seq::<u64>::empty(),
    {
        HandleList { items: SmallVec::new() }
    }

    /// Relies on `SmallVec::len`: the number of elements stored.
    #[verifier::external_body]
    pub(crate) fn len(&self) -> (r: usize)
        ensures
            r as int == handles_of(*self).len(),
    {
        self.items.len()
    }

    /// Relies on indexing a `SmallVec`, which reads the element at `i`.
    #[verifier::external_body]
    pub(crate) fn get(&self, i: usize) -> (r: u64)
        requires
            i < handles_of(*self).len(),
        ensures
            r == handles_of(*self)[i as int],
    {
        self.items[i]
    }

    /// Relies on `SmallVec::push`: appends one element at the end. Growth
    /// panics only past `isize::MAX` bytes, which the bound on the length keeps
    /// out.
    #[verifier::external_body]
    pub(crate) fn push(&mut self, h: u64)
        requires
            handles_of(*old(self)).len() < 0x0800_0000_0000_0000,
        ensures
            handles_of(*final(self)) == handles_of(*old(self)).push(h),
    {
        self.items.push(h)
    }

    /// Relies on `SmallVec::clear`: removes every element.
    #[verifier::external_body]
    pub(crate) fn clear(&mut self)
        ensures
            handles_of(*final(self)) == Seq::<u64>::empty(),
    {
        self.items.clear()
    }
}

} // verus!
