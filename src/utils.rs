use vstd::prelude::*;

verus! {

/// Holds a shared borrow of a buffer so that nothing can write to it while
/// the holder lives, for instance a memory map that firmware still owns.
#[derive(Debug)]
pub struct UnuseableBuffer<'a, T> {
    buffer: &'a [T],
}

impl<'a, T> UnuseableBuffer<'a, T> {
    pub fn new(buffer: &'a [T]) -> (r: UnuseableBuffer<'a, T>)
        ensures
            r.buffer() == buffer@,
    {
        UnuseableBuffer { buffer }
    }

    /// The items of the buffer held.
    pub closed spec fn buffer(&self) -> Seq<T> {
        self.buffer@
    }

    /// The number of items of the buffer held.
    pub fn len(&self) -> (r: usize)
        ensures
            r == self.buffer().len(),
    {
        self.buffer.len()
    }
}

} // verus!
