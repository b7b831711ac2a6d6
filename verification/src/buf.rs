//! Simple reusable buffer helpers intended for payload-heavy paths.

use vstd::prelude::*;

verus! {

/// Wrapper over `Vec<u8>` to make the intent explicit and centralise future
/// pooling logic.
#[derive(Debug)]
pub struct ReusableBuffer {
    inner: Vec<u8>,
}

impl View for ReusableBuffer {
    type V = Seq<u8>;

    closed spec fn view(&self) -> Seq<u8> {
        self.inner@
    }
}

impl ReusableBuffer {
    /// Create a buffer with a pre-allocated capacity.
    pub fn with_capacity(cap: usize) -> (r: Self)
        ensures
            r@ == Seq::<u8>::empty(),
    {
        ReusableBuffer { inner: Vec::with_capacity(cap) }
    }

    /// Reset the buffer so it can be reused without reallocating.
    pub fn clear(&mut self)
        ensures
            final(self)@ == Seq::<u8>::empty(),
    {
        self.inner.clear();
    }

    /// Mutable access to the underlying storage.
    pub fn as_mut(&mut self) -> (r: &mut Vec<u8>)
        ensures
            r@ == old(self)@,
            final(self)@ == final(r)@,
    {
        &mut self.inner
    }

    /// Immutable access to the underlying storage.
    pub fn as_slice(&self) -> (r: &[u8])
        ensures
            r@ == self@,
    {
        self.inner.as_slice()
    }

    /// Append data to the buffer.
    pub fn extend_from_slice(&mut self, data: &[u8])
        ensures
            final(self)@ == old(self)@ + data@,
    {
        self.inner.extend_from_slice(data);
    }
}

impl Default for ReusableBuffer {
    /// An empty buffer.
    fn default() -> (r: Self)
        ensures
            r@ == Seq::<u8>::empty(),
    {
        ReusableBuffer { inner: Vec::new() }
    }
}

} // verus!
