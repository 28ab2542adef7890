//! The owned output container handed back by the one-shot calls.
use vstd::prelude::*;

verus! {

/// Capacity reserved by [`RustyBuffer::new`] when no hint is given.
pub const DEFAULT_BUFFER_CAPACITY: usize = 64;

/// An owned, growable byte buffer. Its view is exactly the bytes a caller
/// may read: spare capacity is never part of it.
pub struct RustyBuffer {
    inner: Vec<u8>,
}

impl View for RustyBuffer {
    type V = Seq<u8>;

    closed spec fn view(&self) -> Seq<u8> {
        self.inner@
    }
}

impl RustyBuffer {
    /// An empty buffer with room reserved for `capacity_hint` bytes.
    pub fn new(capacity_hint: Option<usize>) -> (b: RustyBuffer)
        ensures
            b@ == Seq::<u8>::empty(),
    {
        let cap = match capacity_hint {
            Some(n) => n,
            None => DEFAULT_BUFFER_CAPACITY,
        };
        RustyBuffer { inner: Vec::with_capacity(cap) }
    }

    /// Takes ownership of `v` as the buffer's contents.
    pub fn from_vec(v: Vec<u8>) -> (b: RustyBuffer)
        ensures
            b@ == v@,
    {
        RustyBuffer { inner: v }
    }

    /// The number of bytes held.
    pub fn len(&self) -> (n: usize)
        ensures
            n == self@.len(),
    {
        self.inner.len()
    }

    /// Whether the buffer holds no bytes.
    pub fn is_empty(&self) -> (r: bool)
        ensures
            r == (self@.len() == 0),
    {
        self.inner.len() == 0
    }

    /// Appends `bytes` after the current contents.
    pub fn append(&mut self, bytes: &[u8])
        ensures
            final(self)@ == old(self)@ + bytes@,
    {
        let ghost start = self@;
        let mut i: usize = 0;
        while i < bytes.len()
            invariant
                i <= bytes@.len(),
                self@ == start + bytes@.subrange(0, i as int),
            decreases bytes@.len() - i,
        {
            self.inner.push(bytes[i]);
            i = i + 1;
            assert(bytes@.subrange(0, i as int) == bytes@.subrange(0, i - 1) + seq![bytes@[i - 1]]);
        }
        assert(bytes@.subrange(0, i as int) == bytes@);
    }

    /// Shortens the logical length to `new_len`, keeping the allocation.
    pub fn truncate(&mut self, new_len: usize)
        requires
            new_len <= old(self)@.len(),
        ensures
            final(self)@ == old(self)@.subrange(0, new_len as int),
    {
        self.inner.truncate(new_len);
    }

    /// The contents, borrowed.
    pub fn as_slice(&self) -> (s: &[u8])
        ensures
            s@ == self@,
    {
        self.inner.as_slice()
    }

    /// Consumes the buffer and returns exactly its contents.
    pub fn into_vec(self) -> (v: Vec<u8>)
        ensures
            v@ == self@,
    {
        self.inner
    }
}

/// A buffer that can be read as one contiguous run of bytes, borrowed for
/// the length of a call: the caller keeps ownership.
pub trait ByteSource {
    /// The bytes the buffer holds.
    spec fn source_bytes(&self) -> Seq<u8>;

    /// The bytes, borrowed.
    fn as_bytes(&self) -> (s: &[u8])
        ensures
            s@ == self.source_bytes(),
    ;
}

/// A buffer that can be written in place, within the room it declares:
/// exactly its current bytes, never more.
pub trait ByteSink {
    /// The bytes the buffer holds, which are all it lets be written.
    spec fn sink_bytes(&self) -> Seq<u8>;

    /// The bytes, borrowed for writing; what is written through the slice
    /// becomes the buffer's contents.
    fn as_bytes_mut(&mut self) -> (s: &mut [u8])
        ensures
            s@ == old(self).sink_bytes(),
            final(s)@ == final(self).sink_bytes(),
    ;
}

impl ByteSource for [u8] {
    open spec fn source_bytes(&self) -> Seq<u8> {
        self@
    }

    fn as_bytes(&self) -> (s: &[u8]) {
        self
    }
}

impl ByteSink for [u8] {
    open spec fn sink_bytes(&self) -> Seq<u8> {
        self@
    }

    fn as_bytes_mut(&mut self) -> (s: &mut [u8]) {
        self
    }
}

impl<const N: usize> ByteSource for [u8; N] {
    open spec fn source_bytes(&self) -> Seq<u8> {
        self@
    }

    fn as_bytes(&self) -> (s: &[u8]) {
        self.as_slice()
    }
}

impl ByteSource for Vec<u8> {
    open spec fn source_bytes(&self) -> Seq<u8> {
        self@
    }

    fn as_bytes(&self) -> (s: &[u8]) {
        self.as_slice()
    }
}

impl ByteSink for Vec<u8> {
    open spec fn sink_bytes(&self) -> Seq<u8> {
        self@
    }

    fn as_bytes_mut(&mut self) -> (s: &mut [u8]) {
        self.as_mut_slice()
    }
}

impl ByteSource for RustyBuffer {
    open spec fn source_bytes(&self) -> Seq<u8> {
        self@
    }

    fn as_bytes(&self) -> (s: &[u8]) {
        self.inner.as_slice()
    }
}

impl ByteSink for RustyBuffer {
    open spec fn sink_bytes(&self) -> Seq<u8> {
        self@
    }

    fn as_bytes_mut(&mut self) -> (s: &mut [u8]) {
        self.inner.as_mut_slice()
    }
}

} // verus!
