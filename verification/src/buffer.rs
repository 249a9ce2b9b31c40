//! The bounded buffer that holds what the last read produced.

use vstd::prelude::*;
use vstd::slice::slice_subrange;

verus! {

/// Number of bytes that one read can deliver at most.
pub const CAPACITY: usize = 32;

/// What a read into the buffer keeps of `source`: all of it when it fits,
/// else its first `CAPACITY` bytes.
pub open spec fn clipped(source: Seq<u8>) -> Seq<u8> {
    if source.len() <= CAPACITY {
        source
    } else {
        source.take(CAPACITY as int)
    }
}

/// A fixed-capacity byte buffer with a valid length.
///
/// The buffer is reused from one read to the next. Only the bytes below the
/// valid length are its contents; what a former read left above it is never
/// seen again.
pub struct ReceiveBuffer {
    bytes: [u8; CAPACITY],
    len: usize,
}

impl View for ReceiveBuffer {
    type V = Seq<u8>;

    /// The bytes that the last read produced.
    closed spec fn view(&self) -> Seq<u8> {
        self.bytes@.take(self.len as int)
    }
}

impl ReceiveBuffer {
    #[verifier::type_invariant]
    spec fn within_capacity(self) -> bool {
        self.len <= CAPACITY
    }

    /// An empty buffer.
    pub fn new() -> (buffer: ReceiveBuffer)
        ensures
            buffer@ == Seq::<u8>::empty(),
    {
        ReceiveBuffer { bytes: [0u8; CAPACITY], len: 0 }
    }

    /// Number of valid bytes.
    pub fn len(&self) -> (n: usize)
        ensures
            n == self@.len(),
            n <= CAPACITY,
    {
        proof {
            use_type_invariant(self);
        }
        self.len
    }

    /// The valid byte at `index`.
    pub fn get(&self, index: usize) -> (byte: u8)
        requires
            index < self@.len(),
        ensures
            byte == self@[index as int],
    {
        proof {
            use_type_invariant(self);
        }
        self.bytes[index]
    }

    /// Drops the contents.
    pub fn clear(&mut self)
        ensures
            final(self)@ == Seq::<u8>::empty(),
    {
        self.len = 0;
    }

    /// Overwrites the contents with what one read of `source` delivers: its
    /// first `CAPACITY` bytes at most. Returns the new valid length.
    pub fn fill(&mut self, source: &[u8]) -> (n: usize)
        ensures
            final(self)@ == clipped(source@),
            n == final(self)@.len(),
    {
        let n: usize = if source.len() <= CAPACITY {
            source.len()
        } else {
            CAPACITY
        };
        self.len = 0;
        let mut i: usize = 0;
        while i < n
            invariant
                i <= n <= CAPACITY,
                n <= source@.len(),
                self.len == 0,
                self.bytes@.take(i as int) == source@.take(i as int),
            decreases n - i,
        {
            self.bytes[i] = source[i];
            i += 1;
        }
        self.len = n;
        n
    }

    /// The valid bytes.
    pub fn as_slice(&self) -> (bytes: &[u8])
        ensures
            bytes@ == self@,
    {
        proof {
            use_type_invariant(self);
        }
        slice_subrange(self.bytes.as_slice(), 0, self.len)
    }
}

} // verus!
