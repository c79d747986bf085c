//! A fixed-capacity response buffer, scoped to one fetch cycle.
//!
//! The transport writes the response body into it; a body that would exceed
//! the capacity is refused whole, leaving the contents untouched — never a
//! crash, never silent truncation.

use vstd::prelude::*;

verus! {

/// The buffer's capacity would be exceeded; nothing was written.
#[derive(Clone, Copy, PartialEq, Eq, Structural, Debug)]
pub struct BufferOverflow;

/// A byte buffer that never holds more than the capacity it was built with.
pub struct ResponseBuffer {
    data: Vec<u8>,
    cap: usize,
}

impl ResponseBuffer {
    /// The bytes received so far.
    pub closed spec fn contents(&self) -> Seq<u8> {
        self.data@
    }

    /// The fixed capacity chosen at construction.
    pub closed spec fn spec_capacity(&self) -> usize {
        self.cap
    }

    /// The contents never exceed the capacity.
    pub open spec fn wf(&self) -> bool {
        self.contents().len() <= self.spec_capacity()
    }

    /// An empty buffer of capacity `cap`.
    pub fn new(cap: usize) -> (r: ResponseBuffer)
        ensures
            r.wf(),
            r.contents() == Seq::<u8>::empty(),
            r.spec_capacity() == cap,
    {
        ResponseBuffer { data: Vec::new(), cap }
    }

    /// How many bytes the buffer holds.
    pub fn len(&self) -> (n: usize)
        ensures
            n == self.contents().len(),
    {
        self.data.len()
    }

    /// The capacity, for the shell's reporting.
    pub fn capacity(&self) -> (n: usize)
        ensures
            n == self.spec_capacity(),
    {
        self.cap
    }

    /// Appends `chunk` whole, or refuses it whole: the write succeeds
    /// exactly when the bytes held so far plus `chunk` fit the capacity, and
    /// a refused write leaves the contents unchanged.
    pub fn receive(&mut self, chunk: &[u8]) -> (r: Result<(), BufferOverflow>)
        requires
            old(self).wf(),
        ensures
            final(self).wf(),
            final(self).spec_capacity() == old(self).spec_capacity(),
            r is Ok <==> old(self).contents().len() + chunk@.len()
                <= old(self).spec_capacity(),
            r is Ok ==> final(self).contents() == old(self).contents() + chunk@,
            r is Err ==> final(self).contents() == old(self).contents(),
    {
        if chunk.len() <= self.cap - self.data.len() {
            let mut i: usize = 0;
            while i < chunk.len()
                invariant
                    i <= chunk@.len(),
                    self.cap == old(self).cap,
                    self.data@ == old(self).data@ + chunk@.subrange(0, i as int),
                    self.data@.len() + chunk@.len() - i <= self.cap,
                decreases chunk@.len() - i,
            {
                self.data.push(chunk[i]);
                proof {
                    assert(chunk@.subrange(0, i as int).push(chunk@[i as int]) =~= chunk@
                        .subrange(0, i as int + 1));
                }
                i = i + 1;
            }
            proof {
                assert(chunk@.subrange(0, chunk@.len() as int) =~= chunk@);
            }
            Ok(())
        } else {
            Err(BufferOverflow)
        }
    }

    /// Hands the received bytes out, consuming the buffer: the cycle is
    /// over and the space is released.
    pub fn into_bytes(self) -> (r: Vec<u8>)
        ensures
            r@ == self.contents(),
    {
        self.data
    }
}

} // verus!
