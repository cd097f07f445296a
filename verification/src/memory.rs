//! Streams that live in memory.

use vstd::prelude::*;
use crate::stream::{AsyncByteSink, ByteSink, ByteSource, Readiness};

verus! {

/// The error of a stream that does not fail.
#[derive(Clone, Copy, Debug, PartialEq, Eq, Structural)]
pub struct Unfailing;

/// A sink that keeps every byte written to it, in order.
pub struct MemorySink {
    bytes: Vec<u8>,
}

impl View for MemorySink {
    type V = Seq<u8>;

    /// The bytes written so far.
    closed spec fn view(&self) -> Seq<u8> {
        self.bytes@
    }
}

impl MemorySink {
    /// A sink that holds nothing yet.
    pub fn new() -> (sink: Self)
        ensures
            sink@ == Seq::<u8>::empty(),
    {
        MemorySink { bytes: Vec::new() }
    }

    /// The bytes written so far.
    pub fn contents(&self) -> (bytes: &Vec<u8>)
        ensures
            bytes@ == self@,
    {
        &self.bytes
    }
}

impl ByteSink for MemorySink {
    type Error = Unfailing;

    /// A write appends all of `data` and reports its length.
    open spec fn wrote(
        pre: Self,
        data: Seq<u8>,
        post: Self,
        result: Result<usize, Unfailing>,
    ) -> bool {
        post@ == pre@ + data && result == Ok::<usize, Unfailing>(data.len() as usize)
    }

    /// A flush changes nothing and succeeds.
    open spec fn flushed(pre: Self, post: Self, result: Result<(), Unfailing>) -> bool {
        post@ == pre@ && result is Ok
    }

    fn write(&mut self, data: &[u8]) -> (result: Result<usize, Unfailing>) {
        let mut i: usize = 0;
        while i < data.len()
            invariant
                i <= data.len(),
                self.bytes@ == old(self).bytes@ + data@.take(i as int),
            decreases data.len() - i,
        {
            self.bytes.push(data[i]);
            i += 1;
        }
        assert(data@.take(data.len() as int) =~= data@);
        Ok(data.len())
    }

    fn flush(&mut self) -> (result: Result<(), Unfailing>) {
        Ok(())
    }
}

impl AsyncByteSink for MemorySink {
    /// A shutdown changes nothing and is complete at once.
    open spec fn shut(pre: Self, post: Self, result: Result<Readiness, Unfailing>) -> bool {
        post@ == pre@ && result == Ok::<Readiness, Unfailing>(Readiness::Ready)
    }

    fn shutdown(&mut self) -> (result: Result<Readiness, Unfailing>) {
        Ok(Readiness::Ready)
    }
}

/// A source that gives the bytes it was made with, once, in order.
pub struct MemorySource {
    bytes: Vec<u8>,
    taken: usize,
}

impl View for MemorySource {
    type V = Seq<u8>;

    /// The bytes that are still to be read.
    closed spec fn view(&self) -> Seq<u8> {
        if self.taken <= self.bytes@.len() {
            self.bytes@.skip(self.taken as int)
        } else {
            Seq::empty()
        }
    }
}

impl MemorySource {
    /// A source that will give `bytes`.
    pub fn new(bytes: Vec<u8>) -> (source: Self)
        ensures
            source@ == bytes@,
    {
        MemorySource { bytes, taken: 0 }
    }
}

/// How many bytes a read moves: as many as the buffer holds, or all that is
/// left where that is less.
pub open spec fn read_len(available: nat, capacity: nat) -> nat {
    if capacity <= available { capacity } else { available }
}

impl ByteSource for MemorySource {
    type Error = Unfailing;

    /// A read moves the next bytes to the front of the buffer, leaves the rest
    /// of the buffer as it was, and reports how many it moved.
    open spec fn filled(
        pre: Self,
        before: Seq<u8>,
        post: Self,
        after: Seq<u8>,
        result: Result<usize, Unfailing>,
    ) -> bool {
        let n = read_len(pre@.len(), before.len());
        &&& result == Ok::<usize, Unfailing>(n as usize)
        &&& after == pre@.take(n as int) + before.skip(n as int)
        &&& post@ == pre@.skip(n as int)
    }

    fn read(&mut self, buf: &mut [u8]) -> (result: Result<usize, Unfailing>) {
        if self.taken >= self.bytes.len() {
            assert(buf@ =~= self@.take(0) + buf@.skip(0));
            assert(self@.skip(0) =~= self@);
            return Ok(0);
        }
        let available: usize = self.bytes.len() - self.taken;
        let n: usize = if buf.len() <= available { buf.len() } else { available };
        let start: usize = self.taken;
        let mut i: usize = 0;
        while i < n
            invariant
                i <= n,
                n <= buf@.len(),
                buf@.len() == old(buf)@.len(),
                start + n <= self.bytes.len(),
                self.taken == start,
                self.bytes@ == old(self).bytes@,
                buf@ == old(self)@.take(i as int) + old(buf)@.skip(i as int),
                start == old(self).taken,
            decreases n - i,
        {
            buf[i] = self.bytes[start + i];
            i += 1;
            assert(buf@ =~= old(self)@.take(i as int) + old(buf)@.skip(i as int));
        }
        self.taken = start + n;
        assert(self@ =~= old(self)@.skip(n as int));
        Ok(n)
    }
}

} // verus!
