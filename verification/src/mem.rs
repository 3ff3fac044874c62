//! In-memory streams: a source that delivers bytes out of a vector, a sink
//! impl that appends into a vector, and a stream that always fails.

use vstd::math::min;
use vstd::prelude::*;

use crate::stream::ByteSink;
use crate::stream::ByteSource;
use crate::stream::StreamError;

verus! {

/// A byte source that delivers the bytes of a vector, front to back.
pub struct MemReader {
    data: Vec<u8>,
    pos: usize,
}

impl MemReader {
    /// Creates a source that will deliver exactly the bytes of `data`, in
    /// order.
    pub fn new(data: Vec<u8>) -> (r: MemReader)
        ensures
            r.inv(),
            r.remaining() == data@,
    {
        MemReader { data, pos: 0 }
    }
}

impl ByteSource for MemReader {
    /// The next byte to deliver lies inside the vector, or just past it.
    closed spec fn inv(&self) -> bool {
        self.pos <= self.data@.len()
    }

    /// The bytes not yet delivered.
    closed spec fn remaining(&self) -> Seq<u8> {
        self.data@.skip(self.pos as int)
    }

    /// A vector-backed source asks nothing of a read.
    open spec fn read_ready(&self, buf_len: nat) -> bool {
        true
    }

    /// Memory cannot break: a vector-backed source is reliable.
    open spec fn reliable(&self) -> bool {
        true
    }

    /// Memory cannot break.
    open spec fn broken(&self) -> bool {
        false
    }

    /// Delivers as many of the next bytes as the buffer can hold; zero
    /// once the vector is exhausted. Never fails.
    fn read(&mut self, buf: &mut Vec<u8>) -> (r: Result<usize, StreamError>)
        ensures
            r matches Ok(n) && n == min(
                old(buf)@.len() as int,
                old(self).remaining().len() as int,
            ),
    {
        let pos: usize = self.pos;
        let avail: usize = self.data.len() - pos;
        let n: usize = if buf.len() < avail {
            buf.len()
        } else {
            avail
        };
        let mut i: usize = 0;
        while i < n
            invariant
                i <= n,
                self == old(self),
                pos == self.pos,
                pos + n <= self.data@.len(),
                pos + n <= usize::MAX,
                n <= buf@.len(),
                buf@.len() == old(buf)@.len(),
                forall|j: int| 0 <= j < i ==> buf@[j] == self.data@[pos + j],
                forall|j: int| i <= j < buf@.len() ==> buf@[j] == old(buf)@[j],
            decreases n - i,
        {
            let b: u8 = self.data[pos + i];
            buf[i] = b;
            i = i + 1;
        }
        self.pos = pos + n;
        Ok(n)
    }
}

/// A vector is a byte sink: writing appends to it and always succeeds in
/// full, and there is nothing to flush.
impl ByteSink for Vec<u8> {
    open spec fn inv(&self) -> bool {
        true
    }

    /// Everything written so far: the vector's contents.
    open spec fn received(&self) -> Seq<u8> {
        self@
    }

    /// A vector asks nothing of a write.
    open spec fn write_ready(&self, buf_len: nat) -> bool {
        true
    }

    /// Memory cannot break: a vector sink is reliable.
    open spec fn reliable(&self) -> bool {
        true
    }

    /// Memory cannot break.
    open spec fn broken(&self) -> bool {
        false
    }

    /// Appends the whole buffer and reports its full length.
    fn write(&mut self, buf: &Vec<u8>) -> (r: Result<usize, StreamError>)
        ensures
            r matches Ok(n) && n == buf@.len(),
            final(self)@ == old(self)@ + buf@,
    {
        let n: usize = buf.len();
        let mut i: usize = 0;
        while i < n
            invariant
                i <= n,
                n == buf@.len(),
                self@ == old(self)@ + buf@.take(i as int),
            decreases n - i,
        {
            let b: u8 = buf[i];
            self.push(b);
            i = i + 1;
        }
        Ok(n)
    }

    /// Nothing is buffered, so there is nothing to do.
    fn flush(&mut self) -> (r: Result<(), StreamError>)
        ensures
            r is Ok,
    {
        Ok(())
    }
}

/// A stream that is broken: every read, write and flush against it fails,
/// and it neither delivers nor receives a byte.
pub struct FailingStream;

impl ByteSource for FailingStream {
    open spec fn inv(&self) -> bool {
        true
    }

    open spec fn remaining(&self) -> Seq<u8> {
        Seq::empty()
    }

    open spec fn read_ready(&self, buf_len: nat) -> bool {
        true
    }

    /// Broken by definition: never sure to deliver.
    open spec fn reliable(&self) -> bool {
        false
    }

    /// Broken by definition.
    open spec fn broken(&self) -> bool {
        true
    }

    /// Always fails; the buffer is left untouched.
    fn read(&mut self, buf: &mut Vec<u8>) -> (r: Result<usize, StreamError>)
        ensures
            r is Err,
    {
        Err(StreamError)
    }
}

impl ByteSink for FailingStream {
    open spec fn inv(&self) -> bool {
        true
    }

    open spec fn received(&self) -> Seq<u8> {
        Seq::empty()
    }

    open spec fn write_ready(&self, buf_len: nat) -> bool {
        true
    }

    /// Broken by definition: never sure to accept.
    open spec fn reliable(&self) -> bool {
        false
    }

    /// Broken by definition.
    open spec fn broken(&self) -> bool {
        true
    }

    /// Always fails; nothing is received.
    fn write(&mut self, buf: &Vec<u8>) -> (r: Result<usize, StreamError>)
        ensures
            r is Err,
    {
        Err(StreamError)
    }

    /// Always fails.
    fn flush(&mut self) -> (r: Result<(), StreamError>)
        ensures
            r is Err,
    {
        Err(StreamError)
    }
}

} // verus!
