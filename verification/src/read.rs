//! A decorator that counts the bytes read through it.

use vstd::prelude::*;

use crate::counter::Counter;
use crate::stream::ByteSource;
use crate::stream::StreamError;

verus! {

/// Wraps any implementation of `ByteSource` and counts the bytes read.
///
/// A `ReadCounter` owns the source it wraps for its whole lifetime, so no
/// other code can read from that source while the counter is in use;
/// `into_inner` gives the source back. Since `ReadCounter` also implements
/// `ByteSource` you can use it in place of the source it wraps. Reads are
/// delegated unchanged: the bytes a caller sees are exactly the bytes the
/// source delivered, and only a successful read raises the count, by
/// exactly the number of bytes the source reported.
pub struct ReadCounter<T: ByteSource> {
    source: T,
    count: usize,
}

impl<T: ByteSource> ReadCounter<T> {
    /// The wrapped source, as a specification-level value.
    pub closed spec fn inner(&self) -> T {
        self.source
    }

    /// Creates a `ReadCounter` by wrapping an implementation of
    /// `ByteSource`. The count starts at zero and the source is taken as
    /// it is.
    pub fn from(source: T) -> (r: ReadCounter<T>)
        ensures
            r.spec_count() == 0,
            r.inner() == source,
    {
        ReadCounter { source, count: 0 }
    }

    /// Returns the wrapped source, unchanged from its latest state.
    pub fn into_inner(self) -> (r: T)
        ensures
            r == self.inner(),
    {
        self.source
    }
}

impl<T: ByteSource> ByteSource for ReadCounter<T> {
    /// Well-formed whenever the wrapped source is.
    open spec fn inv(&self) -> bool {
        self.inner().inv()
    }

    /// The counter delivers exactly what the wrapped source delivers.
    open spec fn remaining(&self) -> Seq<u8> {
        self.inner().remaining()
    }

    /// A read needs headroom in the count — overflowing it is a
    /// programming error, not a stream failure — and whatever the wrapped
    /// source asks.
    open spec fn read_ready(&self, buf_len: nat) -> bool {
        self.spec_count() + buf_len <= usize::MAX && self.inner().read_ready(buf_len)
    }

    /// As sure to deliver as the wrapped source is.
    open spec fn reliable(&self) -> bool {
        self.inner().reliable()
    }

    /// As sure to fail as the wrapped source is.
    open spec fn broken(&self) -> bool {
        self.inner().broken()
    }

    /// Proxies to the source's `read`, counting the bytes read along the
    /// way: a successful read raises the count by exactly the number of
    /// bytes it reports, while a failure of the source is returned
    /// unchanged and leaves the count, the buffer and the source's
    /// remaining bytes as they were.
    fn read(&mut self, buf: &mut Vec<u8>) -> (r: Result<usize, StreamError>)
        ensures
            match r {
                Ok(n) => final(self).spec_count() == old(self).spec_count() + n,
                Err(_) => final(self).spec_count() == old(self).spec_count(),
            },
    {
        match self.source.read(buf) {
            Ok(size) => {
                self.count = self.count + size;
                Ok(size)
            },
            Err(e) => Err(e),
        }
    }
}

impl<T: ByteSource> Counter for ReadCounter<T> {
    /// The number of bytes read so far.
    closed spec fn spec_count(&self) -> nat {
        self.count as nat
    }

    /// Returns the number of bytes read so far.
    fn count(&self) -> (c: usize) {
        self.count
    }
}

} // verus!
