//! A decorator that counts the bytes written through it.

use vstd::prelude::*;

use crate::counter::Counter;
use crate::stream::ByteSink;
use crate::stream::StreamError;

verus! {

/// Wraps any implementation of `ByteSink` and counts the bytes written.
///
/// A `WriteCounter` owns the sink it wraps for its whole lifetime, so no
/// other code can write to that sink while the counter is in use;
/// `into_inner` gives the sink back. Since `WriteCounter` also implements
/// `ByteSink` you can use it in place of the sink it wraps. Writes are
/// delegated unchanged: the bytes the sink receives are exactly the bytes
/// the caller handed over, and only a successful write raises the count,
/// by exactly the number of bytes the sink reported.
pub struct WriteCounter<T: ByteSink> {
    sink: T,
    count: usize,
}

impl<T: ByteSink> WriteCounter<T> {
    /// The wrapped sink, as a specification-level value.
    pub closed spec fn inner(&self) -> T {
        self.sink
    }

    /// Creates a `WriteCounter` by wrapping an implementation of
    /// `ByteSink`. The count starts at zero and the sink is taken as it
    /// is.
    pub fn from(sink: T) -> (r: WriteCounter<T>)
        ensures
            r.spec_count() == 0,
            r.inner() == sink,
    {
        WriteCounter { sink, count: 0 }
    }

    /// Returns the wrapped sink, unchanged from its latest state.
    pub fn into_inner(self) -> (r: T)
        ensures
            r == self.inner(),
    {
        self.sink
    }
}

impl<T: ByteSink> ByteSink for WriteCounter<T> {
    /// Well-formed whenever the wrapped sink is.
    open spec fn inv(&self) -> bool {
        self.inner().inv()
    }

    /// The counter passes on exactly what the wrapped sink receives.
    open spec fn received(&self) -> Seq<u8> {
        self.inner().received()
    }

    /// A write needs headroom in the count — overflowing it is a
    /// programming error, not a stream failure — and whatever the wrapped
    /// sink asks.
    open spec fn write_ready(&self, buf_len: nat) -> bool {
        self.spec_count() + buf_len <= usize::MAX && self.inner().write_ready(buf_len)
    }

    /// As sure to accept as the wrapped sink is.
    open spec fn reliable(&self) -> bool {
        self.inner().reliable()
    }

    /// As sure to fail as the wrapped sink is.
    open spec fn broken(&self) -> bool {
        self.inner().broken()
    }

    /// Proxies to the sink's `write`, counting the bytes written along
    /// the way: a successful write raises the count by exactly the number
    /// of bytes it reports, while a failure of the sink is returned
    /// unchanged and leaves the count and the sink's received bytes as
    /// they were.
    fn write(&mut self, buf: &Vec<u8>) -> (r: Result<usize, StreamError>)
        ensures
            match r {
                Ok(n) => final(self).spec_count() == old(self).spec_count() + n,
                Err(_) => final(self).spec_count() == old(self).spec_count(),
            },
    {
        match self.sink.write(buf) {
            Ok(size) => {
                self.count = self.count + size;
                Ok(size)
            },
            Err(e) => Err(e),
        }
    }

    /// Proxies to the sink's `flush`. Flushing moves no new bytes into
    /// the sink, so the count is untouched either way.
    fn flush(&mut self) -> (r: Result<(), StreamError>)
        ensures
            final(self).spec_count() == old(self).spec_count(),
    {
        self.sink.flush()
    }
}

impl<T: ByteSink> Counter for WriteCounter<T> {
    /// The number of bytes written so far.
    closed spec fn spec_count(&self) -> nat {
        self.count as nat
    }

    /// Returns the number of bytes written so far.
    fn count(&self) -> (c: usize) {
        self.count
    }
}

} // verus!
