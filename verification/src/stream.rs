//! Byte-stream capabilities: sources that can be read and sinks that can be
//! written, together with the error they report.

use vstd::math::min;
use vstd::prelude::*;

verus! {

/// The failure a stream reports. The counters introduce no error of their
/// own: every error a caller sees came from the wrapped stream, unchanged.
#[derive(Clone, Copy, PartialEq, Eq, Structural, Debug)]
pub struct StreamError;

/// A readable byte stream, modelled by the sequence of bytes it has yet to
/// deliver.
///
/// A read fills a prefix of the buffer with the next bytes of the stream, in
/// order and unaltered, and reports how many it delivered; it may deliver
/// fewer bytes than the buffer holds, including zero at end of stream. A
/// failed read changes nothing observable. A `reliable` source goes
/// further: its reads succeed and deliver as much as buffer and stream
/// allow.
pub trait ByteSource {
    /// The implementation's well-formedness condition.
    spec fn inv(&self) -> bool;

    /// The bytes the source has yet to deliver, in the order it will
    /// deliver them.
    spec fn remaining(&self) -> Seq<u8>;

    /// What the implementation asks of a read with a buffer of the given
    /// length, beyond well-formedness. A plain source asks nothing; a
    /// counting one needs headroom in its count.
    spec fn read_ready(&self, buf_len: nat) -> bool;

    /// Whether the source is sure to deliver: a read of a reliable source
    /// cannot fail or come up short, and leaves the source reliable. An
    /// in-memory source is reliable; a broken one is not.
    spec fn reliable(&self) -> bool;

    /// Whether the source is sure to fail: a read of a broken source
    /// returns an error, and the source stays broken. An in-memory source
    /// is never broken; `FailingStream` always is.
    spec fn broken(&self) -> bool;

    /// Reads bytes into a prefix of `buf`, returning how many were read.
    fn read(&mut self, buf: &mut Vec<u8>) -> (r: Result<usize, StreamError>)
        requires
            old(self).inv(),
            old(self).read_ready(old(buf)@.len() as nat),
        ensures
            final(self).inv(),
            final(buf)@.len() == old(buf)@.len(),
            old(self).reliable() ==> {
                &&& final(self).reliable()
                &&& (r matches Ok(n) && n == min(
                    old(buf)@.len() as int,
                    old(self).remaining().len() as int,
                ))
            },
            old(self).broken() ==> final(self).broken() && r is Err,
            match r {
                Ok(n) => {
                    &&& n <= old(buf)@.len()
                    &&& n <= old(self).remaining().len()
                    &&& final(buf)@.take(n as int) == old(self).remaining().take(n as int)
                    &&& final(buf)@.skip(n as int) == old(buf)@.skip(n as int)
                    &&& final(self).remaining() == old(self).remaining().skip(n as int)
                },
                Err(_) => {
                    &&& final(buf)@ == old(buf)@
                    &&& final(self).remaining() == old(self).remaining()
                },
            },
    ;
}

/// A writable byte stream, modelled by the sequence of bytes it has
/// received so far.
///
/// A write appends a prefix of the buffer to the received bytes, in order
/// and unaltered, and reports how many it accepted; a failed write and a
/// flush leave the received bytes as they were. A `reliable` sink goes
/// further: its writes accept the whole buffer and its flushes succeed.
pub trait ByteSink {
    /// The implementation's well-formedness condition.
    spec fn inv(&self) -> bool;

    /// The bytes the sink has received so far, in the order it received
    /// them.
    spec fn received(&self) -> Seq<u8>;

    /// What the implementation asks of a write with a buffer of the given
    /// length, beyond well-formedness. A plain sink asks nothing; a
    /// counting one needs headroom in its count.
    spec fn write_ready(&self, buf_len: nat) -> bool;

    /// Whether the sink is sure to accept: a write to a reliable sink
    /// cannot fail or stop short of the whole buffer, a flush of one
    /// cannot fail, and both leave the sink reliable. An in-memory sink is
    /// reliable; a broken one is not.
    spec fn reliable(&self) -> bool;

    /// Whether the sink is sure to fail: a write to or a flush of a
    /// broken sink returns an error, and the sink stays broken. An
    /// in-memory sink is never broken; `FailingStream` always is.
    spec fn broken(&self) -> bool;

    /// Writes bytes from a prefix of `buf`, returning how many were
    /// written.
    fn write(&mut self, buf: &Vec<u8>) -> (r: Result<usize, StreamError>)
        requires
            old(self).inv(),
            old(self).write_ready(buf@.len() as nat),
        ensures
            final(self).inv(),
            old(self).reliable() ==> {
                &&& final(self).reliable()
                &&& (r matches Ok(n) && n == buf@.len())
            },
            old(self).broken() ==> final(self).broken() && r is Err,
            match r {
                Ok(n) => {
                    &&& n <= buf@.len()
                    &&& final(self).received() == old(self).received() + buf@.take(n as int)
                },
                Err(_) => final(self).received() == old(self).received(),
            },
    ;

    /// Pushes any buffered bytes onward; receives nothing new.
    fn flush(&mut self) -> (r: Result<(), StreamError>)
        requires
            old(self).inv(),
        ensures
            final(self).inv(),
            final(self).received() == old(self).received(),
            old(self).reliable() ==> final(self).reliable() && r is Ok,
            old(self).broken() ==> final(self).broken() && r is Err,
    ;
}

} // verus!
