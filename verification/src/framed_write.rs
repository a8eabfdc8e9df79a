//! The write engine: buffered encoding with explicit flush and close.
//!
//! Frames are accepted eagerly: `start_send` only appends the frame's
//! encoding to the write buffer and never touches the channel. `poll_flush`
//! drains the buffer to the channel, retrying partial writes on the
//! remaining suffix, and only then flushes the channel itself; whatever the
//! channel has not yet accepted stays buffered, so an interrupted flush
//! neither loses nor duplicates bytes. `poll_close` runs the flush protocol
//! and then closes the channel.

use vstd::prelude::*;
use vstd::seq_lib::*;
use crate::FrameError;
use crate::PollStep;
use crate::bytebuf::buf_len;
use crate::bytebuf::buf_model;
use crate::bytebuf::buf_split_to;
use crate::bytebuf::buf_to_vec;
use crate::bytebuf::buf_with_capacity;
use crate::CodecFault;
use crate::channel::ChannelRead;
use crate::channel::ChannelWrite;
use crate::codec::Decoded;
use crate::codec::Decoder;
use crate::codec::Encoder;
use crate::IoFault;
use crate::framed::Fuse;

verus! {

/// The write engine around a fused channel/encoder `T`.
pub struct FramedWrite2<T> {
    pub inner: T,
    pub buffer: bytes::BytesMut,
}

impl<T> FramedWrite2<T> {
    /// The encoded-but-not-yet-transmitted bytes, in FIFO order.
    pub open spec fn wbuf(&self) -> Seq<u8> {
        buf_model(self.buffer)
    }
}

/// Wrap `inner` in a write engine with an empty write buffer.
pub fn framed_write_2<T>(inner: T) -> (r: FramedWrite2<T>)
    ensures
        r.wbuf() == Seq::<u8>::empty(),
        r.inner == inner,
{
    FramedWrite2 { inner, buffer: buf_with_capacity(1028 * 8) }
}

impl<T: ChannelWrite + Encoder> FramedWrite2<T> {
    /// The engine is always ready to accept a frame: queueing is unbounded
    /// and `start_send` never performs I/O.
    pub fn poll_ready(&self) -> (r: PollStep<Result<(), FrameError>>)
        ensures
            r matches PollStep::Ready(Ok(_)),
    {
        PollStep::Ready(Ok(()))
    }

    /// Queue `item` by appending its encoding to the write buffer. Fails
    /// only if the encoder rejects the frame, in which case nothing is
    /// appended; the channel is never touched.
    pub fn start_send(&mut self, item: T::Item) -> (r: Result<(), FrameError>)
        ensures
            final(self).inner == old(self).inner,
            match T::spec_encode(T::item_model(item)) {
                Some(enc) => {
                    &&& r matches Ok(_)
                    &&& final(self).wbuf() == old(self).wbuf() + enc
                },
                None => {
                    &&& r matches Err(FrameError::Codec(_))
                    &&& final(self).wbuf() == old(self).wbuf()
                },
            },
    {
        let this = &mut *self;
        match this.inner.encode(item, &mut this.buffer) {
            Ok(_) => Ok(()),
            Err(f) => Err(FrameError::Codec(f)),
        }
    }

    /// Drain the write buffer into the channel, then flush the channel.
    /// Whatever outcome, the bytes ever accepted by the channel followed by
    /// the bytes still buffered are exactly the bytes that were accepted or
    /// buffered before: nothing is lost, duplicated or reordered.
    pub fn poll_flush(&mut self) -> (r: PollStep<Result<(), FrameError>>)
        ensures
            final(self).inner.closed() == old(self).inner.closed(),
            final(self).inner.outbound() + final(self).wbuf() == old(self).inner.outbound() + old(self).wbuf(),
            old(self).inner.outbound().is_prefix_of(final(self).inner.outbound()),
            match r {
                PollStep::Ready(res) => match res {
                    Ok(_) => final(self).wbuf().len() == 0 && final(self).inner.flushed() == final(self).inner.outbound(),
                    Err(e) => (e matches FrameError::Io(_)) && final(self).inner.flushed() == old(self).inner.flushed(),
                },
                PollStep::Pending => final(self).inner.flushed() == old(self).inner.flushed(),
            },
            old(self).inner.closed() && old(self).wbuf().len() == 0 ==> (r matches PollStep::Ready(
                Ok(_),
            )),
            old(self).inner.write_prompt() ==> (r matches PollStep::Ready(Ok(_))),
            final(self).inner.write_prompt() == old(self).inner.write_prompt(),
    {
        loop
            invariant
                self.inner.write_prompt() == old(self).inner.write_prompt(),
                self.inner.closed() == old(self).inner.closed(),
                self.inner.flushed() == old(self).inner.flushed(),
                self.inner.outbound() + self.wbuf() == old(self).inner.outbound() + old(self).wbuf(),
                old(self).inner.outbound().is_prefix_of(self.inner.outbound()),
            ensures
                self.inner.closed() == old(self).inner.closed(),
                self.inner.flushed() == old(self).inner.flushed(),
                self.inner.outbound() + self.wbuf() == old(self).inner.outbound() + old(self).wbuf(),
                old(self).inner.outbound().is_prefix_of(self.inner.outbound()),
                self.wbuf().len() == 0,
            decreases self.wbuf().len(),
        {
            let len = buf_len(&self.buffer);
            if len == 0 {
                break ;
            }
            let chunk = buf_to_vec(&self.buffer);
            let ghost wbuf0 = self.wbuf();
            let ghost out0 = self.inner.outbound();
            let this = &mut *self;
            match this.inner.write(chunk.as_slice()) {
                PollStep::Pending => {
                    return PollStep::Pending;
                },
                PollStep::Ready(Err(e)) => {
                    return PollStep::Ready(Err(FrameError::Io(e)));
                },
                PollStep::Ready(Ok(n)) => {
                    let _ = buf_split_to(&mut self.buffer, n);
                    proof {
                        assert(wbuf0.take(n as int) + wbuf0.skip(n as int) =~= wbuf0);
                        assert((out0 + wbuf0.take(n as int)) + wbuf0.skip(n as int) =~= out0
                            + wbuf0);
                        assert(out0.is_prefix_of(self.inner.outbound()));
                        assert(old(self).inner.outbound().is_prefix_of(self.inner.outbound()));
                    }
                },
            }
        }
        let this = &mut *self;
        match this.inner.flush() {
            PollStep::Pending => PollStep::Pending,
            PollStep::Ready(Err(e)) => PollStep::Ready(Err(FrameError::Io(e))),
            PollStep::Ready(Ok(_)) => PollStep::Ready(Ok(())),
        }
    }

    /// Run the flush protocol, then close the channel. Closing is attempted
    /// even if the flush fails, but the flush error is surfaced first. A
    /// close after a successful close finds nothing buffered and succeeds
    /// again without re-sending anything.
    pub fn poll_close(&mut self) -> (r: PollStep<Result<(), FrameError>>)
        ensures
            final(self).inner.outbound() + final(self).wbuf() == old(self).inner.outbound() + old(self).wbuf(),
            old(self).inner.outbound().is_prefix_of(final(self).inner.outbound()),
            match r {
                PollStep::Ready(res) => match res {
                    Ok(_) => {
                        &&& final(self).wbuf().len() == 0
                        &&& final(self).inner.closed()
                        &&& final(self).inner.flushed() == final(self).inner.outbound()
                    },
                    Err(e) => e matches FrameError::Io(_),
                },
                PollStep::Pending => true,
            },
            old(self).inner.closed() && old(self).wbuf().len() == 0 ==> (r matches PollStep::Ready(
                Ok(_),
            )) && final(self).inner.outbound() == old(self).inner.outbound(),
            old(self).inner.write_prompt() ==> (r matches PollStep::Ready(Ok(_))),
    {
        match self.poll_flush() {
            PollStep::Pending => PollStep::Pending,
            PollStep::Ready(Err(e)) => {
                let this = &mut *self;
                let _ = this.inner.close();
                PollStep::Ready(Err(e))
            },
            PollStep::Ready(Ok(_)) => {
                let this = &mut *self;
                match this.inner.close() {
                    PollStep::Pending => PollStep::Pending,
                    PollStep::Ready(Err(e)) => PollStep::Ready(Err(FrameError::Io(e))),
                    PollStep::Ready(Ok(_)) => PollStep::Ready(Ok(())),
                }
            },
        }
    }
}

/// A write-only façade: a channel and an encoder fused, with the write
/// engine layered on top.
pub struct FramedWrite<T, E> {
    inner: FramedWrite2<Fuse<T, E>>,
}

impl<T: ChannelWrite, E> FramedWrite<T, E> {
    /// The encoded-but-not-yet-transmitted bytes, in FIFO order.
    pub closed spec fn wbuf(&self) -> Seq<u8> {
        self.inner.wbuf()
    }

    /// The bytes the underlying channel has accepted so far.
    pub closed spec fn outbound(&self) -> Seq<u8> {
        self.inner.inner.outbound()
    }

    /// The prefix of `outbound` already forced toward its destination.
    pub closed spec fn flushed(&self) -> Seq<u8> {
        self.inner.inner.flushed()
    }

    /// Whether the underlying channel has been closed.
    pub closed spec fn closed(&self) -> bool {
        self.inner.inner.closed()
    }

    /// Whether the underlying channel is prompt on the write side.
    pub closed spec fn write_prompt(&self) -> bool {
        self.inner.inner.write_prompt()
    }
}

impl<T: ChannelWrite, E: Encoder> FramedWrite<T, E> {
    pub fn new(inner: T, encoder: E) -> (r: FramedWrite<T, E>)
        ensures
            r.wbuf() == Seq::<u8>::empty(),
            r.outbound() == inner.outbound(),
            r.flushed() == inner.flushed(),
            r.closed() == inner.closed(),
            r.write_prompt() == inner.write_prompt(),
    {
        FramedWrite { inner: framed_write_2(Fuse(inner, encoder)) }
    }

    /// Always ready: `start_send` queues without blocking or I/O.
    pub fn poll_ready(&self) -> (r: PollStep<Result<(), FrameError>>)
        ensures
            r matches PollStep::Ready(Ok(_)),
    {
        self.inner.poll_ready()
    }

    /// Queue a frame; see `FramedWrite2::start_send`.
    pub fn start_send(&mut self, item: E::Item) -> (r: Result<(), FrameError>)
        ensures
            final(self).outbound() == old(self).outbound(),
            final(self).flushed() == old(self).flushed(),
            final(self).closed() == old(self).closed(),
            match E::spec_encode(E::item_model(item)) {
                Some(enc) => {
                    &&& r matches Ok(_)
                    &&& final(self).wbuf() == old(self).wbuf() + enc
                },
                None => {
                    &&& r matches Err(FrameError::Codec(_))
                    &&& final(self).wbuf() == old(self).wbuf()
                },
            },
    {
        self.inner.start_send(item)
    }

    /// Drain the write buffer, then flush the channel; see
    /// `FramedWrite2::poll_flush`.
    pub fn poll_flush(&mut self) -> (r: PollStep<Result<(), FrameError>>)
        ensures
            final(self).closed() == old(self).closed(),
            final(self).outbound() + final(self).wbuf() == old(self).outbound() + old(self).wbuf(),
            old(self).outbound().is_prefix_of(final(self).outbound()),
            match r {
                PollStep::Ready(res) => match res {
                    Ok(_) => final(self).wbuf().len() == 0 && final(self).flushed() == final(self).outbound(),
                    Err(e) => (e matches FrameError::Io(_)) && final(self).flushed() == old(self).flushed(),
                },
                PollStep::Pending => final(self).flushed() == old(self).flushed(),
            },
            old(self).write_prompt() ==> (r matches PollStep::Ready(Ok(_))),
            final(self).write_prompt() == old(self).write_prompt(),
    {
        self.inner.poll_flush()
    }

    /// Flush, then close the channel; see `FramedWrite2::poll_close`.
    pub fn poll_close(&mut self) -> (r: PollStep<Result<(), FrameError>>)
        ensures
            final(self).outbound() + final(self).wbuf() == old(self).outbound() + old(self).wbuf(),
            old(self).outbound().is_prefix_of(final(self).outbound()),
            match r {
                PollStep::Ready(res) => match res {
                    Ok(_) => {
                        &&& final(self).wbuf().len() == 0
                        &&& final(self).closed()
                        &&& final(self).flushed() == final(self).outbound()
                    },
                    Err(e) => e matches FrameError::Io(_),
                },
                PollStep::Pending => true,
            },
            old(self).closed() && old(self).wbuf().len() == 0 ==> (r matches PollStep::Ready(
                Ok(_),
            )) && final(self).outbound() == old(self).outbound(),
            old(self).write_prompt() ==> (r matches PollStep::Ready(Ok(_))),
    {
        self.inner.poll_close()
    }

    /// Take the façade apart, returning the channel and the encoder.
    pub fn release(self) -> (r: (T, E))
        ensures
            r.0.outbound() == self.outbound(),
            r.0.flushed() == self.flushed(),
            r.0.closed() == self.closed(),
    {
        let FramedWrite2 { inner: fused, buffer: _ } = self.inner;
        let Fuse(t, e) = fused;
        (t, e)
    }
}

impl<T: ChannelRead> ChannelRead for FramedWrite2<T> {
    open spec fn inbound(&self) -> Seq<u8> {
        self.inner.inbound()
    }

    open spec fn read_prompt(&self) -> bool {
        self.inner.read_prompt()
    }

    fn read(&mut self, max: usize) -> (r: PollStep<Result<Vec<u8>, IoFault>>)
        ensures
            final(self).wbuf() == old(self).wbuf(),
    {
        self.inner.read(max)
    }
}

impl<T: Decoder> Decoder for FramedWrite2<T> {
    type Item = T::Item;

    open spec fn item_model(item: T::Item) -> Seq<u8> {
        T::item_model(item)
    }

    open spec fn spec_decode(src: Seq<u8>) -> Decoded {
        T::spec_decode(src)
    }

    fn decode(&mut self, src: &mut bytes::BytesMut) -> (r: Result<Option<T::Item>, CodecFault>) {
        self.inner.decode(src)
    }
}

} // verus!
