//! Fusing a raw channel with a codec, and the full duplex façade.
//!
//! `Fuse` holds the channel and the codec jointly, so that the read and
//! write engines can each be layered around "the channel" while sharing one
//! physical channel and one codec. It adds no buffering or transformation of
//! its own: every capability is delegated to the half that provides it.

use vstd::prelude::*;
use crate::CodecFault;
use crate::IoFault;
use crate::PollStep;
use crate::channel::ChannelRead;
use crate::channel::ChannelWrite;
use crate::codec::Decoded;
use crate::codec::Decoder;
use crate::codec::Encoder;
use crate::FrameError;
use crate::framed_read::FramedRead2;
use crate::framed_read::ReadView;
use crate::framed_read::framed_read_2;
use crate::framed_read::read_step;
use crate::framed_write::FramedWrite2;
use crate::framed_write::framed_write_2;

verus! {

/// A raw channel `T` and a codec `U`, owned jointly.
pub struct Fuse<T, U>(pub T, pub U);

impl<T, U> Fuse<T, U> {
    /// Exclusive access to the channel half.
    pub fn pinned_t(&mut self) -> (r: &mut T)
        ensures
            *r == old(self).0,
            *final(self) == (Fuse(*final(r), old(self).1)),
    {
        &mut self.0
    }
}

/// A unified producer/consumer façade over one channel and one codec: the
/// read engine is layered over the write engine, which is layered over the
/// fused channel and codec, so both directions share their lifetime.
pub struct Framed<T, U> {
    inner: FramedRead2<FramedWrite2<Fuse<T, U>>>,
}

impl<T: ChannelRead, U> Framed<T, U> {
    /// The read-relevant state of this façade.
    pub closed spec fn read_view(&self) -> ReadView {
        self.inner.read_view()
    }

    /// Whether the underlying channel is prompt on the read side.
    pub closed spec fn read_prompt(&self) -> bool {
        self.inner.inner.inner.read_prompt()
    }
}

impl<T: ChannelWrite, U> Framed<T, U> {
    /// The encoded-but-not-yet-transmitted bytes, in FIFO order.
    pub closed spec fn wbuf(&self) -> Seq<u8> {
        self.inner.inner.wbuf()
    }

    /// The bytes the underlying channel has accepted so far.
    pub closed spec fn outbound(&self) -> Seq<u8> {
        self.inner.inner.inner.outbound()
    }

    /// The prefix of `outbound` already forced toward its destination.
    pub closed spec fn flushed(&self) -> Seq<u8> {
        self.inner.inner.inner.flushed()
    }

    /// Whether the underlying channel has been closed.
    pub closed spec fn closed(&self) -> bool {
        self.inner.inner.inner.closed()
    }

    /// Whether the underlying channel is prompt on the write side.
    pub closed spec fn write_prompt(&self) -> bool {
        self.inner.inner.inner.write_prompt()
    }
}

impl<T: ChannelRead + ChannelWrite, U: Decoder + Encoder> Framed<T, U> {
    pub fn new(inner: T, codec: U) -> (r: Framed<T, U>)
        ensures
            r.read_view().buf == Seq::<u8>::empty(),
            r.read_view().inbound == inner.inbound(),
            !r.read_view().eof,
            r.wbuf() == Seq::<u8>::empty(),
            r.outbound() == inner.outbound(),
            r.flushed() == inner.flushed(),
            r.closed() == inner.closed(),
            r.read_prompt() == inner.read_prompt(),
            r.write_prompt() == inner.write_prompt(),
    {
        Framed { inner: framed_read_2(framed_write_2(Fuse(inner, codec))) }
    }

    /// Produce the next frame; see `FramedRead2::poll_next`.
    pub fn poll_next(&mut self) -> (r: PollStep<Option<Result<<U as Decoder>::Item, FrameError>>>)
        ensures
            read_step::<FramedWrite2<Fuse<T, U>>>(
                old(self).read_view(),
                final(self).read_view(),
                old(self).read_prompt(),
                r,
            ),
            final(self).read_prompt() == old(self).read_prompt(),
    {
        self.inner.poll_next()
    }

    /// Always ready: `start_send` queues without blocking or I/O.
    pub fn poll_ready(&self) -> (r: PollStep<Result<(), FrameError>>)
        ensures
            r matches PollStep::Ready(Ok(_)),
    {
        self.inner.inner.poll_ready()
    }

    /// Queue a frame for transmission; see `FramedWrite2::start_send`. The
    /// read side is left untouched.
    pub fn start_send(&mut self, item: <U as Encoder>::Item) -> (r: Result<(), FrameError>)
        ensures
            final(self).read_view() == old(self).read_view(),
            final(self).outbound() == old(self).outbound(),
            final(self).flushed() == old(self).flushed(),
            final(self).closed() == old(self).closed(),
            match U::spec_encode(<U as Encoder>::item_model(item)) {
                Some(enc) => {
                    &&& r matches Ok(_)
                    &&& final(self).wbuf() == old(self).wbuf() + enc
                },
                None => {
                    &&& r matches Err(FrameError::Codec(_))
                    &&& final(self).wbuf() == old(self).wbuf()
                },
            },
    {
        let this = &mut *self;
        this.inner.inner.start_send(item)
    }

    /// Drain the write buffer, then flush the channel; see
    /// `FramedWrite2::poll_flush`. The read buffer is left untouched.
    pub fn poll_flush(&mut self) -> (r: PollStep<Result<(), FrameError>>)
        ensures
            final(self).read_view().buf == old(self).read_view().buf,
            final(self).read_view().eof == old(self).read_view().eof,
            final(self).closed() == old(self).closed(),
            final(self).outbound() + final(self).wbuf() == old(self).outbound() + old(self).wbuf(),
            old(self).outbound().is_prefix_of(final(self).outbound()),
            match r {
                PollStep::Ready(res) => match res {
                    Ok(_) => final(self).wbuf().len() == 0 && final(self).flushed() == final(self).outbound(),
                    Err(e) => (e matches FrameError::Io(_)) && final(self).flushed() == old(self).flushed(),
                },
                PollStep::Pending => final(self).flushed() == old(self).flushed(),
            },
            old(self).write_prompt() ==> (r matches PollStep::Ready(Ok(_))),
            final(self).write_prompt() == old(self).write_prompt(),
    {
        let this = &mut *self;
        this.inner.inner.poll_flush()
    }

    /// Flush, then close the channel; see `FramedWrite2::poll_close`. The
    /// read buffer is left untouched.
    pub fn poll_close(&mut self) -> (r: PollStep<Result<(), FrameError>>)
        ensures
            final(self).read_view().buf == old(self).read_view().buf,
            final(self).read_view().eof == old(self).read_view().eof,
            final(self).outbound() + final(self).wbuf() == old(self).outbound() + old(self).wbuf(),
            old(self).outbound().is_prefix_of(final(self).outbound()),
            match r {
                PollStep::Ready(res) => match res {
                    Ok(_) => {
                        &&& final(self).wbuf().len() == 0
                        &&& final(self).closed()
                        &&& final(self).flushed() == final(self).outbound()
                    },
                    Err(e) => e matches FrameError::Io(_),
                },
                PollStep::Pending => true,
            },
            old(self).closed() && old(self).wbuf().len() == 0 ==> (r matches PollStep::Ready(
                Ok(_),
            )) && final(self).outbound() == old(self).outbound(),
            old(self).write_prompt() ==> (r matches PollStep::Ready(Ok(_))),
    {
        let this = &mut *self;
        this.inner.inner.poll_close()
    }

    /// Take the façade apart, returning the channel and the codec.
    pub fn release(self) -> (r: (T, U))
        ensures
            r.0.inbound() == self.read_view().inbound,
            r.0.outbound() == self.outbound(),
            r.0.flushed() == self.flushed(),
            r.0.closed() == self.closed(),
    {
        let FramedRead2 { inner: fw, buffer: _, eof: _ } = self.inner;
        let FramedWrite2 { inner: fused, buffer: _ } = fw;
        let Fuse(t, u) = fused;
        (t, u)
    }
}

impl<T: ChannelRead, U> ChannelRead for Fuse<T, U> {
    open spec fn inbound(&self) -> Seq<u8> {
        self.0.inbound()
    }

    open spec fn read_prompt(&self) -> bool {
        self.0.read_prompt()
    }

    fn read(&mut self, max: usize) -> (r: PollStep<Result<Vec<u8>, IoFault>>)
        ensures
            final(self).1 == old(self).1,
    {
        self.0.read(max)
    }
}

impl<T: ChannelWrite, U> ChannelWrite for Fuse<T, U> {
    open spec fn outbound(&self) -> Seq<u8> {
        self.0.outbound()
    }

    open spec fn flushed(&self) -> Seq<u8> {
        self.0.flushed()
    }

    open spec fn closed(&self) -> bool {
        self.0.closed()
    }

    open spec fn write_prompt(&self) -> bool {
        self.0.write_prompt()
    }

    fn write(&mut self, data: &[u8]) -> (r: PollStep<Result<usize, IoFault>>)
        ensures
            final(self).1 == old(self).1,
    {
        self.0.write(data)
    }

    fn flush(&mut self) -> (r: PollStep<Result<(), IoFault>>)
        ensures
            final(self).1 == old(self).1,
    {
        self.0.flush()
    }

    fn close(&mut self) -> (r: PollStep<Result<(), IoFault>>)
        ensures
            final(self).1 == old(self).1,
    {
        self.0.close()
    }
}

impl<T, U: Decoder> Decoder for Fuse<T, U> {
    type Item = U::Item;

    open spec fn item_model(item: U::Item) -> Seq<u8> {
        U::item_model(item)
    }

    open spec fn spec_decode(src: Seq<u8>) -> Decoded {
        U::spec_decode(src)
    }

    fn decode(&mut self, src: &mut bytes::BytesMut) -> (r: Result<Option<U::Item>, CodecFault>) {
        self.1.decode(src)
    }
}

impl<T, U: Encoder> Encoder for Fuse<T, U> {
    type Item = U::Item;

    open spec fn item_model(item: U::Item) -> Seq<u8> {
        U::item_model(item)
    }

    open spec fn spec_encode(m: Seq<u8>) -> Option<Seq<u8>> {
        U::spec_encode(m)
    }

    fn encode(&mut self, item: U::Item, dst: &mut bytes::BytesMut) -> (r: Result<(), CodecFault>) {
        self.1.encode(item, dst)
    }
}

} // verus!
