//! The read engine: the buffered decode loop.
//!
//! Each call tries to decode a frame out of the bytes already buffered
//! before asking the channel for more; bytes pulled from the channel are
//! appended to the read buffer and decoding is retried. A read of zero
//! bytes marks end-of-stream: from then on an empty buffer means the frame
//! sequence ended cleanly, and a non-empty buffer that still decodes to "no
//! frame yet" is a truncation error rather than silently dropped bytes.

use vstd::prelude::*;
use crate::CodecFault;
use crate::FrameError;
use crate::PollStep;
use crate::bytebuf::buf_extend;
use crate::bytebuf::buf_len;
use crate::bytebuf::buf_model;
use crate::bytebuf::buf_with_capacity;
use crate::channel::ChannelRead;
use crate::framed::Fuse;
use crate::codec::Decoded;
use crate::codec::Decoder;

verus! {

/// The read-relevant state of an engine: the buffered bytes, the bytes the
/// channel has yet to deliver, and whether end-of-stream was observed.
pub struct ReadView {
    pub buf: Seq<u8>,
    pub inbound: Seq<u8>,
    pub eof: bool,
}

/// One outcome of the decode loop, with `p` the number of bytes the call
/// pulled from the channel into the buffer. Bytes are pulled only when the
/// buffered bytes do not already settle the call: a buffer that decodes to
/// a frame or to a decode error is answered with no I/O at all.
pub open spec fn read_progress<D: Decoder>(
    pre: ReadView,
    post: ReadView,
    p: int,
    r: PollStep<Option<Result<D::Item, FrameError>>>,
) -> bool {
    &&& 0 <= p <= pre.inbound.len()
    &&& post.inbound == pre.inbound.skip(p)
    &&& p > 0 ==> (pre.buf.len() == 0 || D::spec_decode(pre.buf) is More)
    &&& match r {
        PollStep::Pending => {
            &&& post.buf == pre.buf + pre.inbound.take(p)
            &&& !pre.eof
            &&& !post.eof
        },
        PollStep::Ready(opt) => match opt {
            None => {
                &&& p == 0
                &&& post.buf == pre.buf
                &&& post.buf.len() == 0
                &&& post.eof
                &&& (!pre.eof ==> pre.inbound.len() == 0)
            },
            Some(res) => match res {
                Ok(item) => {
                    &&& post.eof == pre.eof
                    &&& match D::spec_decode(pre.buf + pre.inbound.take(p)) {
                        Decoded::Frame { bytes, used } => {
                            &&& D::item_model(item) == bytes
                            &&& post.buf == (pre.buf + pre.inbound.take(p)).skip(used)
                        },
                        _ => false,
                    }
                },
                Err(e) => match e {
                    FrameError::Codec(f) => {
                        &&& post.buf == pre.buf + pre.inbound.take(p)
                        &&& post.eof == pre.eof
                        &&& D::spec_decode(post.buf) == (Decoded::Bad { code: f.code })
                    },
                    FrameError::Truncated => {
                        &&& post.buf == pre.buf + pre.inbound.take(p)
                        &&& post.buf.len() > 0
                        &&& post.eof
                        &&& D::spec_decode(post.buf) is More
                        &&& (pre.eof ==> p == 0)
                        &&& (!pre.eof ==> p == pre.inbound.len())
                    },
                    FrameError::Io(_) => {
                        &&& post.buf == pre.buf + pre.inbound.take(p)
                        &&& post.eof == pre.eof
                    },
                },
            },
        },
    }
}

/// The contract of one decode-loop call: some number of pulled bytes
/// explains the outcome (with no pull at all when the buffer already
/// settles the call), and outcomes that need no input are owed — a frame
/// decodable from the buffer is produced, malformed buffered bytes fail
/// with the codec's own fault code, and after end-of-stream an empty
/// buffer ends the sequence cleanly while undecodable leftovers are a
/// truncation error. `prompt` says the channel answers every read at once
/// (no "not ready", no fault) and hands out all it holds: then the call
/// always finishes, an empty channel ends the sequence cleanly, and a
/// pending stream short enough for one read is settled in this one call
/// exactly as the decoder reads it. Which outcome a non-prompt channel
/// picks — a chunk, "not ready", or an I/O fault — is the channel's own and
/// no function of this view, so no more than the fault-conserving `Io` arm
/// can be forced of it.
pub open spec fn read_step<D: Decoder>(
    pre: ReadView,
    post: ReadView,
    prompt: bool,
    r: PollStep<Option<Result<D::Item, FrameError>>>,
) -> bool {
    &&& exists|p: int| #[trigger] read_progress::<D>(pre, post, p, r)
    &&& (pre.eof && pre.buf.len() == 0 ==> r matches PollStep::Ready(None))
    &&& (pre.buf.len() > 0 && D::spec_decode(pre.buf) is Frame ==> r matches PollStep::Ready(
        Some(Ok(_)),
    ))
    &&& (pre.buf.len() > 0 ==> match D::spec_decode(pre.buf) {
        Decoded::Bad { code } => r == PollStep::<Option<Result<D::Item, FrameError>>>::Ready(
            Some(Err(FrameError::Codec(CodecFault { code }))),
        ),
        _ => true,
    })
    &&& (pre.eof && pre.buf.len() > 0 && D::spec_decode(pre.buf) is More ==> r
        == PollStep::<Option<Result<D::Item, FrameError>>>::Ready(
        Some(Err(FrameError::Truncated)),
    ))
    &&& (prompt ==> r matches PollStep::Ready(_))
    &&& (prompt && pre.buf.len() == 0 && pre.inbound.len() == 0 ==> r matches PollStep::Ready(
        None,
    ))
    &&& (prompt && !pre.eof && pre.buf.len() == 0 && 1 <= pre.inbound.len() <= READ_CHUNK as int
        ==> match D::spec_decode(pre.inbound) {
        Decoded::Frame { bytes, used } => r matches PollStep::Ready(Some(Ok(item)))
            && D::item_model(item) == bytes && post.buf == pre.inbound.skip(used)
            && post.inbound.len() == 0 && !post.eof,
        Decoded::More => r == PollStep::<Option<Result<D::Item, FrameError>>>::Ready(
            Some(Err(FrameError::Truncated)),
        ),
        Decoded::Bad { code } => r == PollStep::<Option<Result<D::Item, FrameError>>>::Ready(
            Some(Err(FrameError::Codec(CodecFault { code }))),
        ),
    })
}

/// Upper bound on the bytes pulled from the channel by one read call.
pub const READ_CHUNK: usize = 1028 * 8;

/// The read engine around a fused channel/decoder `T`.
pub struct FramedRead2<T> {
    pub inner: T,
    pub buffer: bytes::BytesMut,
    pub eof: bool,
}

impl<T: ChannelRead> FramedRead2<T> {
    /// The read-relevant state of this engine.
    pub open spec fn read_view(&self) -> ReadView {
        ReadView { buf: buf_model(self.buffer), inbound: self.inner.inbound(), eof: self.eof }
    }
}

/// Wrap `inner` in a read engine with an empty read buffer and no
/// end-of-stream observed yet.
pub fn framed_read_2<T>(inner: T) -> (r: FramedRead2<T>)
    ensures
        r.inner == inner,
        buf_model(r.buffer) == Seq::<u8>::empty(),
        !r.eof,
{
    FramedRead2 { inner, buffer: buf_with_capacity(1028 * 8), eof: false }
}

impl<T: ChannelRead + Decoder> FramedRead2<T> {
    /// Produce the next frame: decode from the buffer first, pull from the
    /// channel only when the buffered bytes do not yet form a frame.
    pub fn poll_next(&mut self) -> (r: PollStep<Option<Result<T::Item, FrameError>>>)
        ensures
            read_step::<T>(
                old(self).read_view(),
                final(self).read_view(),
                old(self).inner.read_prompt(),
                r,
            ),
            final(self).inner.read_prompt() == old(self).inner.read_prompt(),
    {
        let ghost pre = old(self).read_view();
        let ghost prompt = old(self).inner.read_prompt();
        let ghost mut p: int = 0;
        loop
            invariant
                pre == old(self).read_view(),
                prompt == old(self).inner.read_prompt(),
                self.inner.read_prompt() == prompt,
                0 <= p <= pre.inbound.len(),
                buf_model(self.buffer) == pre.buf + pre.inbound.take(p),
                self.inner.inbound() == pre.inbound.skip(p),
                pre.eof ==> self.eof && p == 0,
                self.eof && !pre.eof ==> p == pre.inbound.len(),
                (p > 0 || (self.eof && !pre.eof)) ==> (pre.buf.len() == 0 || T::spec_decode(
                    pre.buf,
                ) is More),
                self.eof && !pre.eof ==> (buf_model(self.buffer).len() == 0 || T::spec_decode(
                    buf_model(self.buffer),
                ) is More),
                prompt && !pre.eof && pre.buf.len() == 0 && 1 <= pre.inbound.len()
                    <= READ_CHUNK as int ==> (p == 0 || p == pre.inbound.len()),
            decreases self.inner.inbound().len() + (if self.eof {
                0int
            } else {
                1int
            }),
        {
            let len = buf_len(&self.buffer);
            if len > 0 {
                let this = &mut *self;
                match this.inner.decode(&mut this.buffer) {
                    Err(f) => {
                        proof {
                            if p == 0 {
                                assert(pre.buf + pre.inbound.take(0) =~= pre.buf);
                            }
                            if p == pre.inbound.len() {
                                assert(pre.inbound.take(p) =~= pre.inbound);
                            }
                            assert(read_progress::<T>(pre, self.read_view(), p, PollStep::Ready(
                                Some(Err::<T::Item, FrameError>(FrameError::Codec(f))),
                            )));
                        }
                        return PollStep::Ready(Some(Err(FrameError::Codec(f))));
                    },
                    Ok(Some(item)) => {
                        proof {
                            if p == 0 {
                                assert(pre.buf + pre.inbound.take(0) =~= pre.buf);
                            }
                            if p == pre.inbound.len() {
                                assert(pre.inbound.take(p) =~= pre.inbound);
                            }
                            assert(read_progress::<T>(pre, self.read_view(), p, PollStep::Ready(
                                Some(Ok::<T::Item, FrameError>(item)),
                            )));
                        }
                        return PollStep::Ready(Some(Ok(item)));
                    },
                    Ok(None) => {},
                }
            }
            if self.eof {
                if buf_len(&self.buffer) == 0 {
                    proof {
                        assert(pre.inbound.take(p).len() == p);
                        assert(read_progress::<T>(pre, self.read_view(), 0, PollStep::Ready(
                            None::<Result<T::Item, FrameError>>,
                        )));
                    }
                    return PollStep::Ready(None);
                } else {
                    proof {
                        if p == pre.inbound.len() {
                            assert(pre.inbound.take(p) =~= pre.inbound);
                        }
                        assert(read_progress::<T>(pre, self.read_view(), p, PollStep::Ready(
                            Some(Err::<T::Item, FrameError>(FrameError::Truncated)),
                        )));
                    }
                    return PollStep::Ready(Some(Err(FrameError::Truncated)));
                }
            }
            let this = &mut *self;
            match this.inner.read(READ_CHUNK) {
                PollStep::Pending => {
                    proof {
                        assert(read_progress::<T>(pre, self.read_view(), p, PollStep::Pending::<
                            Option<Result<T::Item, FrameError>>,
                        >));
                    }
                    return PollStep::Pending;
                },
                PollStep::Ready(Err(e)) => {
                    proof {
                        assert(read_progress::<T>(pre, self.read_view(), p, PollStep::Ready(
                            Some(Err::<T::Item, FrameError>(FrameError::Io(e))),
                        )));
                    }
                    return PollStep::Ready(Some(Err(FrameError::Io(e))));
                },
                PollStep::Ready(Ok(chunk)) => {
                    if chunk.len() == 0 {
                        self.eof = true;
                        proof {
                            assert(pre.inbound.skip(p).len() == 0);
                            assert(p == pre.inbound.len());
                        }
                    } else {
                        let ghost k = chunk@.len() as int;
                        buf_extend(&mut self.buffer, chunk.as_slice());
                        proof {
                            assert(pre.inbound.take(p) + pre.inbound.skip(p).take(k)
                                =~= pre.inbound.take(p + k));
                            assert((pre.buf + pre.inbound.take(p)) + chunk@ =~= pre.buf
                                + pre.inbound.take(p + k));
                            assert(pre.inbound.skip(p).skip(k) =~= pre.inbound.skip(p + k));
                            p = p + k;
                        }
                    }
                },
            }
        }
    }
}

/// A read-only façade: a channel and a decoder fused, with the read engine
/// layered on top.
pub struct FramedRead<T, D> {
    inner: FramedRead2<Fuse<T, D>>,
}

impl<T: ChannelRead, D> FramedRead<T, D> {
    /// The read-relevant state of this façade.
    pub closed spec fn read_view(&self) -> ReadView {
        self.inner.read_view()
    }

    /// Whether the underlying channel is prompt on the read side.
    pub closed spec fn read_prompt(&self) -> bool {
        self.inner.inner.read_prompt()
    }
}

impl<T: ChannelRead, D: Decoder> FramedRead<T, D> {
    pub fn new(inner: T, decoder: D) -> (r: FramedRead<T, D>)
        ensures
            r.read_view().buf == Seq::<u8>::empty(),
            r.read_view().inbound == inner.inbound(),
            !r.read_view().eof,
            r.read_prompt() == inner.read_prompt(),
    {
        FramedRead { inner: framed_read_2(Fuse(inner, decoder)) }
    }

    /// Produce the next frame; see `FramedRead2::poll_next`.
    pub fn poll_next(&mut self) -> (r: PollStep<Option<Result<D::Item, FrameError>>>)
        ensures
            read_step::<Fuse<T, D>>(
                old(self).read_view(),
                final(self).read_view(),
                old(self).read_prompt(),
                r,
            ),
            final(self).read_prompt() == old(self).read_prompt(),
    {
        self.inner.poll_next()
    }

    /// Take the façade apart, returning the channel and the decoder.
    pub fn release(self) -> (r: (T, D))
        ensures
            r.0.inbound() == self.read_view().inbound,
    {
        let FramedRead2 { inner: fused, buffer: _, eof: _ } = self.inner;
        let Fuse(t, d) = fused;
        (t, d)
    }
}

} // verus!
