//! An in-memory duplex channel.
//!
//! It plays back a fixed inbound byte stream (ending in a clean
//! end-of-stream) and records everything written to it. The number of bytes
//! served per read call and accepted per write call can be capped, which
//! exercises the engines' handling of short reads and partial writes.

use vstd::prelude::*;
use crate::IoFault;
use crate::PollStep;
use crate::channel::ChannelRead;
use crate::channel::ChannelWrite;

verus! {

/// Error code a `MemChannel` reports when written to after being closed.
pub const MEM_CLOSED: u64 = 1;

pub struct MemChannel {
    input: Vec<u8>,
    pos: usize,
    written: Vec<u8>,
    flushed_len: usize,
    max_read: usize,
    max_write: usize,
    closed: bool,
}

impl MemChannel {
    /// The read position, clamped to the input's length.
    pub closed spec fn spec_pos(&self) -> int {
        if self.pos as int <= self.input@.len() {
            self.pos as int
        } else {
            self.input@.len() as int
        }
    }

    /// The read cap per call, clamped to at least one byte.
    pub closed spec fn spec_read_cap(&self) -> int {
        if self.max_read == 0 {
            1
        } else {
            self.max_read as int
        }
    }

    /// The write cap per call, clamped to at least one byte.
    pub closed spec fn spec_write_cap(&self) -> int {
        if self.max_write == 0 {
            1
        } else {
            self.max_write as int
        }
    }

    /// The flushed length, clamped to the written length.
    pub closed spec fn spec_flushed_len(&self) -> int {
        if self.flushed_len as int <= self.written@.len() {
            self.flushed_len as int
        } else {
            self.written@.len() as int
        }
    }

    /// A channel that serves `input` and then a clean end-of-stream, with no
    /// cap on chunk sizes beyond the caller's own.
    pub fn new(input: Vec<u8>) -> (r: MemChannel)
        ensures
            r.inbound() == input@,
            r.outbound() == Seq::<u8>::empty(),
            r.flushed() == Seq::<u8>::empty(),
            !r.closed(),
            r.read_prompt(),
            r.write_prompt(),
    {
        MemChannel {
            input,
            pos: 0,
            written: Vec::new(),
            flushed_len: 0,
            max_read: usize::MAX,
            max_write: usize::MAX,
            closed: false,
        }
    }

    /// Like `new`, but serves at most `max_read` bytes per read call and
    /// accepts at most `max_write` bytes per write call (each at least 1).
    pub fn with_limits(input: Vec<u8>, max_read: usize, max_write: usize) -> (r: MemChannel)
        ensures
            r.inbound() == input@,
            r.outbound() == Seq::<u8>::empty(),
            r.flushed() == Seq::<u8>::empty(),
            !r.closed(),
            r.write_prompt(),
            max_read == usize::MAX ==> r.read_prompt(),
    {
        MemChannel {
            input,
            pos: 0,
            written: Vec::new(),
            flushed_len: 0,
            max_read: if max_read == 0 {
                1
            } else {
                max_read
            },
            max_write: if max_write == 0 {
                1
            } else {
                max_write
            },
            closed: false,
        }
    }

    /// Everything written to this channel so far.
    pub fn written(&self) -> (r: &Vec<u8>)
        ensures
            r@ == self.outbound(),
    {
        &self.written
    }

    /// Whether this channel has been closed.
    pub fn is_closed(&self) -> (r: bool)
        ensures
            r == self.closed(),
    {
        self.closed
    }
}

impl ChannelRead for MemChannel {
    closed spec fn inbound(&self) -> Seq<u8> {
        self.input@.skip(self.spec_pos())
    }

    closed spec fn read_prompt(&self) -> bool {
        self.max_read == usize::MAX
    }

    fn read(&mut self, max: usize) -> (r: PollStep<Result<Vec<u8>, IoFault>>)
        ensures
            r matches PollStep::Ready(Ok(chunk)) && chunk@.len() == vstd::math::min(
                vstd::math::min(max as int, old(self).spec_read_cap()),
                old(self).inbound().len() as int,
            ),
    {
        if self.pos > self.input.len() {
            self.pos = self.input.len();
        }
        let avail: usize = self.input.len() - self.pos;
        let step: usize = if self.max_read == 0 {
            1
        } else {
            self.max_read
        };
        let mut n: usize = if avail < step {
            avail
        } else {
            step
        };
        if max < n {
            n = max;
        }
        let mut chunk: Vec<u8> = Vec::new();
        let mut i: usize = 0;
        proof {
            assert(chunk@ =~= self.input@.subrange(self.pos as int, self.pos as int));
        }
        while i < n
            invariant
                i <= n,
                self.pos + n <= self.input@.len(),
                self.input@.len() <= usize::MAX,
                chunk@ == self.input@.subrange(self.pos as int, self.pos + i),
            decreases n - i,
        {
            let byte = self.input[self.pos + i];
            chunk.push(byte);
            i = i + 1;
            proof {
                assert(chunk@ =~= self.input@.subrange(self.pos as int, self.pos + i));
            }
        }
        proof {
            assert(chunk@ =~= self.inbound().take(n as int));
            assert(self.input@.skip(self.pos + n) =~= self.inbound().skip(n as int));
        }
        self.pos = self.pos + n;
        PollStep::Ready(Ok(chunk))
    }
}

impl ChannelWrite for MemChannel {
    closed spec fn outbound(&self) -> Seq<u8> {
        self.written@
    }

    closed spec fn flushed(&self) -> Seq<u8> {
        self.written@.take(self.spec_flushed_len())
    }

    closed spec fn closed(&self) -> bool {
        self.closed
    }

    closed spec fn write_prompt(&self) -> bool {
        !self.closed
    }

    fn write(&mut self, data: &[u8]) -> (r: PollStep<Result<usize, IoFault>>)
        ensures
            old(self).closed() ==> (r matches PollStep::Ready(Err(f)) && f == (IoFault {
                code: MEM_CLOSED,
            })),
            !old(self).closed() ==> (r matches PollStep::Ready(Ok(n)) && n == vstd::math::min(
                data@.len() as int,
                old(self).spec_write_cap(),
            )),
    {
        if self.closed {
            return PollStep::Ready(Err(IoFault { code: MEM_CLOSED }));
        }
        if self.flushed_len > self.written.len() {
            self.flushed_len = self.written.len();
        }
        let step: usize = if self.max_write == 0 {
            1
        } else {
            self.max_write
        };
        let n: usize = if data.len() < step {
            data.len()
        } else {
            step
        };
        let ghost w0 = self.written@;
        let ghost fl0 = self.flushed_len;
        proof {
            assert(self.written@ =~= w0 + data@.subrange(0, 0));
            assert(w0.take(fl0 as int) =~= old(self).flushed());
        }
        let mut i: usize = 0;
        while i < n
            invariant
                i <= n,
                n <= data@.len(),
                self.written@ == w0 + data@.subrange(0, i as int),
                self.flushed_len == fl0,
                fl0 <= w0.len(),
                self.closed == false,
            decreases n - i,
        {
            let byte = data[i];
            self.written.push(byte);
            i = i + 1;
            proof {
                assert(self.written@ =~= w0 + data@.subrange(0, i as int));
            }
        }
        proof {
            assert(data@.subrange(0, n as int) =~= data@.take(n as int));
            assert(self.flushed() =~= w0.take(fl0 as int));
        }
        PollStep::Ready(Ok(n))
    }

    fn flush(&mut self) -> (r: PollStep<Result<(), IoFault>>)
        ensures
            r == PollStep::Ready(Ok::<(), IoFault>(())),
    {
        self.flushed_len = self.written.len();
        proof {
            assert(self.flushed() =~= self.outbound());
        }
        PollStep::Ready(Ok(()))
    }

    fn close(&mut self) -> (r: PollStep<Result<(), IoFault>>)
        ensures
            r == PollStep::Ready(Ok::<(), IoFault>(())),
    {
        self.flushed_len = self.written.len();
        self.closed = true;
        proof {
            assert(self.flushed() =~= self.outbound());
        }
        PollStep::Ready(Ok(()))
    }
}

} // verus!
