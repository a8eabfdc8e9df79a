//! The raw byte channel that the framing engines sit on.
//!
//! The two halves mirror a duplex transport: a read half that hands out
//! chunks of bytes until end-of-stream, and a write half that accepts bytes
//! (possibly only a few per call), flushes them toward their destination and
//! can be closed. Every operation is poll-style: a channel that cannot make
//! progress right now answers `Pending` and leaves its state unchanged.

use vstd::prelude::*;
use crate::IoFault;
use crate::PollStep;

verus! {

/// The read half of a raw byte channel.
pub trait ChannelRead: Sized {
    /// The bytes this channel has yet to deliver, in order.
    spec fn inbound(&self) -> Seq<u8>;

    /// Whether this channel is prompt on the read side: every read finishes
    /// at once — no "not ready", no fault — and hands out as many bytes as
    /// were asked for and held. An in-memory channel is prompt; a socket is
    /// not. Reading keeps a channel's promptness.
    spec fn read_prompt(&self) -> bool;

    /// Read up to `max` bytes. A non-empty chunk is the next prefix of
    /// `inbound`; an empty chunk signals end-of-stream and is returned
    /// exactly when no bytes remain.
    fn read(&mut self, max: usize) -> (r: PollStep<Result<Vec<u8>, IoFault>>)
        requires
            max >= 1,
        ensures
            final(self).read_prompt() == old(self).read_prompt(),
            match r {
                PollStep::Ready(res) => match res {
                    Ok(chunk) => {
                        &&& chunk@.len() <= max
                        &&& chunk@.len() <= old(self).inbound().len()
                        &&& chunk@ == old(self).inbound().take(chunk@.len() as int)
                        &&& final(self).inbound() == old(self).inbound().skip(chunk@.len() as int)
                        &&& (chunk@.len() == 0 <==> old(self).inbound().len() == 0)
                        &&& old(self).read_prompt() ==> chunk@.len() == if old(self).inbound().len()
                            <= max as int {
                            old(self).inbound().len() as int
                        } else {
                            max as int
                        }
                    },
                    Err(_) => final(self).inbound() == old(self).inbound()
                        && !old(self).read_prompt(),
                },
                PollStep::Pending => final(self).inbound() == old(self).inbound() && !old(
                    self,
                ).read_prompt(),
            },
    ;
}

/// The write half of a raw byte channel.
pub trait ChannelWrite: Sized {
    /// The bytes this channel has accepted so far, in order.
    spec fn outbound(&self) -> Seq<u8>;

    /// The prefix of `outbound` already forced toward its destination.
    spec fn flushed(&self) -> Seq<u8>;

    /// Whether the channel has been closed.
    spec fn closed(&self) -> bool;

    /// Whether this channel is prompt on the write side: every write,
    /// flush and close finishes at once with success. Writing and flushing
    /// keep a channel's promptness; closing may end it.
    spec fn write_prompt(&self) -> bool;

    /// Write a non-empty slice. On success at least one byte is accepted;
    /// the accepted bytes are appended to `outbound` in order.
    fn write(&mut self, data: &[u8]) -> (r: PollStep<Result<usize, IoFault>>)
        requires
            data@.len() >= 1,
        ensures
            final(self).write_prompt() == old(self).write_prompt(),
            match r {
                PollStep::Ready(res) => match res {
                    Ok(n) => {
                        &&& 1 <= n <= data@.len()
                        &&& final(self).outbound() == old(self).outbound() + data@.take(n as int)
                        &&& final(self).flushed() == old(self).flushed()
                        &&& final(self).closed() == old(self).closed()
                    },
                    Err(_) => {
                        &&& final(self).outbound() == old(self).outbound()
                        &&& final(self).flushed() == old(self).flushed()
                        &&& final(self).closed() == old(self).closed()
                        &&& !old(self).write_prompt()
                    },
                },
                PollStep::Pending => {
                    &&& final(self).outbound() == old(self).outbound()
                    &&& final(self).flushed() == old(self).flushed()
                    &&& final(self).closed() == old(self).closed()
                    &&& !old(self).write_prompt()
                },
            },
    ;

    /// Force all accepted bytes toward their destination. Flushing a closed
    /// channel succeeds and changes nothing it still holds.
    fn flush(&mut self) -> (r: PollStep<Result<(), IoFault>>)
        ensures
            final(self).outbound() == old(self).outbound(),
            final(self).closed() == old(self).closed(),
            match r {
                PollStep::Ready(res) => match res {
                    Ok(_) => final(self).flushed() == final(self).outbound(),
                    Err(_) => final(self).flushed() == old(self).flushed(),
                },
                PollStep::Pending => final(self).flushed() == old(self).flushed(),
            },
            old(self).closed() ==> (r matches PollStep::Ready(Ok(_))),
            old(self).write_prompt() ==> (r matches PollStep::Ready(Ok(_))),
            final(self).write_prompt() == old(self).write_prompt(),
    ;

    /// Close the channel. Closing delivers everything accepted so far; a
    /// second close is a successful no-op.
    fn close(&mut self) -> (r: PollStep<Result<(), IoFault>>)
        ensures
            final(self).outbound() == old(self).outbound(),
            match r {
                PollStep::Ready(res) => match res {
                    Ok(_) => final(self).closed() && final(self).flushed() == final(self).outbound(),
                    Err(_) => final(self).closed() == old(self).closed() && final(self).flushed()
                        == old(self).flushed(),
                },
                PollStep::Pending => final(self).closed() == old(self).closed()
                    && final(self).flushed() == old(self).flushed(),
            },
            old(self).closed() ==> (r matches PollStep::Ready(Ok(_))),
            old(self).write_prompt() ==> (r matches PollStep::Ready(Ok(_))),
    ;
}

} // verus!
