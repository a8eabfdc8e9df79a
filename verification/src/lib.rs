use vstd::prelude::*;

pub mod bytebuf;
pub mod bytes_codec;
pub mod channel;
pub mod codec;
pub mod framed;
pub mod framed_read;
pub mod framed_write;
pub mod laws;
pub mod mem;
pub mod quad_codec;

pub use bytes_codec::BytesCodec;
pub use channel::ChannelRead;
pub use channel::ChannelWrite;
pub use codec::Decoder;
pub use codec::Encoder;
pub use framed::Framed;
pub use framed::Fuse;
pub use framed_read::FramedRead;
pub use framed_read::FramedRead2;
pub use framed_read::framed_read_2;
pub use framed_write::FramedWrite;
pub use framed_write::FramedWrite2;
pub use framed_write::framed_write_2;
pub use mem::MemChannel;
pub use quad_codec::QuadCodec;

verus! {

/// One step of a cooperative (poll-style) operation: either the operation
/// finished with a value, or the channel was not ready and the caller should
/// try again later.
pub enum PollStep<T> {
    Ready(T),
    Pending,
}

/// Failure reported by the underlying byte channel.
#[derive(Clone, Copy, PartialEq, Eq, Structural, Debug)]
pub struct IoFault {
    pub code: u64,
}

/// Failure reported by a codec while encoding or decoding a frame.
#[derive(Clone, Copy, PartialEq, Eq, Structural, Debug)]
pub struct CodecFault {
    pub code: u64,
}

/// Terminal error of a framed read or write operation.
#[derive(Clone, Copy, PartialEq, Eq, Structural, Debug)]
pub enum FrameError {
    /// The channel itself failed.
    Io(IoFault),
    /// The codec rejected the bytes (decode) or the frame (encode).
    Codec(CodecFault),
    /// End of stream was reached while buffered bytes still form no frame.
    Truncated,
}

} // verus!
