//! The codec capability: application-supplied encode/decode logic.
//!
//! A codec's behaviour is given by two spec functions of the implementing
//! type. `spec_decode` says, for the bytes currently buffered, whether they
//! hold a complete frame (and how many bytes it consumes), need more input,
//! or are malformed. `spec_encode` says which bytes a frame is written out
//! as, or that the codec rejects it. Each frame value is tied to the spec
//! level through `item_model`, the bytes that stand for it.

use vstd::prelude::*;
use crate::CodecFault;
use crate::bytebuf::buf_model;

verus! {

/// What decoding finds in a buffer: a complete frame covering the first
/// `used` buffered bytes and standing for `bytes`, a request for more input,
/// or malformed input, with the fault code the codec reports for it.
pub enum Decoded {
    Frame { bytes: Seq<u8>, used: int },
    More,
    Bad { code: u64 },
}

/// Decode half of a codec.
pub trait Decoder: Sized {
    type Item;

    /// The bytes a frame value stands for.
    spec fn item_model(item: Self::Item) -> Seq<u8>;

    /// What decoding yields on a buffer holding `src`.
    spec fn spec_decode(src: Seq<u8>) -> Decoded;

    /// Try to extract one frame from the front of `src`. A produced frame
    /// consumes exactly the bytes it covers; "no frame yet" and a decode
    /// error leave the buffer unchanged. A decoder's observable behaviour is
    /// fixed by its type (`spec_decode`), so decoding leaves the decoder as
    /// it found it.
    fn decode(&mut self, src: &mut bytes::BytesMut) -> (r: Result<Option<Self::Item>, CodecFault>)
        ensures
            *final(self) == *old(self),
            match Self::spec_decode(buf_model(*old(src))) {
                Decoded::Frame { bytes, used } => {
                    &&& r matches Ok(Some(item)) && Self::item_model(item) == bytes
                    &&& 0 <= used <= buf_model(*old(src)).len()
                    &&& buf_model(*final(src)) == buf_model(*old(src)).skip(used)
                },
                Decoded::More => {
                    &&& r matches Ok(None)
                    &&& buf_model(*final(src)) == buf_model(*old(src))
                },
                Decoded::Bad { code } => {
                    &&& r matches Err(f) && f == (CodecFault { code })
                    &&& buf_model(*final(src)) == buf_model(*old(src))
                },
            },
    ;
}

/// Encode half of a codec.
pub trait Encoder: Sized {
    type Item;

    /// The bytes a frame value stands for.
    spec fn item_model(item: Self::Item) -> Seq<u8>;

    /// The wire bytes of a frame whose model is `m`, or `None` when the
    /// codec rejects such a frame.
    spec fn spec_encode(m: Seq<u8>) -> Option<Seq<u8>>;

    /// Append the encoding of `item` to `dst`. A rejected frame appends
    /// nothing. An encoder's observable behaviour is fixed by its type
    /// (`spec_encode`), so encoding leaves the encoder as it found it.
    fn encode(&mut self, item: Self::Item, dst: &mut bytes::BytesMut) -> (r: Result<
        (),
        CodecFault,
    >)
        ensures
            *final(self) == *old(self),
            match Self::spec_encode(Self::item_model(item)) {
                Some(enc) => {
                    &&& r matches Ok(_)
                    &&& buf_model(*final(dst)) == buf_model(*old(dst)) + enc
                },
                None => {
                    &&& r matches Err(_)
                    &&& buf_model(*final(dst)) == buf_model(*old(dst))
                },
            },
    ;
}

} // verus!
