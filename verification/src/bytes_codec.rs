//! A passthrough codec that ships raw bytes around.

use vstd::prelude::*;
use crate::CodecFault;
use crate::bytebuf::buf_freeze;
use crate::bytebuf::buf_len;
use crate::bytebuf::buf_model;
use crate::bytebuf::buf_split_to;
use crate::bytebuf::buf_extend_bytes;
use crate::bytebuf::bytes_model;
use crate::codec::Decoded;
use crate::codec::Decoder;
use crate::codec::Encoder;

verus! {

/// The simplest codec: decoding takes the entire buffered content as one
/// frame whenever the buffer is non-empty; encoding appends a frame's raw
/// bytes verbatim.
pub struct BytesCodec {}

impl Decoder for BytesCodec {
    type Item = bytes::Bytes;

    open spec fn item_model(item: bytes::Bytes) -> Seq<u8> {
        bytes_model(item)
    }

    open spec fn spec_decode(src: Seq<u8>) -> Decoded {
        if src.len() > 0 {
            Decoded::Frame { bytes: src, used: src.len() as int }
        } else {
            Decoded::More
        }
    }

    fn decode(&mut self, src: &mut bytes::BytesMut) -> (r: Result<
        Option<bytes::Bytes>,
        CodecFault,
    >) {
        let len = buf_len(src);
        if len > 0 {
            let head = buf_split_to(src, len);
            proof {
                assert(buf_model(*old(src)).take(len as int) =~= buf_model(*old(src)));
            }
            Ok(Some(buf_freeze(head)))
        } else {
            Ok(None)
        }
    }
}

impl Encoder for BytesCodec {
    type Item = bytes::Bytes;

    open spec fn item_model(item: bytes::Bytes) -> Seq<u8> {
        bytes_model(item)
    }

    open spec fn spec_encode(m: Seq<u8>) -> Option<Seq<u8>> {
        Some(m)
    }

    fn encode(&mut self, item: bytes::Bytes, dst: &mut bytes::BytesMut) -> (r: Result<
        (),
        CodecFault,
    >) {
        buf_extend_bytes(dst, &item);
        Ok(())
    }
}

} // verus!
