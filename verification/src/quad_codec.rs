//! A fixed-size codec: every frame is exactly four bytes.
//!
//! Unlike the passthrough codec, this one can demand more input (fewer than
//! four bytes buffered is "no frame yet") and can reject a frame (one whose
//! payload is not four bytes long), so it exercises the engines' truncation
//! and encode-failure paths. It also inverts itself frame by frame, which
//! the passthrough codec does not.

use vstd::prelude::*;
use crate::CodecFault;
use crate::bytebuf::buf_extend;
use crate::bytebuf::buf_len;
use crate::bytebuf::buf_model;
use crate::bytebuf::buf_split_to;
use crate::bytebuf::buf_to_vec;
use crate::codec::Decoded;
use crate::codec::Decoder;
use crate::codec::Encoder;
use crate::laws::extension_stable;
use crate::laws::prefix_faithful;

verus! {

/// Error code a `QuadCodec` reports for a frame whose payload is not
/// exactly four bytes long.
pub const QUAD_BAD_LEN: u64 = 4;

/// Frames of exactly four bytes, shipped verbatim.
pub struct QuadCodec {}

impl Decoder for QuadCodec {
    type Item = Vec<u8>;

    open spec fn item_model(item: Vec<u8>) -> Seq<u8> {
        item@
    }

    open spec fn spec_decode(src: Seq<u8>) -> Decoded {
        if src.len() >= 4 {
            Decoded::Frame { bytes: src.take(4), used: 4 }
        } else {
            Decoded::More
        }
    }

    fn decode(&mut self, src: &mut bytes::BytesMut) -> (r: Result<Option<Vec<u8>>, CodecFault>) {
        let len = buf_len(src);
        if len >= 4 {
            let head = buf_split_to(src, 4);
            let frame = buf_to_vec(&head);
            Ok(Some(frame))
        } else {
            Ok(None)
        }
    }
}

impl Encoder for QuadCodec {
    type Item = Vec<u8>;

    open spec fn item_model(item: Vec<u8>) -> Seq<u8> {
        item@
    }

    open spec fn spec_encode(m: Seq<u8>) -> Option<Seq<u8>> {
        if m.len() == 4 {
            Some(m)
        } else {
            None
        }
    }

    fn encode(&mut self, item: Vec<u8>, dst: &mut bytes::BytesMut) -> (r: Result<(), CodecFault>) {
        if item.len() == 4 {
            buf_extend(dst, item.as_slice());
            Ok(())
        } else {
            Err(CodecFault { code: QUAD_BAD_LEN })
        }
    }
}

/// The four-byte codec keeps its verdicts under more input: the laws'
/// stability hypothesis holds of it.
pub proof fn quad_extension_stable()
    ensures
        extension_stable::<QuadCodec>(),
{
    assert forall|s: Seq<u8>, ext: Seq<u8>|
        <QuadCodec as Decoder>::spec_decode(s) is Frame implies #[trigger] <QuadCodec as Decoder>::spec_decode(
        s + ext,
    ) == <QuadCodec as Decoder>::spec_decode(s) by {
        assert((s + ext).take(4) =~= s.take(4));
    }
}

/// Decoding inverts encoding for the four-byte codec: the round-trip
/// hypothesis holds of it.
pub proof fn quad_prefix_faithful()
    ensures
        prefix_faithful::<QuadCodec>(),
{
    assert forall|m: Seq<u8>, e: Seq<u8>, rest: Seq<u8>|
        #![trigger <QuadCodec as Encoder>::spec_encode(m), <QuadCodec as Decoder>::spec_decode(e + rest)]
        <QuadCodec as Encoder>::spec_encode(m) == Some(e) implies <QuadCodec as Decoder>::spec_decode(
        e + rest,
    ) == (Decoded::Frame { bytes: m, used: e.len() as int }) by {
        assert((e + rest).take(4) =~= e);
    }
}

} // verus!
