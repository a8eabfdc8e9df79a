//! Stream-level laws of the framing engines.
//!
//! `encode_all` is the byte stream that the write engine's contracts
//! guarantee after queueing frames in order and flushing: the concatenation
//! of their encodings. `decode_chunked` is the frame sequence that the read
//! engine's contracts guarantee when that stream is delivered chunk by
//! chunk: decode whatever is buffered, pull the next chunk when the decoder
//! asks for more, end cleanly only when both buffer and stream are spent
//! (`None` stands for any failure: a decode error, or leftovers at
//! end-of-stream, which the engine reports as truncation).

use vstd::prelude::*;
use crate::codec::Decoded;
use crate::codec::Decoder;
use crate::codec::Encoder;
use crate::framed_read::ReadView;

verus! {

/// The concatenation of a sequence of chunks.
pub open spec fn concat_all(chunks: Seq<Seq<u8>>) -> Seq<u8>
    decreases chunks.len(),
{
    if chunks.len() == 0 {
        Seq::empty()
    } else {
        chunks[0] + concat_all(chunks.skip(1))
    }
}

/// The total byte count of a sequence of chunks.
pub open spec fn total_len(chunks: Seq<Seq<u8>>) -> nat
    decreases chunks.len(),
{
    if chunks.len() == 0 {
        0
    } else {
        chunks[0].len() + total_len(chunks.skip(1))
    }
}

/// The frame models the read engine produces when the stream is delivered
/// as `chunks`, with `carry` already buffered.
pub open spec fn decode_chunked<D: Decoder>(carry: Seq<u8>, chunks: Seq<Seq<u8>>) -> Option<
    Seq<Seq<u8>>,
>
    decreases carry.len() + total_len(chunks), chunks.len(),
{
    if carry.len() == 0 {
        if chunks.len() == 0 {
            Some(Seq::empty())
        } else {
            decode_chunked::<D>(chunks[0], chunks.skip(1))
        }
    } else {
        match D::spec_decode(carry) {
            Decoded::Frame { bytes, used } => if 1 <= used <= carry.len() {
                match decode_chunked::<D>(carry.skip(used), chunks) {
                    Some(rest) => Some(seq![bytes] + rest),
                    None => None,
                }
            } else {
                None
            },
            Decoded::More => if chunks.len() == 0 {
                None
            } else {
                decode_chunked::<D>(carry + chunks[0], chunks.skip(1))
            },
            Decoded::Bad { .. } => None,
        }
    }
}

/// The frame models decoded from one contiguous byte stream delivered
/// whole.
pub open spec fn decode_all<D: Decoder>(src: Seq<u8>) -> Option<Seq<Seq<u8>>> {
    decode_chunked::<D>(src, Seq::empty())
}

/// The byte stream produced by encoding `frames` in order, or `None` when
/// the encoder rejects one of them.
pub open spec fn encode_all<E: Encoder>(frames: Seq<Seq<u8>>) -> Option<Seq<u8>>
    decreases frames.len(),
{
    if frames.len() == 0 {
        Some(Seq::empty())
    } else {
        match (E::spec_encode(frames[0]), encode_all::<E>(frames.skip(1))) {
            (Some(e), Some(rest)) => Some(e + rest),
            _ => None,
        }
    }
}

/// A decoder whose verdicts survive more input: a frame found at the front
/// of a stream, and a malformed front, stay what they are when bytes are
/// appended; and a found frame covers at least one and at most all of the
/// bytes in front of it.
pub open spec fn extension_stable<D: Decoder>() -> bool {
    &&& forall|s: Seq<u8>, ext: Seq<u8>|
        #![trigger D::spec_decode(s + ext)]
        D::spec_decode(s) is Frame ==> D::spec_decode(s + ext) == D::spec_decode(s)
    &&& forall|s: Seq<u8>, ext: Seq<u8>|
        #![trigger D::spec_decode(s + ext)]
        D::spec_decode(s) is Bad ==> D::spec_decode(s + ext) is Bad
    &&& forall|s: Seq<u8>|
        (#[trigger] D::spec_decode(s)) matches Decoded::Frame { bytes, used } ==> 1 <= used
            <= s.len()
}

/// An encoder/decoder pair where decoding inverts encoding frame by frame:
/// an encoded frame at the front of any stream decodes back to exactly that
/// frame, consuming exactly its encoding, and no encoding is empty.
pub open spec fn prefix_faithful<C: Decoder + Encoder>() -> bool {
    &&& forall|m: Seq<u8>, e: Seq<u8>, rest: Seq<u8>|
        #![trigger C::spec_encode(m), C::spec_decode(e + rest)]
        C::spec_encode(m) == Some(e) ==> C::spec_decode(e + rest) == (Decoded::Frame {
            bytes: m,
            used: e.len() as int,
        })
    &&& forall|m: Seq<u8>| (#[trigger] C::spec_encode(m)) matches Some(e) ==> e.len() >= 1
}

/// Round-trip: frames encoded in order through the write engine and decoded
/// back through the read engine with the same codec come out identical and
/// in the same order, for every codec whose decoder inverts its encoder.
pub proof fn lemma_round_trip<C: Decoder + Encoder>(frames: Seq<Seq<u8>>)
    requires
        prefix_faithful::<C>(),
        encode_all::<C>(frames) is Some,
    ensures
        decode_all::<C>(encode_all::<C>(frames)->Some_0) == Some(frames),
    decreases frames.len(),
{
    let stream = encode_all::<C>(frames)->Some_0;
    if frames.len() == 0 {
        assert(stream =~= Seq::<u8>::empty());
        assert(frames =~= Seq::<Seq<u8>>::empty());
    } else {
        let m0 = frames[0];
        let e0 = C::spec_encode(m0)->Some_0;
        let rest = encode_all::<C>(frames.skip(1))->Some_0;
        assert(stream == e0 + rest);
        assert(C::spec_decode(e0 + rest) == (Decoded::Frame {
            bytes: m0,
            used: e0.len() as int,
        }));
        assert((e0 + rest).skip(e0.len() as int) =~= rest);
        lemma_round_trip::<C>(frames.skip(1));
        assert(seq![m0] + frames.skip(1) =~= frames);
    }
}

/// Partial-delivery invariance, generalized over what is already buffered:
/// with an extension-stable decoder, delivering a stream in chunks yields
/// the same frames as delivering the buffered bytes followed by the whole
/// stream at once.
pub proof fn lemma_chunk_absorb<D: Decoder>(carry: Seq<u8>, chunks: Seq<Seq<u8>>)
    requires
        extension_stable::<D>(),
    ensures
        decode_chunked::<D>(carry, chunks) == decode_all::<D>(carry + concat_all(chunks)),
    decreases carry.len() + total_len(chunks), chunks.len(),
{
    if carry.len() == 0 {
        if chunks.len() == 0 {
            assert(carry + concat_all(chunks) =~= carry);
        } else {
            assert(carry + concat_all(chunks) =~= chunks[0] + concat_all(chunks.skip(1)));
            lemma_chunk_absorb::<D>(chunks[0], chunks.skip(1));
        }
    } else {
        let whole = carry + concat_all(chunks);
        match D::spec_decode(carry) {
            Decoded::Frame { bytes, used } => {
                assert(D::spec_decode(whole) == D::spec_decode(carry));
                assert(whole.skip(used) =~= carry.skip(used) + concat_all(chunks));
                lemma_chunk_absorb::<D>(carry.skip(used), chunks);
            },
            Decoded::More => {
                if chunks.len() == 0 {
                    assert(whole =~= carry);
                } else {
                    assert(whole =~= (carry + chunks[0]) + concat_all(chunks.skip(1)));
                    lemma_chunk_absorb::<D>(carry + chunks[0], chunks.skip(1));
                }
            },
            Decoded::Bad { .. } => {
                assert(D::spec_decode(whole) is Bad);
            },
        }
    }
}

/// The read engine consumes the pending stream one frame at a time: when a
/// call returns a frame (the witnesses here are those of its contract,
/// `read_progress`), the frames of the whole pending stream — buffered
/// bytes followed by undelivered bytes — are that frame followed by the
/// frames of the pending stream it leaves behind.
pub proof fn lemma_read_advances<D: Decoder>(
    pre: ReadView,
    post: ReadView,
    p: int,
    bytes: Seq<u8>,
    used: int,
)
    requires
        extension_stable::<D>(),
        0 <= p <= pre.inbound.len(),
        post.inbound == pre.inbound.skip(p),
        D::spec_decode(pre.buf + pre.inbound.take(p)) == (Decoded::Frame { bytes, used }),
        post.buf == (pre.buf + pre.inbound.take(p)).skip(used),
    ensures
        decode_all::<D>(pre.buf + pre.inbound) == (match decode_all::<D>(
            post.buf + post.inbound,
        ) {
            Some(rest) => Some(seq![bytes] + rest),
            None => None,
        }),
{
    let seen = pre.buf + pre.inbound.take(p);
    let whole = pre.buf + pre.inbound;
    assert(whole =~= seen + pre.inbound.skip(p));
    assert(D::spec_decode(seen + pre.inbound.skip(p)) == (Decoded::Frame { bytes, used }));
    assert(1 <= used <= seen.len());
    assert(whole.skip(used) =~= post.buf + post.inbound);
}

/// Complete transmission: the write engine's flush keeps the bytes ever
/// accepted by the channel plus the bytes still buffered constant and only
/// extends what the channel accepted, so a flush that ends with the buffer
/// drained leaves the channel holding exactly the bytes it already held
/// followed by the whole buffered content, in order — however many partial
/// writes it took.
pub proof fn lemma_flush_complete(out0: Seq<u8>, w0: Seq<u8>, out1: Seq<u8>, w1: Seq<u8>)
    requires
        out1 + w1 == out0 + w0,
        out0.is_prefix_of(out1),
        w1.len() == 0,
    ensures
        out1 == out0 + w0,
{
    assert(out1 =~= out1 + w1);
}

/// Partial-delivery invariance: splitting a byte stream into arbitrarily
/// many chunks and feeding them to the read engine one read at a time
/// yields the same decoded frame sequence as delivering the whole stream in
/// one read, for every extension-stable decoder.
pub proof fn lemma_partial_delivery<D: Decoder>(chunks: Seq<Seq<u8>>)
    requires
        extension_stable::<D>(),
    ensures
        decode_chunked::<D>(Seq::empty(), chunks) == decode_all::<D>(concat_all(chunks)),
{
    lemma_chunk_absorb::<D>(Seq::empty(), chunks);
    assert(Seq::<u8>::empty() + concat_all(chunks) =~= concat_all(chunks));
}

} // verus!
