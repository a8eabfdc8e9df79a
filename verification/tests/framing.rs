use framed::BytesCodec;
use framed::Framed;
use framed::FramedRead;
use framed::FramedWrite;
use framed::FrameError;
use framed::MemChannel;
use framed::PollStep;
use framed::QuadCodec;
use framed::Fuse;
use framed::framed_read_2;
use framed::framed_write_2;

fn ready_frame(step: PollStep<Option<Result<bytes::Bytes, FrameError>>>) -> bytes::Bytes {
    match step {
        PollStep::Ready(Some(Ok(b))) => b,
        _ => panic!("expected a frame"),
    }
}

#[test]
fn decodes() {
    let buf = [0u8; 32];
    let expected = buf.clone();
    let chan = MemChannel::new(buf.to_vec());
    let mut framed = Framed::new(chan, BytesCodec {});

    let read = ready_frame(framed.poll_next());
    assert_eq!(&read[..], &expected[..]);

    assert!(matches!(framed.poll_next(), PollStep::Ready(None)));
}

#[test]
fn hello_world() {
    let chan = MemChannel::new(Vec::new());
    let mut framed = FramedWrite::new(chan, BytesCodec {});

    assert!(framed.start_send(bytes::Bytes::copy_from_slice(b"Hello ")).is_ok());
    assert!(matches!(framed.poll_flush(), PollStep::Ready(Ok(()))));
    assert!(framed.start_send(bytes::Bytes::copy_from_slice(b"world!")).is_ok());
    assert!(matches!(framed.poll_flush(), PollStep::Ready(Ok(()))));

    let (chan, _codec) = framed.release();
    assert_eq!(&chan.written()[..], b"Hello world!");
}

#[test]
fn one_byte_writes() {
    let chan = MemChannel::with_limits(Vec::new(), 1, 1);
    let mut framed = FramedWrite::new(chan, BytesCodec {});

    assert!(framed.start_send(bytes::Bytes::copy_from_slice(b"partial writes")).is_ok());
    assert!(matches!(framed.poll_flush(), PollStep::Ready(Ok(()))));

    let (chan, _codec) = framed.release();
    assert_eq!(&chan.written()[..], b"partial writes");
}

#[test]
fn clean_eof() {
    let chan = MemChannel::new(Vec::new());
    let mut framed = Framed::new(chan, BytesCodec {});

    assert!(matches!(framed.poll_next(), PollStep::Ready(None)));
    assert!(matches!(framed.poll_next(), PollStep::Ready(None)));
}

#[test]
fn truncation_detected() {
    let chan = MemChannel::new(vec![1u8, 2]);
    let mut reader = FramedRead::new(chan, QuadCodec {});

    assert!(matches!(
        reader.poll_next(),
        PollStep::Ready(Some(Err(FrameError::Truncated)))
    ));
}

#[test]
fn chunked_delivery_matches_whole() {
    let input: Vec<u8> = vec![1, 2, 3, 4, 5, 6, 7, 8];

    let mut in_chunks = Vec::new();
    let mut reader = FramedRead::new(MemChannel::with_limits(input.clone(), 3, 1), QuadCodec {});
    loop {
        match reader.poll_next() {
            PollStep::Ready(Some(Ok(frame))) => in_chunks.push(frame),
            PollStep::Ready(None) => break,
            _ => panic!("unexpected outcome"),
        }
    }

    let mut whole = Vec::new();
    let mut reader = FramedRead::new(MemChannel::new(input), QuadCodec {});
    loop {
        match reader.poll_next() {
            PollStep::Ready(Some(Ok(frame))) => whole.push(frame),
            PollStep::Ready(None) => break,
            _ => panic!("unexpected outcome"),
        }
    }

    assert_eq!(in_chunks, whole);
    assert_eq!(in_chunks, vec![vec![1u8, 2, 3, 4], vec![5u8, 6, 7, 8]]);
}

#[test]
fn quad_round_trip() {
    let frames: Vec<Vec<u8>> = vec![vec![10, 20, 30, 40], vec![50, 60, 70, 80]];

    let mut writer = FramedWrite::new(MemChannel::new(Vec::new()), QuadCodec {});
    for f in &frames {
        assert!(writer.start_send(f.clone()).is_ok());
    }
    assert!(matches!(writer.poll_flush(), PollStep::Ready(Ok(()))));
    let (chan, _codec) = writer.release();
    let stream = chan.written().clone();

    let mut reader = FramedRead::new(MemChannel::new(stream), QuadCodec {});
    let mut decoded = Vec::new();
    loop {
        match reader.poll_next() {
            PollStep::Ready(Some(Ok(frame))) => decoded.push(frame),
            PollStep::Ready(None) => break,
            _ => panic!("unexpected outcome"),
        }
    }
    assert_eq!(decoded, frames);
}

#[test]
fn bytes_round_trip() {
    let payload = b"one message".to_vec();

    let mut writer = FramedWrite::new(MemChannel::new(Vec::new()), BytesCodec {});
    assert!(writer.start_send(bytes::Bytes::copy_from_slice(&payload)).is_ok());
    assert!(matches!(writer.poll_flush(), PollStep::Ready(Ok(()))));
    let (chan, _codec) = writer.release();

    let mut reader = FramedRead::new(MemChannel::new(chan.written().clone()), BytesCodec {});
    match reader.poll_next() {
        PollStep::Ready(Some(Ok(frame))) => assert_eq!(&frame[..], &payload[..]),
        _ => panic!("expected a frame"),
    }
    assert!(matches!(reader.poll_next(), PollStep::Ready(None)));
}

#[test]
fn encode_reject_leaves_buffer() {
    let mut writer = FramedWrite::new(MemChannel::new(Vec::new()), QuadCodec {});

    assert!(writer.start_send(vec![1u8, 2, 3, 4]).is_ok());
    match writer.start_send(vec![9u8, 9]) {
        Err(FrameError::Codec(_)) => {},
        _ => panic!("expected an encode rejection"),
    }
    assert!(matches!(writer.poll_flush(), PollStep::Ready(Ok(()))));

    let (chan, _codec) = writer.release();
    assert_eq!(&chan.written()[..], &[1u8, 2, 3, 4]);
}

#[test]
fn idempotent_close() {
    let mut writer = FramedWrite::new(MemChannel::new(Vec::new()), BytesCodec {});
    assert!(writer.start_send(bytes::Bytes::copy_from_slice(b"bye")).is_ok());

    assert!(matches!(writer.poll_close(), PollStep::Ready(Ok(()))));
    assert!(matches!(writer.poll_close(), PollStep::Ready(Ok(()))));

    let (chan, _codec) = writer.release();
    assert!(chan.is_closed());
    assert_eq!(&chan.written()[..], b"bye");
}

#[test]
fn write_after_close_fails() {
    let mut writer = FramedWrite::new(MemChannel::new(Vec::new()), BytesCodec {});
    assert!(matches!(writer.poll_close(), PollStep::Ready(Ok(()))));

    assert!(writer.start_send(bytes::Bytes::copy_from_slice(b"late")).is_ok());
    assert!(matches!(
        writer.poll_flush(),
        PollStep::Ready(Err(FrameError::Io(_)))
    ));
}

#[test]
fn engine_layer_direct() {
    let fused = Fuse(MemChannel::new(Vec::new()), BytesCodec {});
    let mut engine = framed_write_2(fused);

    assert!(matches!(engine.poll_ready(), PollStep::Ready(Ok(()))));
    assert!(engine.start_send(bytes::Bytes::copy_from_slice(b"layered")).is_ok());
    assert!(matches!(engine.poll_flush(), PollStep::Ready(Ok(()))));
    assert!(matches!(engine.poll_close(), PollStep::Ready(Ok(()))));

    let reader = framed_read_2(Fuse(MemChannel::new(b"layered".to_vec()), BytesCodec {}));
    let mut reader = reader;
    let frame = ready_frame(reader.poll_next());
    assert_eq!(&frame[..], b"layered");
}
