use framed::BytesCodec;
use framed::ChannelRead;
use framed::ChannelWrite;
use framed::Fuse;
use framed::MemChannel;
use framed::PollStep;

fn ready_chunk(step: PollStep<Result<Vec<u8>, framed::IoFault>>) -> Vec<u8> {
    match step {
        PollStep::Ready(Ok(chunk)) => chunk,
        _ => panic!("expected a chunk"),
    }
}

#[test]
fn capped_reads() {
    let mut chan = MemChannel::with_limits(vec![1u8, 2, 3], 2, 1);

    assert_eq!(ready_chunk(chan.read(10)), vec![1u8, 2]);
    assert_eq!(ready_chunk(chan.read(10)), vec![3u8]);
    assert_eq!(ready_chunk(chan.read(10)), Vec::<u8>::new());
}

#[test]
fn partial_write_appends_prefix() {
    let mut chan = MemChannel::with_limits(Vec::new(), 1, 2);

    match chan.write(&[7u8, 8, 9]) {
        PollStep::Ready(Ok(n)) => assert_eq!(n, 2),
        _ => panic!("expected a partial write"),
    }
    assert_eq!(&chan.written()[..], &[7u8, 8]);

    assert!(matches!(chan.flush(), PollStep::Ready(Ok(()))));
    assert!(matches!(chan.close(), PollStep::Ready(Ok(()))));
    assert!(chan.is_closed());
}

#[test]
fn fuse_hands_out_the_channel() {
    let mut fused = Fuse(MemChannel::new(vec![5u8, 6]), BytesCodec {});

    let chan = fused.pinned_t();
    assert_eq!(ready_chunk(chan.read(10)), vec![5u8, 6]);
}
