use future_utils::{FramedUnbuffered, ReadStep, StartSend, WriteStep};

/// Writes each message through `tx`, `max_write` bytes at most per write, and
/// returns the bytes that went out.
fn write_all(tx: &mut FramedUnbuffered<()>, msgs: &[Vec<u8>], max_write: usize) -> Vec<u8> {
    let mut wire = Vec::new();
    for m in msgs {
        assert!(matches!(tx.start_send(m.clone()), StartSend::Ready));
        loop {
            let chunk = tx.unwritten();
            let n = chunk.len().min(max_write);
            wire.extend_from_slice(&chunk[..n]);
            match tx.on_written(n) {
                WriteStep::Continue => {}
                WriteStep::Flushed => break,
                WriteStep::BrokenPipe => panic!("unexpected broken pipe"),
            }
        }
    }
    wire
}

/// Reads `wire` through `rx`, `max_read` bytes at most per read, until the
/// bytes run out, and returns the messages and the final step.
fn read_all(rx: &mut FramedUnbuffered<()>, wire: &[u8], max_read: usize) -> (Vec<Vec<u8>>, ReadStep) {
    let mut pos = 0;
    let mut msgs = Vec::new();
    loop {
        let want = rx.read_window().min(max_read);
        let end = (pos + want).min(wire.len());
        let chunk = &wire[pos..end];
        pos = end;
        match rx.on_read(chunk) {
            ReadStep::Continue => {}
            ReadStep::Message(m) => msgs.push(m),
            other => return (msgs, other),
        }
    }
}

fn pseudo_random(n: usize) -> Vec<u8> {
    let mut x: u32 = 0x1234_5678;
    (0..n)
        .map(|_| {
            x ^= x << 13;
            x ^= x >> 17;
            x ^= x << 5;
            (x >> 24) as u8
        })
        .collect()
}

#[test]
fn framed_round_trip_keeps_messages_in_order() {
    let msgs = vec![
        b"".to_vec(),
        b"a".to_vec(),
        b"hello world".to_vec(),
        pseudo_random(64 * 1024),
    ];
    let mut tx = FramedUnbuffered::new(());
    let wire = write_all(&mut tx, &msgs, 7);
    assert_eq!(wire.len(), 4 * 4 + 1 + 11 + 64 * 1024);
    let mut rx = FramedUnbuffered::new(());
    let (got, last) = read_all(&mut rx, &wire, 5);
    assert_eq!(got, msgs);
    assert!(matches!(last, ReadStep::End));
}

#[test]
fn framed_round_trip_with_whole_reads_and_writes() {
    let msgs = vec![b"x".to_vec(), vec![7u8; 300], b"".to_vec()];
    let mut tx = FramedUnbuffered::new(());
    let wire = write_all(&mut tx, &msgs, usize::MAX);
    let mut rx = FramedUnbuffered::new(());
    let (got, last) = read_all(&mut rx, &wire, usize::MAX);
    assert_eq!(got, msgs);
    assert!(matches!(last, ReadStep::End));
}

#[test]
fn framed_wire_format_is_big_endian_length_then_payload() {
    let mut tx = FramedUnbuffered::new(());
    let wire = write_all(&mut tx, &[b"a".to_vec()], 100);
    assert_eq!(wire, vec![0, 0, 0, 1, b'a']);
    let mut tx = FramedUnbuffered::new(());
    let wire = write_all(&mut tx, &[vec![9u8; 258]], 100);
    assert_eq!(&wire[..4], &[0, 0, 1, 2]);
    assert_eq!(wire.len(), 262);
    let mut tx = FramedUnbuffered::new(());
    let wire = write_all(&mut tx, &[Vec::new()], 100);
    assert_eq!(wire, vec![0, 0, 0, 0]);
}

#[test]
fn framed_read_window_follows_the_frame() {
    let mut rx = FramedUnbuffered::new(());
    assert_eq!(rx.read_window(), 4);
    assert!(matches!(rx.on_read(&[0, 0]), ReadStep::Continue));
    assert_eq!(rx.read_window(), 2);
    assert!(matches!(rx.on_read(&[1, 0]), ReadStep::Continue));
    assert_eq!(rx.read_window(), 256);
    assert!(matches!(rx.on_read(&[1u8; 100]), ReadStep::Continue));
    assert_eq!(rx.read_window(), 156);
    match rx.on_read(&[2u8; 156]) {
        ReadStep::Message(m) => {
            assert_eq!(m.len(), 256);
            assert!(m[..100].iter().all(|b| *b == 1));
            assert!(m[100..].iter().all(|b| *b == 2));
        }
        _ => panic!("expected a message"),
    }
    assert_eq!(rx.read_window(), 4);
}

#[test]
fn framed_zero_byte_read_between_frames_is_end() {
    let mut rx = FramedUnbuffered::new(());
    assert!(matches!(rx.on_read(&[]), ReadStep::End));
}

#[test]
fn framed_zero_byte_read_inside_size_is_broken_pipe() {
    let mut rx = FramedUnbuffered::new(());
    assert!(matches!(rx.on_read(&[0, 0, 0]), ReadStep::Continue));
    assert!(matches!(rx.on_read(&[]), ReadStep::BrokenPipe));
}

#[test]
fn framed_zero_byte_read_inside_payload_is_broken_pipe() {
    let mut rx = FramedUnbuffered::new(());
    assert!(matches!(rx.on_read(&[0, 0, 0, 3]), ReadStep::Continue));
    assert!(matches!(rx.on_read(&[b'a']), ReadStep::Continue));
    assert!(matches!(rx.on_read(&[]), ReadStep::BrokenPipe));
}

#[test]
fn framed_zero_length_payload_arrives_with_its_size() {
    let mut rx = FramedUnbuffered::new(());
    match rx.on_read(&[0, 0, 0, 0]) {
        ReadStep::Message(m) => assert!(m.is_empty()),
        _ => panic!("expected an empty message"),
    }
}

#[test]
fn framed_start_send_refuses_while_in_flight() {
    let mut tx = FramedUnbuffered::new(());
    assert!(matches!(tx.start_send(b"one".to_vec()), StartSend::Ready));
    match tx.start_send(b"two".to_vec()) {
        StartSend::NotReady(back) => assert_eq!(back, b"two".to_vec()),
        StartSend::Ready => panic!("a second message was taken"),
    }
    assert_eq!(tx.unwritten(), &[0, 0, 0, 3]);
    assert!(matches!(tx.on_written(4), WriteStep::Continue));
    assert_eq!(tx.unwritten(), b"one");
    assert!(matches!(tx.on_written(3), WriteStep::Flushed));
    assert!(tx.unwritten().is_empty());
    assert!(matches!(tx.start_send(b"two".to_vec()), StartSend::Ready));
}

#[test]
fn framed_zero_byte_write_is_broken_pipe() {
    let mut tx = FramedUnbuffered::new(());
    assert!(matches!(tx.start_send(b"abc".to_vec()), StartSend::Ready));
    assert!(matches!(tx.on_written(0), WriteStep::BrokenPipe));
    assert_eq!(tx.unwritten(), &[0, 0, 0, 3]);
}

#[test]
fn framed_short_writes_resume_at_the_exact_offset() {
    let mut tx = FramedUnbuffered::new(());
    assert!(matches!(tx.start_send(b"hello".to_vec()), StartSend::Ready));
    assert!(matches!(tx.on_written(3), WriteStep::Continue));
    assert_eq!(tx.unwritten(), &[5]);
    assert!(matches!(tx.on_written(1), WriteStep::Continue));
    assert!(matches!(tx.on_written(2), WriteStep::Continue));
    assert_eq!(tx.unwritten(), b"llo");
}

#[test]
fn framed_into_inner_when_idle() {
    let framed = FramedUnbuffered::new(42u32);
    assert_eq!(framed.into_inner(), Some(42));
}

#[test]
fn framed_into_inner_mid_read_is_none() {
    let mut framed = FramedUnbuffered::new(42u32);
    assert!(matches!(framed.on_read(&[0, 0]), ReadStep::Continue));
    assert_eq!(framed.into_inner(), None);
}

#[test]
fn framed_into_inner_mid_write_is_none() {
    let mut framed = FramedUnbuffered::new(42u32);
    assert!(matches!(framed.start_send(b"hi".to_vec()), StartSend::Ready));
    assert_eq!(framed.into_inner(), None);
}

#[test]
fn framed_into_inner_after_whole_frames() {
    let mut framed = FramedUnbuffered::new(42u32);
    assert!(matches!(framed.start_send(b"hi".to_vec()), StartSend::Ready));
    assert!(matches!(framed.on_written(4), WriteStep::Continue));
    assert!(matches!(framed.on_written(2), WriteStep::Flushed));
    assert!(matches!(framed.on_read(&[0, 0, 0, 1]), ReadStep::Continue));
    assert!(matches!(framed.on_read(&[9]), ReadStep::Message(_)));
    assert_eq!(framed.into_inner(), Some(42));
}

#[test]
fn framed_get_mut_reaches_the_stream() {
    let mut framed = FramedUnbuffered::new(1u32);
    *framed.get_mut() = 5;
    assert_eq!(framed.into_inner(), Some(5));
}

#[test]
fn framed_empty_payload_is_flushed_after_its_size() {
    let mut tx = FramedUnbuffered::new(());
    assert!(matches!(tx.start_send(Vec::new()), StartSend::Ready));
    assert_eq!(tx.unwritten(), &[0, 0, 0, 0]);
    assert!(matches!(tx.on_written(4), WriteStep::Flushed));
    assert!(tx.unwritten().is_empty());
}
