use rate_tunnel::Bucket;
use rate_tunnel::ByteStream;
use rate_tunnel::IoErrorKind;
use rate_tunnel::RateLimitedStream;
use rate_tunnel::ReadOutcome;
use rate_tunnel::WriteOutcome;
use rate_tunnel::consumption_to_schedule;
use rate_tunnel::write_gate;

fn pattern(n: usize) -> Vec<u8> {
    (0..n).map(|i| (i % 251) as u8).collect()
}

#[test]
fn bucket_refill_consume_exact_values() {
    let mut b = Bucket::new(10, 100);
    assert_eq!(b.balance, 100);
    b.consume(30);
    assert_eq!(b.balance, 70);
    assert_eq!(b.consumed, 30);
    assert_eq!(b.outstanding, 30);
    b.refill(2);
    assert_eq!(b.balance, 90);
    b.refill(5);
    assert_eq!(b.balance, 100); // clamped at capacity
    assert_eq!(b.elapsed, 7);
    b.settle(30);
    assert_eq!(b.outstanding, 0);
    assert_eq!(b.consumed, 30);
}

#[test]
fn write_blocks_until_budget_recovers() {
    let mut bucket = Bucket::new(10, 50);
    let mut s = RateLimitedStream::wrap(ByteStream::open(Vec::new(), false, 4096));
    let data = pattern(100);
    assert_eq!(s.try_write(&mut bucket, &data), WriteOutcome::Written(100));
    assert_eq!(bucket.consumed, 100);
    assert_eq!(bucket.balance, -50);
    // the pending consumption has not resolved: nothing reaches the stream
    assert_eq!(s.try_write(&mut bucket, &data), WriteOutcome::WouldBlock);
    assert_eq!(bucket.consumed, 100);
    assert_eq!(s.io.outgoing.len(), 100);
    bucket.refill(4); // -50 + 40: still in debt
    assert_eq!(s.try_write(&mut bucket, &data), WriteOutcome::WouldBlock);
    bucket.refill(1); // balance back to zero: resolved
    assert_eq!(s.try_write(&mut bucket, &data), WriteOutcome::Written(100));
    assert_eq!(bucket.consumed, 200);
    assert_eq!(s.io.outgoing.len(), 200);
}

#[test]
fn throughput_bound_holds_across_writes() {
    let mut bucket = Bucket::new(100, 200);
    let mut s = RateLimitedStream::wrap(ByteStream::open(Vec::new(), false, 4096));
    let data = pattern(500);
    for _ in 0..50 {
        bucket.refill(1);
        s.try_write(&mut bucket, &data);
        // the bound of the bucket invariant, observed on live values
        assert!(
            i128::from(bucket.consumed)
                <= i128::from(bucket.capacity)
                    + i128::from(bucket.rate) * i128::from(bucket.elapsed)
                    + i128::from(bucket.outstanding)
        );
    }
    assert!(bucket.consumed > 0);
}

#[test]
fn consumption_sized_to_bytes_written_not_requested() {
    // the transport accepts only 60 of the 100 requested bytes
    let mut bucket = Bucket::new(10, 1000);
    let mut s = RateLimitedStream::wrap(ByteStream::open(Vec::new(), false, 60));
    let data = pattern(100);
    assert_eq!(s.try_write(&mut bucket, &data), WriteOutcome::Written(60));
    assert_eq!(bucket.consumed, 60);
    assert_eq!(s.throttle.pending, Some(60));
    assert_eq!(s.io.outgoing, data[..60].to_vec());
}

#[test]
fn at_most_one_pending_consumption() {
    let mut bucket = Bucket::new(1, 10);
    let mut s = RateLimitedStream::wrap(ByteStream::open(Vec::new(), false, 4096));
    let data = pattern(40);
    assert_eq!(s.try_write(&mut bucket, &data), WriteOutcome::Written(40));
    assert_eq!(s.throttle.pending, Some(40));
    assert_eq!(bucket.consumed, 40);
    // a blocked attempt neither charges nor re-schedules
    assert_eq!(s.try_write(&mut bucket, &data), WriteOutcome::WouldBlock);
    assert_eq!(s.throttle.pending, Some(40));
    assert_eq!(bucket.consumed, 40);
    assert_eq!(bucket.outstanding, 40);
}

#[test]
fn empty_write_schedules_nothing() {
    let mut bucket = Bucket::new(10, 100);
    let mut s = RateLimitedStream::wrap(ByteStream::open(Vec::new(), false, 4096));
    let empty: Vec<u8> = Vec::new();
    assert_eq!(s.try_write(&mut bucket, &empty), WriteOutcome::Written(0));
    assert_eq!(s.throttle.pending, None);
    assert_eq!(bucket.consumed, 0);
}

#[test]
fn passthrough_exact_bytes_in_order() {
    let mut bucket = Bucket::new(1000, 1000);
    let mut s = RateLimitedStream::wrap(ByteStream::open(Vec::new(), false, 4096));
    let a = b"hello ".to_vec();
    let b = b"world".to_vec();
    assert_eq!(s.try_write(&mut bucket, &a), WriteOutcome::Written(6));
    assert_eq!(s.try_write(&mut bucket, &b), WriteOutcome::Written(5));
    s.flush();
    assert_eq!(s.io.outgoing, b"hello world".to_vec());
}

#[test]
fn transport_not_ready_costs_nothing() {
    let mut bucket = Bucket::new(10, 100);
    let mut s = RateLimitedStream::wrap(ByteStream::open(Vec::new(), false, 0));
    let data = pattern(10);
    assert_eq!(s.try_write(&mut bucket, &data), WriteOutcome::WouldBlock);
    assert_eq!(bucket.consumed, 0);
    assert_eq!(s.throttle.pending, None);
}

#[test]
fn write_errors_propagate_verbatim() {
    for kind in [IoErrorKind::ConnectionReset, IoErrorKind::BrokenPipe, IoErrorKind::TimedOut] {
        let mut bucket = Bucket::new(10, 100);
        let mut io = ByteStream::open(Vec::new(), false, 4096);
        io.write_error = Some(kind);
        let mut s = RateLimitedStream::wrap(io);
        let data = pattern(10);
        assert_eq!(s.try_write(&mut bucket, &data), WriteOutcome::Failed(kind));
        assert_eq!(bucket.consumed, 0);
        assert!(s.io.outgoing.is_empty());
    }
}

#[test]
fn read_transparency_byte_for_byte() {
    let data = pattern(1000);
    let mut plain = ByteStream::open(data.clone(), true, 0);
    let mut wrapped = RateLimitedStream::wrap(ByteStream::open(data.clone(), true, 0));
    let mut bucket = Bucket::new(1, 1);
    for sz in [1usize, 7, 100, 400, 492, 64, 5] {
        let a = plain.try_read(sz);
        let b = wrapped.try_read(sz);
        match (a, b) {
            (ReadOutcome::Data(x), ReadOutcome::Data(y)) => assert_eq!(x, y),
            (ReadOutcome::Closed, ReadOutcome::Closed) => {}
            (ReadOutcome::WouldBlock, ReadOutcome::WouldBlock) => {}
            _ => panic!("adapter read diverged from the underlying stream"),
        }
    }
    // reads never consult the limiter
    assert_eq!(bucket.consumed, 0);
    assert_eq!(wrapped.throttle.pending, None);
}

#[test]
fn read_reports_close_then_stays_closed() {
    let mut s = RateLimitedStream::wrap(ByteStream::open(pattern(3), true, 0));
    match s.try_read(8) {
        ReadOutcome::Data(d) => assert_eq!(d, pattern(3)),
        _ => panic!("expected data"),
    }
    assert!(matches!(s.try_read(8), ReadOutcome::Closed));
    assert!(matches!(s.try_read(8), ReadOutcome::Closed));
}

#[test]
fn read_would_block_when_nothing_queued() {
    let mut s = RateLimitedStream::wrap(ByteStream::open(Vec::new(), false, 0));
    assert!(matches!(s.try_read(8), ReadOutcome::WouldBlock));
}

#[test]
fn read_errors_propagate_verbatim() {
    let mut io = ByteStream::open(pattern(10), false, 0);
    io.read_error = Some(IoErrorKind::ConnectionReset);
    let mut s = RateLimitedStream::wrap(io);
    match s.try_read(8) {
        ReadOutcome::Failed(e) => assert_eq!(e, IoErrorKind::ConnectionReset),
        _ => panic!("expected the injected read failure"),
    }
}

#[test]
fn gate_and_schedule_decisions() {
    assert!(write_gate(false, false));
    assert!(write_gate(false, true));
    assert!(!write_gate(true, false));
    assert!(write_gate(true, true));
    assert_eq!(consumption_to_schedule(0), None);
    assert_eq!(consumption_to_schedule(17), Some(17));
}
