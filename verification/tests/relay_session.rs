use rate_tunnel::Bucket;
use rate_tunnel::ByteStream;
use rate_tunnel::IoErrorKind;
use rate_tunnel::TunnelRelay;
use rate_tunnel::CHUNK;

fn pattern(n: usize) -> Vec<u8> {
    (0..n).map(|i| (i % 251) as u8).collect()
}

#[test]
fn connect_refused_returns_error_and_no_activity() {
    let client = ByteStream::open(pattern(10), false, 100);
    match TunnelRelay::open(client, Err(IoErrorKind::ConnectionRefused), 1000, 1000) {
        Err(e) => assert_eq!(e, IoErrorKind::ConnectionRefused),
        Ok(_) => panic!("a refused connect must not yield a session"),
    }
}

#[test]
fn connect_timeout_returns_error() {
    let client = ByteStream::open(Vec::new(), false, 100);
    match TunnelRelay::open(client, Err(IoErrorKind::TimedOut), 1000, 1000) {
        Err(e) => assert_eq!(e, IoErrorKind::TimedOut),
        Ok(_) => panic!("a failed connect must not yield a session"),
    }
}

#[test]
fn session_ends_when_target_closes() {
    // the target closes cleanly after 3000 bytes while the client keeps sending
    let client = ByteStream::open(pattern(100_000), false, 4096);
    let target = ByteStream::open(pattern(3000), true, 4096);
    let mut s = TunnelRelay::open(client, Ok(target), 1_000_000, 1_000_000).unwrap();
    let done = s.run(10_000);
    assert!(done);
    let (c2t, t2c) = s.counts();
    // everything the target sent reached the client, in order
    assert_eq!(t2c, 3000);
    assert_eq!(s.client.io.outgoing, pattern(3000));
    // the counters are the bytes actually moved in each direction
    assert_eq!(c2t as usize, s.target.io.outgoing.len());
    // both streams are released
    assert!(s.client.io.shut);
    assert!(s.target.io.shut);
    assert!(s.failure.is_none());
}

#[test]
fn run_to_close_reaches_closed_without_fuel() {
    // same premise as the termination theorem: the target has closed cleanly,
    // the client accepts bytes
    let client = ByteStream::open(pattern(20_000), false, 4096);
    let target = ByteStream::open(pattern(5000), true, 4096);
    let mut s = TunnelRelay::open(client, Ok(target), 100, 100).unwrap();
    s.run_to_close();
    let (_, t2c) = s.counts();
    assert_eq!(t2c, 5000);
    assert_eq!(s.client.io.outgoing, pattern(5000));
    assert!(s.client.io.shut);
    assert!(s.target.io.shut);
}

#[test]
fn client_close_terminates_and_delivers_everything() {
    // the client closes cleanly after its bytes; the target never closes but
    // accepts writes — the session still terminates, with full delivery
    let client = ByteStream::open(pattern(30_000), true, 4096);
    let target = ByteStream::open(Vec::new(), false, 4096);
    let mut s = TunnelRelay::open(client, Ok(target), 1_000_000, 1_000_000).unwrap();
    s.run_to_close();
    let (c2t, t2c) = s.counts();
    assert_eq!(c2t, 30_000);
    assert_eq!(t2c, 0);
    assert_eq!(s.target.io.outgoing, pattern(30_000));
    assert!(s.failure.is_none());
    assert!(s.client.io.shut);
    assert!(s.target.io.shut);
}

#[test]
fn read_failure_premise_terminates_with_cause() {
    // a failing read side also guarantees termination: every read answers
    let client = ByteStream::open(pattern(10_000), false, 4096);
    let mut target = ByteStream::open(pattern(10_000), false, 4096);
    target.read_error = Some(IoErrorKind::TimedOut);
    let mut s = TunnelRelay::open(client, Ok(target), 1_000_000, 1_000_000).unwrap();
    s.run_to_close();
    assert_eq!(s.failure, Some(IoErrorKind::TimedOut));
    assert!(s.client.io.shut);
    assert!(s.target.io.shut);
}

#[test]
fn write_failure_terminates_session_with_cause() {
    let client = ByteStream::open(pattern(10_000), false, 4096);
    let mut target = ByteStream::open(Vec::new(), false, 4096);
    target.write_error = Some(IoErrorKind::ConnectionReset);
    let mut s = TunnelRelay::open(client, Ok(target), 1_000_000, 1_000_000).unwrap();
    let done = s.run(10_000);
    assert!(done);
    assert_eq!(s.failure, Some(IoErrorKind::ConnectionReset));
    assert!(s.client.io.shut);
    assert!(s.target.io.shut);
    // the failed write delivered nothing
    assert!(s.target.io.outgoing.is_empty());
}

#[test]
fn read_failure_terminates_session_with_cause() {
    let client = ByteStream::open(pattern(10_000), false, 4096);
    let mut target = ByteStream::open(pattern(10_000), true, 4096);
    target.read_error = Some(IoErrorKind::HostUnreachable);
    let mut s = TunnelRelay::open(client, Ok(target), 1_000_000, 1_000_000).unwrap();
    let done = s.run(10_000);
    assert!(done);
    assert_eq!(s.failure, Some(IoErrorKind::HostUnreachable));
    assert!(s.client.io.shut);
    assert!(s.target.io.shut);
}

#[test]
fn shared_bucket_bounds_both_directions_together() {
    // both directions push hard through the one shared bucket
    let client = ByteStream::open(pattern(50_000), true, 8192);
    let target = ByteStream::open(pattern(50_000), true, 8192);
    let mut s = TunnelRelay::open(client, Ok(target), 1000, 1000).unwrap();
    let done = s.run(500_000);
    assert!(done);
    let (a, b) = s.counts();
    assert!(a > 0 && b > 0);
    // one bucket accounts for the sum of both directions
    assert_eq!(s.bucket.consumed, a + b);
    // combined throughput is capped by the single configured rate plus burst,
    // not by twice the rate
    assert!(
        u128::from(a) + u128::from(b)
            <= u128::from(s.bucket.capacity)
                + u128::from(s.bucket.rate) * u128::from(s.bucket.elapsed)
                + 2 * (CHUNK as u128)
    );
}

#[test]
fn end_to_end_five_megabytes_takes_five_seconds() {
    // rate 1,000,000 bytes/second, at one-millisecond ticks: 1000 bytes a tick
    let data = pattern(5_000_000);
    let client = ByteStream::open(data.clone(), true, 1 << 30);
    let target = ByteStream::open(Vec::new(), false, 1 << 30);
    let mut s = TunnelRelay::open(client, Ok(target), 1000, 1000).unwrap();
    let done = s.run(100_000);
    assert!(done);
    let (c2t, t2c) = s.counts();
    assert_eq!(c2t, 5_000_000);
    assert_eq!(t2c, 0);
    // every byte arrived, in order
    assert_eq!(s.target.io.outgoing, data);
    // the transfer could not beat the configured rate: at least ~5 seconds
    assert!(s.bucket.elapsed >= 4991);
    assert!(s.failure.is_none());
}

#[test]
fn relay_uses_one_bucket_not_two() {
    // a session's bucket starts with the configured rate and capacity and is
    // the only budget either direction draws from
    let client = ByteStream::open(pattern(100), true, 4096);
    let target = ByteStream::open(pattern(100), true, 4096);
    let s = TunnelRelay::open(client, Ok(target), 7, 21).unwrap();
    assert_eq!(s.bucket.rate, 7);
    assert_eq!(s.bucket.capacity, 21);
    assert_eq!(s.bucket.consumed, 0);
    let probe = Bucket::new(7, 21);
    assert_eq!(probe.balance, 21);
}
