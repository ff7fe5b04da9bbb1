use vstd::prelude::*;
use crate::bucket::Bucket;
use crate::bucket::MAX_BUDGET;
use crate::io::ByteStream;
use crate::io::IoErrorKind;
use crate::io::ReadOutcome;
use crate::io::WriteOutcome;
use crate::stream::RateLimitedStream;

verus! {

/// How many bytes one copy step reads at a time. Also the most one direction
/// ever holds in flight, and so the most one scheduled consumption weighs.
pub const CHUNK: usize = 8192;

/// One direction of the relay: the staging buffer between its source's reads
/// and its destination's throttled writes, and its progress.
pub struct CopyDirection {
    /// Bytes read from the source and not yet accepted by the destination.
    pub buf: Vec<u8>,
    /// How many of `buf` the destination has already accepted.
    pub pos: usize,
    /// Whether the source reported a clean end of stream.
    pub src_eof: bool,
    /// Bytes moved end to end: accepted by the destination.
    pub moved: u64,
}

impl CopyDirection {
    pub open spec fn wf(self) -> bool {
        &&& self.pos <= self.buf@.len()
        &&& self.buf@.len() <= CHUNK as int
    }

    /// Bytes read but not yet written through.
    pub open spec fn inflight(self) -> Seq<u8> {
        self.buf@.skip(self.pos as int)
    }

    /// The direction is complete: the source closed cleanly and everything
    /// read has been written through.
    pub open spec fn done(self) -> bool {
        self.src_eof && self.pos == self.buf@.len()
    }

    pub fn new() -> (d: CopyDirection)
        ensures
            d.wf(),
            d.buf@ == Seq::<u8>::empty(),
            d.pos == 0,
            !d.src_eof,
            d.moved == 0,
    {
        CopyDirection { buf: Vec::new(), pos: 0, src_eof: false, moved: 0 }
    }
}

/// The copy of `v` from `from` to its end.
fn tail(v: &Vec<u8>, from: usize) -> (r: Vec<u8>)
    requires
        from <= v@.len(),
    ensures
        r@ == v@.skip(from as int),
{
    let mut r: Vec<u8> = Vec::new();
    let mut i: usize = from;
    let vlen = v.len();
    proof {
        assert(r@ =~= v@.subrange(from as int, from as int));
    }
    while i < vlen
        invariant
            from <= i <= v@.len(),
            vlen == v@.len(),
            r@ == v@.subrange(from as int, i as int),
        decreases v@.len() - i,
    {
        let b = v[i];
        r.push(b);
        i = i + 1;
        proof {
            assert(r@ =~= v@.subrange(from as int, i as int));
        }
    }
    proof {
        assert(v@.subrange(from as int, v@.len() as int) =~= v@.skip(from as int));
    }
    r
}

/// One cooperative step of one direction: pull the next chunk from the source
/// when the staging buffer is drained, otherwise push the buffer on through
/// the destination's throttled write path. Reports a write failure; "not
/// ready" in either half just leaves the direction where it was.
fn step_direction(
    dir: &mut CopyDirection,
    src: &mut RateLimitedStream,
    dst: &mut RateLimitedStream,
    bucket: &mut Bucket,
) -> (err: Option<IoErrorKind>)
    requires
        old(dir).wf(),
        old(src).wf(),
        old(dst).wf(),
        old(bucket).wf(),
        old(dst).throttle.pending_bytes() <= old(bucket).outstanding,
        old(dst).throttle.pending_bytes() <= CHUNK as int,
        old(bucket).outstanding + CHUNK <= MAX_BUDGET,
        old(bucket).consumed + CHUNK <= u64::MAX,
        old(dir).moved + CHUNK <= u64::MAX,
        // conservation: everything read from the source is on the
        // destination's wire or still in flight
        old(src).io.read_prefix() == old(dst).io.outgoing@ + old(dir).inflight(),
        old(dir).moved == old(dst).io.outgoing@.len(),
        // a recorded end of stream is authentic: the source had closed and
        // was read to its end
        old(dir).src_eof ==> old(src).io.peer_closed
            && old(src).io.read_pos == old(src).io.incoming@.len(),
    ensures
        final(dir).wf(),
        final(src).wf(),
        final(dst).wf(),
        final(bucket).wf(),
        final(dst).throttle.pending_bytes() <= final(bucket).outstanding,
        final(dst).throttle.pending_bytes() <= CHUNK as int,
        final(bucket).outstanding - final(dst).throttle.pending_bytes()
            == old(bucket).outstanding - old(dst).throttle.pending_bytes(),
        final(bucket).rate == old(bucket).rate,
        final(bucket).capacity == old(bucket).capacity,
        final(bucket).elapsed == old(bucket).elapsed,
        // the source is only read from, never written to
        final(src).throttle == old(src).throttle,
        final(src).io.incoming == old(src).io.incoming,
        final(src).io.peer_closed == old(src).io.peer_closed,
        final(src).io.outgoing == old(src).io.outgoing,
        final(src).io.accept == old(src).io.accept,
        final(src).io.read_error == old(src).io.read_error,
        final(src).io.write_error == old(src).io.write_error,
        final(src).io.shut == old(src).io.shut,
        // the destination is only written to, never read from
        final(dst).io.incoming == old(dst).io.incoming,
        final(dst).io.read_pos == old(dst).io.read_pos,
        final(dst).io.peer_closed == old(dst).io.peer_closed,
        final(dst).io.accept == old(dst).io.accept,
        final(dst).io.read_error == old(dst).io.read_error,
        final(dst).io.write_error == old(dst).io.write_error,
        final(dst).io.shut == old(dst).io.shut,
        // conservation and the count are maintained
        final(src).io.read_prefix() == final(dst).io.outgoing@ + final(dir).inflight(),
        final(dir).moved == final(dst).io.outgoing@.len(),
        final(bucket).consumed - old(bucket).consumed == final(dir).moved - old(dir).moved,
        // end of stream is only ever observed, never forgotten, and never
        // fabricated: it stands only once the closed source is read to its end
        old(dir).src_eof ==> final(dir).src_eof,
        final(dir).src_eof ==> final(src).io.peer_closed
            && final(src).io.read_pos == final(src).io.incoming@.len(),
        old(dir).done() ==> *final(dir) == *old(dir),
        // a failure is one of the two streams' own verdicts
        err is Some ==> err == old(dst).io.write_error || err == old(src).io.read_error,
        // moving bytes is the only thing the bucket is charged for, one
        // chunk at most
        final(dir).moved >= old(dir).moved,
        final(dir).moved - old(dir).moved <= CHUNK as int,
        final(bucket).balance as int == old(bucket).balance as int - (final(dir).moved
            - old(dir).moved),
        // the bytes still to move through this direction never increase, and
        // strictly fall whenever the count advances
        2 * final(src).io.unread() + final(dir).inflight().len() <= 2 * old(src).io.unread()
            + old(dir).inflight().len(),
        final(dir).moved > old(dir).moved ==> 2 * final(src).io.unread()
            + final(dir).inflight().len() < 2 * old(src).io.unread() + old(dir).inflight().len(),
        // progress: with the source bound to answer every read (closed, or
        // failing), the destination accepting bytes, and no unresolved
        // consumption gating the write, one step moves bytes, completes the
        // direction, or reports failure
        (!old(dir).done() && (old(src).io.peer_closed || old(src).io.read_error is Some) && old(
            dst,
        ).io.accept >= 1 && !(old(dst).throttle.pending is Some && old(bucket).balance < 0)) ==> (2
            * final(src).io.unread() + final(dir).inflight().len() < 2 * old(src).io.unread()
            + old(dir).inflight().len()) || final(dir).done() || err is Some,
{
    if dir.pos == dir.buf.len() && !dir.src_eof {
        // staging buffer drained: pull the next chunk from the source
        let r = src.try_read(CHUNK);
        match r {
            ReadOutcome::Data(d) => {
                proof {
                    assert(old(dir).inflight() =~= Seq::<u8>::empty());
                    assert(old(src).io.read_prefix() =~= old(dst).io.outgoing@);
                    assert(src.io.read_prefix() =~= old(src).io.read_prefix() + d@);
                }
                dir.buf = d;
                dir.pos = 0;
                proof {
                    assert(dir.inflight() =~= dir.buf@);
                    assert(src.io.read_prefix() =~= dst.io.outgoing@ + dir.inflight());
                }
                None
            }
            ReadOutcome::Closed => {
                dir.src_eof = true;
                None
            }
            ReadOutcome::WouldBlock => None,
            ReadOutcome::Failed(e) => Some(e),
        }
    } else if dir.pos < dir.buf.len() {
        // push what is staged through the throttled write path
        let rest = tail(&dir.buf, dir.pos);
        let r = dst.try_write(bucket, &rest);
        match r {
            WriteOutcome::Written(n) => {
                proof {
                    assert(rest@.take(n as int) =~= dir.buf@.subrange(
                        dir.pos as int,
                        dir.pos + n,
                    ));
                    assert(old(dir).inflight() =~= dir.buf@.subrange(dir.pos as int, dir.pos + n)
                        + dir.buf@.skip(dir.pos + n));
                }
                dir.pos = dir.pos + n;
                dir.moved = dir.moved + (n as u64);
                proof {
                    assert(src.io.read_prefix() =~= dst.io.outgoing@ + dir.inflight());
                }
                None
            }
            WriteOutcome::WouldBlock => None,
            WriteOutcome::Failed(e) => Some(e),
        }
    } else {
        // source closed and buffer drained: nothing left to do
        None
    }
}

/// The phases of one relay session. A session only exists once the outbound
/// connection is up, so the connecting phase has no value here: a failed
/// connect is the error result of `TunnelRelay::open`.
#[derive(Clone, Copy, PartialEq, Eq, Structural, Debug)]
pub enum RelayPhase {
    Relaying,
    Closing,
    Closed,
}

/// One tunneled connection: both ends wrapped in rate-limited adapters that
/// draw from one shared bucket, a staging buffer per direction, and the two
/// byte counters reported at the end.
pub struct TunnelRelay {
    pub bucket: Bucket,
    pub client: RateLimitedStream,
    pub target: RateLimitedStream,
    pub c2t: CopyDirection,
    pub t2c: CopyDirection,
    pub phase: RelayPhase,
    pub failure: Option<IoErrorKind>,
}

impl TunnelRelay {
    pub open spec fn wf(self) -> bool {
        &&& self.bucket.wf()
        &&& self.client.wf()
        &&& self.target.wf()
        &&& self.c2t.wf()
        &&& self.t2c.wf()
        // the one shared bucket carries exactly the two adapters' in-flight
        // consumptions, each at most one chunk
        &&& self.bucket.outstanding == self.client.throttle.pending_bytes()
            + self.target.throttle.pending_bytes()
        &&& self.client.throttle.pending_bytes() <= CHUNK as int
        &&& self.target.throttle.pending_bytes() <= CHUNK as int
        // conservation, per direction: bytes read == bytes delivered + in flight
        &&& self.client.io.read_prefix() == self.target.io.outgoing@ + self.c2t.inflight()
        &&& self.target.io.read_prefix() == self.client.io.outgoing@ + self.t2c.inflight()
        // the reported counters are the bytes actually delivered
        &&& self.c2t.moved == self.target.io.outgoing@.len()
        &&& self.t2c.moved == self.client.io.outgoing@.len()
        // a recorded end of stream is authentic: the source had closed and
        // was read to its end
        &&& self.c2t.src_eof ==> self.client.io.peer_closed && self.client.io.read_pos
            == self.client.io.incoming@.len()
        &&& self.t2c.src_eof ==> self.target.io.peer_closed && self.target.io.read_pos
            == self.target.io.incoming@.len()
        // every consumed byte is a delivered byte and conversely
        &&& self.bucket.consumed == self.c2t.moved + self.t2c.moved
        // headroom so the counters and the bucket never overflow
        &&& self.client.io.incoming@.len() + self.target.io.incoming@.len() + CHUNK <= u64::MAX
        // a recorded failure is authentic: one of the streams' own verdicts
        &&& self.failure is Some ==> self.failure == self.client.io.read_error || self.failure
            == self.client.io.write_error || self.failure == self.target.io.read_error
            || self.failure == self.target.io.write_error
        // a closed or closing session knows why it terminated
        &&& (self.phase is Closing || self.phase is Closed) ==> (self.failure is Some
            || self.c2t.done() || self.t2c.done())
        // a closed session has released both streams
        &&& self.phase is Closed ==> self.client.io.shut && self.target.io.shut
    }

    /// How far the session still is from moving everything it could: bytes a
    /// source may still deliver count twice, staged bytes once. Every read
    /// and every accepted write strictly lowers it; nothing raises it.
    pub open spec fn potential(self) -> int {
        2 * (self.client.io.unread() + self.target.io.unread()) + self.c2t.inflight().len()
            + self.t2c.inflight().len()
    }

    /// The bucket's debt: what refills must repay before a throttled write
    /// resumes.
    pub open spec fn debt(self) -> int {
        if self.bucket.balance < 0 {
            -(self.bucket.balance as int)
        } else {
            0
        }
    }

    pub open spec fn phase_rank(self) -> int {
        match self.phase {
            RelayPhase::Relaying => 2,
            RelayPhase::Closing => 1,
            RelayPhase::Closed => 0,
        }
    }

    /// One termination measure for the whole session. On every round of a
    /// session satisfying `termination_premise` it strictly falls: bytes
    /// move, or the debt is repaid at the configured rate, or the phase
    /// advances.
    pub open spec fn measure(self) -> int {
        (self.phase_rank() + self.potential() + 1) * (2 * (CHUNK as int) + 2) + self.debt()
    }

    /// Some direction is bound to keep answering: its source will deliver
    /// bytes, a clean close, or a failure on every read, and its destination
    /// accepts bytes (or fails, which also ends the session). This holds
    /// whenever either peer has closed cleanly or either stream's read side
    /// has failed, the opposite transport staying writable.
    pub open spec fn termination_premise(self) -> bool {
        ||| (self.target.io.peer_closed || self.target.io.read_error is Some)
            && self.client.io.accept >= 1
        ||| (self.client.io.peer_closed || self.client.io.read_error is Some)
            && self.target.io.accept >= 1
    }

    /// Open one relay session: the client side arrives pre-connected, the
    /// target side is the outcome of one outbound connect attempt. A failed
    /// connect is returned verbatim and no session — and so no copy activity —
    /// ever exists. On success both ends share one fresh bucket of the given
    /// rate: a deliberate choice, kept from the design this models, that caps
    /// the *combined* upload and download throughput at that rate rather than
    /// each direction separately.
    pub fn open(
        client_io: ByteStream,
        connect_result: Result<ByteStream, IoErrorKind>,
        rate: u64,
        capacity: u64,
    ) -> (r: Result<TunnelRelay, IoErrorKind>)
        requires
            1 <= rate,
            capacity <= MAX_BUDGET,
            client_io.wf(),
            client_io.read_pos == 0,
            client_io.outgoing@.len() == 0,
            connect_result matches Ok(t) ==> t.wf() && t.read_pos == 0 && t.outgoing@.len() == 0
                && client_io.incoming@.len() + t.incoming@.len() + CHUNK <= u64::MAX,
        ensures
            connect_result matches Err(e) ==> r == Err::<TunnelRelay, IoErrorKind>(e),
            connect_result matches Ok(t) ==> r matches Ok(s) && s.wf() && s.phase
                is Relaying && s.failure is None && s.client.io == client_io && s.target.io == t
                && s.client.throttle.pending is None && s.target.throttle.pending is None
                && s.c2t.moved == 0 && s.t2c.moved == 0 && s.bucket.rate == rate
                && s.bucket.capacity == capacity && s.bucket.elapsed == 0 && s.bucket.consumed == 0
                && s.bucket.balance == capacity && s.bucket.outstanding == 0,
    {
        match connect_result {
            Err(e) => Err(e),
            Ok(target_io) => {
                let s = TunnelRelay {
                    bucket: Bucket::new(rate, capacity),
                    client: RateLimitedStream::wrap(client_io),
                    target: RateLimitedStream::wrap(target_io),
                    c2t: CopyDirection::new(),
                    t2c: CopyDirection::new(),
                    phase: RelayPhase::Relaying,
                    failure: None,
                };
                proof {
                    assert(s.client.io.read_prefix() =~= s.target.io.outgoing@ + s.c2t.inflight());
                    assert(s.target.io.read_prefix() =~= s.client.io.outgoing@ + s.t2c.inflight());
                }
                Ok(s)
            }
        }
    }

    /// One cooperative scheduler round: the clock advances one tick, each
    /// direction makes whatever progress its readiness allows, and the
    /// session moves to closing on the first clean end of stream or write
    /// failure from either direction, then shuts both streams down.
    pub fn step(&mut self)
        requires
            old(self).wf(),
            !(old(self).phase is Closed),
            old(self).bucket.elapsed < u64::MAX,
        ensures
            final(self).wf(),
            final(self).client.io.incoming == old(self).client.io.incoming,
            final(self).client.io.peer_closed == old(self).client.io.peer_closed,
            final(self).client.io.accept == old(self).client.io.accept,
            final(self).client.io.read_error == old(self).client.io.read_error,
            final(self).client.io.write_error == old(self).client.io.write_error,
            final(self).target.io.incoming == old(self).target.io.incoming,
            final(self).target.io.peer_closed == old(self).target.io.peer_closed,
            final(self).target.io.accept == old(self).target.io.accept,
            final(self).target.io.read_error == old(self).target.io.read_error,
            final(self).target.io.write_error == old(self).target.io.write_error,
            final(self).bucket.rate == old(self).bucket.rate,
            final(self).bucket.capacity == old(self).bucket.capacity,
            old(self).phase is Relaying ==> final(self).bucket.elapsed == old(
                self,
            ).bucket.elapsed + 1,
            !(old(self).phase is Relaying) ==> final(self).bucket.elapsed == old(
                self,
            ).bucket.elapsed,
            old(self).phase is Closing ==> final(self).phase is Closed,
            // a failure, once recorded, stands; a new one is authentic — one
            // of the streams' own verdicts, never fabricated
            old(self).failure is Some ==> final(self).failure == old(self).failure,
            final(self).failure == old(self).failure || final(self).failure == old(
                self,
            ).client.io.read_error || final(self).failure == old(self).client.io.write_error
                || final(self).failure == old(self).target.io.read_error || final(self).failure
                == old(self).target.io.write_error,
            // an observed failure ends the relaying phase at once
            old(self).phase is Relaying && final(self).failure is Some ==> final(self).phase
                is Closing,
            final(self).potential() <= old(self).potential(),
            // progress: under the termination premise every round strictly
            // lowers the measure
            (!(old(self).phase is Relaying) || old(self).termination_premise())
                ==> final(self).measure() < old(self).measure(),
    {
        match self.phase {
            RelayPhase::Relaying => {
                self.bucket.refill(1);
                let ghost s0 = *self;
                proof {
                    assert(self.target.io.outgoing@.len() + self.c2t.inflight().len()
                        == self.client.io.read_prefix().len());
                    assert(self.client.io.outgoing@.len() + self.t2c.inflight().len()
                        == self.target.io.read_prefix().len());
                    assert(self.client.io.read_prefix().len() == self.client.io.read_pos as int);
                    assert(self.target.io.read_prefix().len() == self.target.io.read_pos as int);
                }
                let e1 = step_direction(
                    &mut self.c2t,
                    &mut self.client,
                    &mut self.target,
                    &mut self.bucket,
                );
                let ghost s1 = *self;
                proof {
                    assert(self.target.io.outgoing@.len() + self.c2t.inflight().len()
                        == self.client.io.read_prefix().len());
                    assert(self.client.io.outgoing@.len() + self.t2c.inflight().len()
                        == self.target.io.read_prefix().len());
                    assert(self.client.io.read_prefix().len() == self.client.io.read_pos as int);
                    assert(self.target.io.read_prefix().len() == self.target.io.read_pos as int);
                }
                let e2 = step_direction(
                    &mut self.t2c,
                    &mut self.target,
                    &mut self.client,
                    &mut self.bucket,
                );
                let ghost s2 = *self;
                if self.failure.is_none() {
                    match e1 {
                        Some(e) => { self.failure = Some(e); }
                        None => {}
                    }
                }
                if self.failure.is_none() {
                    match e2 {
                        Some(e) => { self.failure = Some(e); }
                        None => {}
                    }
                }
                let c2t_done = self.c2t.src_eof && self.c2t.pos == self.c2t.buf.len();
                let t2c_done = self.t2c.src_eof && self.t2c.pos == self.t2c.buf.len();
                let trigger = self.failure.is_some() || c2t_done || t2c_done;
                if trigger {
                    self.phase = RelayPhase::Closing;
                }
                proof {
                    let d1 = s1.c2t.moved - s0.c2t.moved;
                    let d2 = s2.t2c.moved - s1.t2c.moved;
                    // charges this round, and the balance they explain
                    assert(s2.bucket.balance as int == s0.bucket.balance as int - d1 - d2);
                    assert(s0.bucket.balance >= old(self).bucket.balance);
                    assert(self.potential() <= old(self).potential());
                    if old(self).termination_premise() {
                        if trigger {
                            // the phase advanced: the rank term falls by a
                            // whole coefficient, more than any debt growth
                            assert(self.debt() <= old(self).debt() + 2 * (CHUNK as int));
                            assert(self.measure() < old(self).measure());
                        } else if self.potential() < old(self).potential() {
                            assert(self.debt() <= old(self).debt() + 2 * (CHUNK as int));
                            assert(self.measure() < old(self).measure());
                        } else {
                            // nothing moved: each direction's share of the
                            // potential is unchanged, so nothing was charged
                            assert(2 * s1.client.io.unread() + s1.c2t.inflight().len() == 2 * s0.client.io.unread()
                                + s0.c2t.inflight().len());
                            assert(2 * s2.target.io.unread() + s2.t2c.inflight().len() == 2 * s1.target.io.unread()
                                + s1.t2c.inflight().len());
                            assert(d1 == 0);
                            assert(d2 == 0);
                            // whichever direction the premise binds was
                            // neither done nor failed, so only an unresolved
                            // consumption can have held it back: the bucket
                            // was in debt
                            if (old(self).target.io.peer_closed || old(
                                self,
                            ).target.io.read_error is Some) && old(self).client.io.accept >= 1 {
                                assert(!s1.t2c.done()) by {
                                    if s1.t2c.done() {
                                        assert(s2.t2c == s1.t2c);
                                        assert(false);
                                    }
                                }
                                assert(s1.client.throttle.pending is Some && s1.bucket.balance
                                    < 0);
                                assert(s0.bucket.balance < 0);
                            } else {
                                assert(!s0.c2t.done()) by {
                                    if s0.c2t.done() {
                                        assert(s1.c2t == s0.c2t);
                                        assert(s2.c2t == s1.c2t);
                                        assert(false);
                                    }
                                }
                                assert(s0.target.throttle.pending is Some && s0.bucket.balance
                                    < 0);
                            }
                            // a round in debt repays exactly one tick of rate
                            assert(s0.bucket.balance as int == old(self).bucket.balance as int
                                + old(self).bucket.rate);
                            assert(self.debt() <= old(self).debt() - 1);
                            assert(self.measure() < old(self).measure());
                        }
                    }
                }
            }
            RelayPhase::Closing => {
                self.client.shutdown();
                self.target.shutdown();
                self.phase = RelayPhase::Closed;
            }
            RelayPhase::Closed => {}
        }
    }

    /// Termination: a session in which either side has announced a clean
    /// close (or either read side fails outright), the opposite transport
    /// accepting bytes, always reaches its closed state — however the other
    /// side behaves, wherever the limiter stands, and whatever failures occur
    /// on the way. Every round moves bytes, repays limiter debt at the
    /// configured rate, or advances the phase. A failure it closes with is
    /// authentic: one of the streams' own verdicts, never invented.
    pub fn run_to_close(&mut self)
        requires
            old(self).wf(),
            old(self).termination_premise(),
            old(self).bucket.elapsed + old(self).measure() <= u64::MAX,
        ensures
            final(self).wf(),
            final(self).phase is Closed,
            final(self).client.io.incoming == old(self).client.io.incoming,
            final(self).target.io.incoming == old(self).target.io.incoming,
            final(self).client.io.peer_closed == old(self).client.io.peer_closed,
            final(self).target.io.peer_closed == old(self).target.io.peer_closed,
            final(self).client.io.read_error == old(self).client.io.read_error,
            final(self).client.io.write_error == old(self).client.io.write_error,
            final(self).target.io.read_error == old(self).target.io.read_error,
            final(self).target.io.write_error == old(self).target.io.write_error,
            final(self).bucket.rate == old(self).bucket.rate,
            final(self).bucket.capacity == old(self).bucket.capacity,
            old(self).failure is Some ==> final(self).failure == old(self).failure,
            final(self).failure == old(self).failure || final(self).failure == old(
                self,
            ).client.io.read_error || final(self).failure == old(self).client.io.write_error
                || final(self).failure == old(self).target.io.read_error || final(self).failure
                == old(self).target.io.write_error,
    {
        while !self.is_closed()
            invariant
                self.wf(),
                self.termination_premise(),
                self.bucket.elapsed + self.measure() <= u64::MAX,
                self.measure() >= 0,
                self.client.io.incoming == old(self).client.io.incoming,
                self.target.io.incoming == old(self).target.io.incoming,
                self.client.io.peer_closed == old(self).client.io.peer_closed,
                self.target.io.peer_closed == old(self).target.io.peer_closed,
                self.client.io.accept == old(self).client.io.accept,
                self.target.io.accept == old(self).target.io.accept,
                self.client.io.read_error == old(self).client.io.read_error,
                self.client.io.write_error == old(self).client.io.write_error,
                self.target.io.read_error == old(self).target.io.read_error,
                self.target.io.write_error == old(self).target.io.write_error,
                self.bucket.rate == old(self).bucket.rate,
                self.bucket.capacity == old(self).bucket.capacity,
                old(self).failure is Some ==> self.failure == old(self).failure,
                self.failure == old(self).failure || self.failure == old(
                    self,
                ).client.io.read_error || self.failure == old(self).client.io.write_error
                    || self.failure == old(self).target.io.read_error || self.failure == old(
                    self,
                ).target.io.write_error,
            decreases self.measure(),
        {
            proof {
                let r = self.phase_rank();
                let p = self.potential();
                assert(r >= 1);
                assert(p >= 0);
                assert((r + p + 1) * (2 * (CHUNK as int) + 2) >= 4) by (nonlinear_arith)
                    requires r >= 1 && p >= 0,
                ;
                assert(self.measure() >= 4);
            }
            self.step();
        }
    }

    /// Drive the session for at most `fuel` rounds; true once it is closed.
    /// A failure it ends with is authentic: one of the streams' own verdicts,
    /// never invented.
    pub fn run(&mut self, fuel: u64) -> (done: bool)
        requires
            old(self).wf(),
            old(self).bucket.elapsed + fuel <= u64::MAX,
        ensures
            final(self).wf(),
            done == (final(self).phase is Closed),
            final(self).client.io.incoming == old(self).client.io.incoming,
            final(self).target.io.incoming == old(self).target.io.incoming,
            final(self).client.io.peer_closed == old(self).client.io.peer_closed,
            final(self).target.io.peer_closed == old(self).target.io.peer_closed,
            final(self).client.io.read_error == old(self).client.io.read_error,
            final(self).client.io.write_error == old(self).client.io.write_error,
            final(self).target.io.read_error == old(self).target.io.read_error,
            final(self).target.io.write_error == old(self).target.io.write_error,
            final(self).bucket.rate == old(self).bucket.rate,
            final(self).bucket.capacity == old(self).bucket.capacity,
            old(self).failure is Some ==> final(self).failure == old(self).failure,
            final(self).failure == old(self).failure || final(self).failure == old(
                self,
            ).client.io.read_error || final(self).failure == old(self).client.io.write_error
                || final(self).failure == old(self).target.io.read_error || final(self).failure
                == old(self).target.io.write_error,
    {
        let mut i: u64 = 0;
        while i < fuel
            invariant
                i <= fuel,
                self.wf(),
                self.bucket.elapsed + (fuel - i) <= u64::MAX,
                self.client.io.incoming == old(self).client.io.incoming,
                self.target.io.incoming == old(self).target.io.incoming,
                self.client.io.peer_closed == old(self).client.io.peer_closed,
                self.target.io.peer_closed == old(self).target.io.peer_closed,
                self.client.io.read_error == old(self).client.io.read_error,
                self.client.io.write_error == old(self).client.io.write_error,
                self.target.io.read_error == old(self).target.io.read_error,
                self.target.io.write_error == old(self).target.io.write_error,
                self.bucket.rate == old(self).bucket.rate,
                self.bucket.capacity == old(self).bucket.capacity,
                old(self).failure is Some ==> self.failure == old(self).failure,
                self.failure == old(self).failure || self.failure == old(
                    self,
                ).client.io.read_error || self.failure == old(self).client.io.write_error
                    || self.failure == old(self).target.io.read_error || self.failure == old(
                    self,
                ).target.io.write_error,
            decreases fuel - i,
        {
            if self.is_closed() {
                return true;
            }
            self.step();
            i = i + 1;
        }
        self.is_closed()
    }

    pub fn is_closed(&self) -> (b: bool)
        ensures
            b == (self.phase is Closed),
    {
        match self.phase {
            RelayPhase::Closed => true,
            _ => false,
        }
    }

    /// The byte counters: client to target, target to client.
    pub fn counts(&self) -> (r: (u64, u64))
        ensures
            r.0 == self.c2t.moved,
            r.1 == self.t2c.moved,
    {
        (self.c2t.moved, self.t2c.moved)
    }

    /// Accounting of a terminated session: both streams are released, the
    /// reported counters are exactly the bytes each side's wire received, and
    /// those bytes are, in order, exactly what was read from the opposite
    /// side — nothing dropped, nothing duplicated, nothing reordered. Unless
    /// a transport failure — one of the streams' own, never invented — ended
    /// the session, some direction saw a clean end of stream and was drained
    /// in full, and everything its closed source ever sent stands on its
    /// destination's wire.
    pub proof fn lemma_closed_session_accounts(self)
        requires
            self.wf(),
            self.phase is Closed,
        ensures
            self.client.io.shut && self.target.io.shut,
            self.c2t.moved == self.target.io.outgoing@.len(),
            self.t2c.moved == self.client.io.outgoing@.len(),
            self.client.io.read_prefix() == self.target.io.outgoing@ + self.c2t.inflight(),
            self.target.io.read_prefix() == self.client.io.outgoing@ + self.t2c.inflight(),
            self.failure is None ==> self.c2t.done() || self.t2c.done(),
            self.failure is Some ==> self.failure == self.client.io.read_error || self.failure
                == self.client.io.write_error || self.failure == self.target.io.read_error
                || self.failure == self.target.io.write_error,
            self.c2t.done() ==> self.target.io.outgoing@ == self.client.io.incoming@,
            self.t2c.done() ==> self.client.io.outgoing@ == self.target.io.incoming@,
    {
        if self.c2t.done() {
            assert(self.client.io.read_prefix() =~= self.client.io.incoming@);
            assert(self.c2t.inflight() =~= Seq::<u8>::empty());
            assert(self.target.io.outgoing@ =~= self.client.io.incoming@);
        }
        if self.t2c.done() {
            assert(self.target.io.read_prefix() =~= self.target.io.incoming@);
            assert(self.t2c.inflight() =~= Seq::<u8>::empty());
            assert(self.client.io.outgoing@ =~= self.target.io.incoming@);
        }
    }

    /// Shared-bucket bound: the two directions together — upload plus
    /// download — are capped by the one configured rate, with a burst
    /// allowance of the initial budget plus at most one in-flight chunk per
    /// direction. Duplicating the limiter never multiplies the rate term.
    pub proof fn lemma_shared_bucket_bound(self)
        requires
            self.wf(),
        ensures
            self.c2t.moved + self.t2c.moved <= self.bucket.capacity as int + self.bucket.rate
                as int * self.bucket.elapsed as int + 2 * (CHUNK as int),
    {
        self.bucket.lemma_throughput_bound();
    }
}

} // verus!
