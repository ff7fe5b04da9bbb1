use vstd::prelude::*;
use crate::bucket::Bucket;
use crate::bucket::MAX_BUDGET;
use crate::io::ByteStream;
use crate::io::ReadOutcome;
use crate::io::WriteOutcome;

verus! {

/// The limiter-facing half of the write path: the slot that holds at most one
/// in-flight consumption, sized to the bytes of the write that incurred it.
pub struct WriteThrottle {
    /// The bytes of the consumption scheduled by the last successful write,
    /// until it is observed to have resolved. `None` means the adapter is not
    /// throttled: the next write attempt reaches the underlying stream.
    pub pending: Option<u64>,
}

impl WriteThrottle {
    /// Bytes of this throttle's in-flight consumption; 0 when idle.
    pub open spec fn pending_bytes(self) -> int {
        match self.pending {
            Some(n) => n as int,
            None => 0,
        }
    }

    pub fn new() -> (t: WriteThrottle)
        ensures
            t.pending is None,
    {
        WriteThrottle { pending: None }
    }

    /// Step one of the write path: poll the pending consumption. Returns true
    /// when the underlying write may be attempted — there is no pending
    /// consumption, or it has resolved (and the slot is cleared, its debt
    /// retired from the bucket). Returns false when the caller must report
    /// "not ready" without touching the underlying stream.
    pub fn poll_pending(&mut self, bucket: &mut Bucket) -> (ready: bool)
        requires
            old(bucket).wf(),
            old(self).pending_bytes() <= old(bucket).outstanding,
        ensures
            final(bucket).wf(),
            final(bucket).rate == old(bucket).rate,
            final(bucket).capacity == old(bucket).capacity,
            final(bucket).elapsed == old(bucket).elapsed,
            final(bucket).balance == old(bucket).balance,
            final(bucket).consumed == old(bucket).consumed,
            ready == (old(self).pending is None || old(bucket).balance >= 0),
            ready ==> final(self).pending is None
                && final(bucket).outstanding == old(bucket).outstanding - old(self).pending_bytes(),
            !ready ==> *final(self) == *old(self) && *final(bucket) == *old(bucket),
    {
        match self.pending {
            None => true,
            Some(p) => {
                if bucket.has_budget() {
                    bucket.settle(p);
                    self.pending = None;
                    true
                } else {
                    false
                }
            }
        }
    }

    /// Step two of the write path: record what the underlying transport
    /// reported. A successful write of `n > 0` bytes schedules exactly one
    /// consumption of exactly `n` bytes — charged to the bucket now, awaited
    /// on the next write attempt. "Not ready" and failures charge nothing.
    pub fn record_attempt(&mut self, bucket: &mut Bucket, attempt: WriteOutcome) -> (r: WriteOutcome)
        requires
            old(self).pending is None,
            old(bucket).wf(),
            attempt matches WriteOutcome::Written(n)
                ==> old(bucket).outstanding + n <= MAX_BUDGET
                    && old(bucket).consumed + n <= u64::MAX,
        ensures
            final(bucket).wf(),
            final(bucket).rate == old(bucket).rate,
            final(bucket).capacity == old(bucket).capacity,
            final(bucket).elapsed == old(bucket).elapsed,
            r == attempt,
            attempt matches WriteOutcome::Written(n) ==> {
                &&& n > 0 ==> final(self).pending == Some(n as u64)
                    && final(bucket).balance as int == old(bucket).balance as int - n as int
                    && final(bucket).consumed == old(bucket).consumed + n
                    && final(bucket).outstanding == old(bucket).outstanding + n
                &&& n == 0 ==> final(self).pending is None && *final(bucket) == *old(bucket)
            },
            !(attempt matches WriteOutcome::Written(n) && n > 0)
                ==> final(self).pending is None && *final(bucket) == *old(bucket),
    {
        match attempt {
            WriteOutcome::Written(n) => {
                if n > 0 {
                    bucket.consume(n as u64);
                    self.pending = Some(n as u64);
                }
                WriteOutcome::Written(n)
            }
            WriteOutcome::WouldBlock => WriteOutcome::WouldBlock,
            WriteOutcome::Failed(e) => WriteOutcome::Failed(e),
        }
    }
}

/// The rate-limited duplex stream adapter over the deterministic stream
/// double: reads pass through untouched; writes go through the throttled
/// path — poll the pending consumption, attempt the underlying write only
/// once it has resolved, and charge the bytes actually written retroactively.
pub struct RateLimitedStream {
    pub io: ByteStream,
    pub throttle: WriteThrottle,
}

impl RateLimitedStream {
    pub open spec fn wf(self) -> bool {
        self.io.wf()
    }

    /// Wrap an already-established stream. Infallible; the adapter starts
    /// unthrottled.
    pub fn wrap(io: ByteStream) -> (s: RateLimitedStream)
        requires
            io.wf(),
        ensures
            s.wf(),
            s.io == io,
            s.throttle.pending is None,
    {
        RateLimitedStream { io, throttle: WriteThrottle::new() }
    }

    /// Read transparency: a read through the adapter is exactly the
    /// underlying stream's read — byte for byte, in order — and never touches
    /// the limiter or the pending slot.
    pub fn try_read(&mut self, max: usize) -> (r: ReadOutcome)
        requires
            old(self).wf(),
        ensures
            final(self).wf(),
            final(self).throttle == old(self).throttle,
            final(self).io.incoming == old(self).io.incoming,
            final(self).io.peer_closed == old(self).io.peer_closed,
            final(self).io.outgoing == old(self).io.outgoing,
            final(self).io.accept == old(self).io.accept,
            final(self).io.read_error == old(self).io.read_error,
            final(self).io.write_error == old(self).io.write_error,
            final(self).io.shut == old(self).io.shut,
            ({
                let avail = old(self).io.unread();
                let n = if max <= avail { max as int } else { avail };
                if old(self).io.read_error is Some {
                    &&& r == ReadOutcome::Failed(old(self).io.read_error->0)
                    &&& final(self).io.read_pos == old(self).io.read_pos
                } else if n > 0 {
                    &&& r matches ReadOutcome::Data(d)
                        && d@ == old(self).io.incoming@.subrange(
                            old(self).io.read_pos as int,
                            old(self).io.read_pos + n,
                        )
                        && d@.len() == n
                    &&& final(self).io.read_pos == old(self).io.read_pos + n
                } else if old(self).io.peer_closed {
                    &&& r is Closed
                    &&& final(self).io.read_pos == old(self).io.read_pos
                } else {
                    &&& r is WouldBlock
                    &&& final(self).io.read_pos == old(self).io.read_pos
                }
            }),
    {
        self.io.try_read(max)
    }

    /// The throttled write path. While the pending consumption from a prior
    /// write has not resolved, report "not ready" and leave the underlying
    /// stream untouched. Otherwise clear the slot, attempt the underlying
    /// write, and propagate its verdict unmodified: exactly the accepted
    /// prefix of `buf` reaches the wire, and a successful write of `n > 0`
    /// bytes schedules exactly one consumption of `n` bytes.
    pub fn try_write(&mut self, bucket: &mut Bucket, buf: &Vec<u8>) -> (r: WriteOutcome)
        requires
            old(self).wf(),
            old(bucket).wf(),
            old(self).throttle.pending_bytes() <= old(bucket).outstanding,
            old(bucket).outstanding + buf@.len() <= MAX_BUDGET,
            old(bucket).consumed + buf@.len() <= u64::MAX,
        ensures
            final(self).wf(),
            final(bucket).wf(),
            final(bucket).rate == old(bucket).rate,
            final(bucket).capacity == old(bucket).capacity,
            final(bucket).elapsed == old(bucket).elapsed,
            final(self).io.incoming == old(self).io.incoming,
            final(self).io.read_pos == old(self).io.read_pos,
            final(self).io.peer_closed == old(self).io.peer_closed,
            final(self).io.accept == old(self).io.accept,
            final(self).io.read_error == old(self).io.read_error,
            final(self).io.write_error == old(self).io.write_error,
            final(self).io.shut == old(self).io.shut,
            final(self).throttle.pending_bytes() <= final(bucket).outstanding,
            final(bucket).outstanding - final(self).throttle.pending_bytes()
                == old(bucket).outstanding - old(self).throttle.pending_bytes(),
            // throttled: nothing attempted, nothing charged, nothing changed
            old(self).throttle.pending is Some && old(bucket).balance < 0 ==> {
                &&& r == WriteOutcome::WouldBlock
                &&& *final(self) == *old(self)
                &&& *final(bucket) == *old(bucket)
            },
            // gate open: the underlying stream's verdict, passed through
            (old(self).throttle.pending is None || old(bucket).balance >= 0) ==> {
                let can_write = old(self).io.write_error is None && old(self).io.accept > 0;
                let n = if buf@.len() <= old(self).io.accept {
                    buf@.len() as int
                } else {
                    old(self).io.accept as int
                };
                &&& old(self).io.write_error is Some ==> r == WriteOutcome::Failed(
                    old(self).io.write_error->0,
                ) && final(self).io.outgoing == old(self).io.outgoing
                    && final(self).throttle.pending is None
                    && final(bucket).consumed == old(bucket).consumed
                    && final(bucket).balance == old(bucket).balance
                &&& old(self).io.write_error is None && old(self).io.accept == 0 ==> r
                    == WriteOutcome::WouldBlock && final(self).io.outgoing == old(self).io.outgoing
                    && final(self).throttle.pending is None
                    && final(bucket).consumed == old(bucket).consumed
                    && final(bucket).balance == old(bucket).balance
                &&& can_write ==> {
                    &&& r == WriteOutcome::Written(n as usize)
                    &&& final(self).io.outgoing@ == old(self).io.outgoing@ + buf@.take(n)
                    &&& n > 0 ==> final(self).throttle.pending == Some(n as u64)
                        && final(bucket).consumed == old(bucket).consumed + n
                        && final(bucket).balance as int == old(bucket).balance as int - n
                    &&& n == 0 ==> final(self).throttle.pending is None
                        && final(bucket).consumed == old(bucket).consumed
                }
            },
    {
        let ready = self.throttle.poll_pending(bucket);
        if !ready {
            return WriteOutcome::WouldBlock;
        }
        let attempt = self.io.try_write(buf);
        self.throttle.record_attempt(bucket, attempt)
    }

    /// Pass-through flush of the underlying stream; the limiter is never
    /// consulted.
    pub fn flush(&mut self)
        requires
            old(self).wf(),
        ensures
            *final(self) == *old(self),
    {
        self.io.flush()
    }

    /// Pass-through shutdown of the underlying stream.
    pub fn shutdown(&mut self)
        requires
            old(self).wf(),
        ensures
            final(self).wf(),
            final(self).throttle == old(self).throttle,
            final(self).io == (ByteStream { shut: true, ..old(self).io }),
    {
        self.io.shutdown()
    }
}

/// Throughput bound for one stream writing alone: when the bucket's
/// outstanding debt is exactly this stream's pending consumption — as it is
/// for a bucket used by one adapter, since every charge comes from a write
/// that fills the pending slot with the same bytes — the bytes admitted over
/// any history never exceed the initial budget, plus the budget accrued over
/// the elapsed time, plus one maximum single-write size.
pub proof fn lemma_single_stream_bound(b: Bucket, t: WriteThrottle, max_write: int)
    requires
        b.wf(),
        b.outstanding == t.pending_bytes(),
        t.pending_bytes() <= max_write,
    ensures
        b.consumed as int <= b.capacity as int + b.rate as int * b.elapsed as int + max_write,
{
    b.lemma_throughput_bound();
}

/// The write-path gate, as the poll loop sees it: the underlying write may be
/// attempted exactly when no consumption is pending or the pending one has
/// resolved.
pub fn write_gate(pending_exists: bool, limiter_ready: bool) -> (go: bool)
    ensures
        go == (!pending_exists || limiter_ready),
{
    !pending_exists || limiter_ready
}

/// The consumption owed after an underlying write accepted `written` bytes:
/// exactly one consumption of exactly the bytes written, and none for an
/// empty write.
pub fn consumption_to_schedule(written: usize) -> (r: Option<usize>)
    ensures
        written > 0 ==> r == Some(written),
        written == 0 ==> r is None,
{
    if written > 0 {
        Some(written)
    } else {
        None
    }
}

} // verus!
