use vstd::prelude::*;

verus! {

/// Transport-level failure causes, carried verbatim from the side that
/// reported them; the adapter and the relay never rewrite an error.
#[derive(Clone, Copy, PartialEq, Eq, Structural, Debug)]
pub enum IoErrorKind {
    ConnectionRefused,
    ConnectionReset,
    TimedOut,
    HostUnreachable,
    BrokenPipe,
    Other,
}

/// What one write attempt reported: the transport was not ready, it accepted
/// a (possibly partial) prefix, or it failed.
#[derive(Clone, Copy, PartialEq, Eq, Structural, Debug)]
pub enum WriteOutcome {
    WouldBlock,
    Written(usize),
    Failed(IoErrorKind),
}

/// What one read attempt reported: data, a clean end of stream, or "nothing
/// available yet".
#[derive(Debug)]
pub enum ReadOutcome {
    Data(Vec<u8>),
    Closed,
    WouldBlock,
    Failed(IoErrorKind),
}

/// A deterministic double of one duplex byte stream, as this process sees it:
/// what the peer has queued toward us, how much of that reads have handed out,
/// and every byte our writes have put on the wire, in order.
pub struct ByteStream {
    /// Bytes the peer has sent, in arrival order. Reads only observe this.
    pub incoming: Vec<u8>,
    /// How many of `incoming` have already been handed to reads.
    pub read_pos: usize,
    /// Whether the peer has closed its sending side after `incoming`.
    pub peer_closed: bool,
    /// Every byte accepted by writes so far, in order.
    pub outgoing: Vec<u8>,
    /// How many bytes one write attempt accepts right now; 0 models a
    /// transport that is not ready to send.
    pub accept: usize,
    /// An injected permanent read failure, if any.
    pub read_error: Option<IoErrorKind>,
    /// An injected permanent write failure, if any.
    pub write_error: Option<IoErrorKind>,
    /// Whether our sending side has been shut down.
    pub shut: bool,
}

impl ByteStream {
    pub open spec fn wf(self) -> bool {
        self.read_pos <= self.incoming@.len()
    }

    /// Bytes of `incoming` not yet handed out by reads.
    pub open spec fn unread(self) -> int {
        self.incoming@.len() - self.read_pos
    }

    /// The prefix of `incoming` that reads have already handed out.
    pub open spec fn read_prefix(self) -> Seq<u8> {
        self.incoming@.take(self.read_pos as int)
    }

    /// A fresh stream: the peer has queued `incoming` (followed by a clean
    /// close if `peer_closed`), nothing read or written yet, the transport
    /// accepting up to `accept` bytes per write.
    pub fn open(incoming: Vec<u8>, peer_closed: bool, accept: usize) -> (s: ByteStream)
        ensures
            s.wf(),
            s.incoming == incoming,
            s.read_pos == 0,
            s.peer_closed == peer_closed,
            s.outgoing@ == Seq::<u8>::empty(),
            s.accept == accept,
            s.read_error is None,
            s.write_error is None,
            !s.shut,
    {
        ByteStream {
            incoming,
            read_pos: 0,
            peer_closed,
            outgoing: Vec::new(),
            accept,
            read_error: None,
            write_error: None,
            shut: false,
        }
    }

    /// Hand out up to `max` of the bytes the peer has queued, in order; fail
    /// if a failure is injected, report a clean close once the bytes are
    /// exhausted and the peer has closed, and "not ready" otherwise. Never
    /// touches the write side.
    pub fn try_read(&mut self, max: usize) -> (r: ReadOutcome)
        requires
            old(self).wf(),
        ensures
            final(self).wf(),
            final(self).incoming == old(self).incoming,
            final(self).peer_closed == old(self).peer_closed,
            final(self).outgoing == old(self).outgoing,
            final(self).accept == old(self).accept,
            final(self).read_error == old(self).read_error,
            final(self).write_error == old(self).write_error,
            final(self).shut == old(self).shut,
            ({
                let avail = old(self).unread();
                let n = if max <= avail { max as int } else { avail };
                if old(self).read_error is Some {
                    &&& r == ReadOutcome::Failed(old(self).read_error->0)
                    &&& final(self).read_pos == old(self).read_pos
                } else if n > 0 {
                    &&& r matches ReadOutcome::Data(d)
                        && d@ == old(self).incoming@.subrange(
                            old(self).read_pos as int,
                            old(self).read_pos + n,
                        )
                        && d@.len() == n
                    &&& final(self).read_pos == old(self).read_pos + n
                } else if old(self).peer_closed {
                    &&& r is Closed
                    &&& final(self).read_pos == old(self).read_pos
                } else {
                    &&& r is WouldBlock
                    &&& final(self).read_pos == old(self).read_pos
                }
            }),
    {
        match self.read_error {
            Some(e) => {
                return ReadOutcome::Failed(e);
            }
            None => {}
        }
        let avail = self.incoming.len() - self.read_pos;
        let n = if max <= avail { max } else { avail };
        if n > 0 {
            let mut d: Vec<u8> = Vec::new();
            let mut i: usize = 0;
            proof {
                assert(d@ =~= self.incoming@.subrange(self.read_pos as int, self.read_pos as int));
            }
            while i < n
                invariant
                    i <= n,
                    self.incoming@.len() <= usize::MAX,
                    n <= self.incoming@.len() - self.read_pos,
                    d@ == self.incoming@.subrange(self.read_pos as int, self.read_pos + i),
                decreases n - i,
            {
                let b = self.incoming[self.read_pos + i];
                d.push(b);
                i = i + 1;
                proof {
                    assert(d@ =~= self.incoming@.subrange(self.read_pos as int, self.read_pos + i));
                }
            }
            self.read_pos = self.read_pos + n;
            ReadOutcome::Data(d)
        } else if self.peer_closed {
            ReadOutcome::Closed
        } else {
            ReadOutcome::WouldBlock
        }
    }

    /// One write attempt: fail if a failure is injected, report "not ready"
    /// when the transport accepts nothing, else accept a prefix of `buf` of at
    /// most `accept` bytes — exactly those bytes, in order, appended to the
    /// wire. Never touches the read side.
    pub fn try_write(&mut self, buf: &Vec<u8>) -> (r: WriteOutcome)
        requires
            old(self).wf(),
        ensures
            final(self).wf(),
            final(self).incoming == old(self).incoming,
            final(self).read_pos == old(self).read_pos,
            final(self).peer_closed == old(self).peer_closed,
            final(self).accept == old(self).accept,
            final(self).read_error == old(self).read_error,
            final(self).write_error == old(self).write_error,
            final(self).shut == old(self).shut,
            ({
                if old(self).write_error is Some {
                    &&& r == WriteOutcome::Failed(old(self).write_error->0)
                    &&& final(self).outgoing == old(self).outgoing
                } else if old(self).accept == 0 {
                    &&& r == WriteOutcome::WouldBlock
                    &&& final(self).outgoing == old(self).outgoing
                } else {
                    let n = if buf@.len() <= old(self).accept {
                        buf@.len() as int
                    } else {
                        old(self).accept as int
                    };
                    &&& r == WriteOutcome::Written(n as usize)
                    &&& final(self).outgoing@ == old(self).outgoing@ + buf@.take(n)
                }
            }),
    {
        match self.write_error {
            Some(e) => WriteOutcome::Failed(e),
            None => {
                if self.accept == 0 {
                    WriteOutcome::WouldBlock
                } else {
                    let n = if buf.len() <= self.accept { buf.len() } else { self.accept };
                    let mut i: usize = 0;
                    proof {
                        assert(self.outgoing@ =~= old(self).outgoing@ + buf@.take(0));
                    }
                    while i < n
                        invariant
                            i <= n,
                            n <= buf@.len(),
                            self.outgoing@ == old(self).outgoing@ + buf@.take(i as int),
                            self.incoming == old(self).incoming,
                            self.read_pos == old(self).read_pos,
                            self.peer_closed == old(self).peer_closed,
                            self.accept == old(self).accept,
                            self.read_error == old(self).read_error,
                            self.write_error == old(self).write_error,
                            self.shut == old(self).shut,
                        decreases n - i,
                    {
                        let b = buf[i];
                        self.outgoing.push(b);
                        i = i + 1;
                        proof {
                            assert(buf@.take(i as int) =~= buf@.take(i - 1).push(buf@[i - 1]));
                            assert(self.outgoing@ =~= old(self).outgoing@ + buf@.take(i as int));
                        }
                    }
                    WriteOutcome::Written(n)
                }
            }
        }
    }

    /// The double buffers nothing, so a flush changes nothing.
    pub fn flush(&mut self)
        requires
            old(self).wf(),
        ensures
            *final(self) == *old(self),
    {
    }

    /// Close our sending side.
    pub fn shutdown(&mut self)
        requires
            old(self).wf(),
        ensures
            final(self).wf(),
            *final(self) == (ByteStream { shut: true, ..*old(self) }),
    {
        self.shut = true;
    }
}

} // verus!
