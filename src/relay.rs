//! Tunnel relay bookkeeping. A `Pump` carries one direction of a tunnel: the
//! caller reads a chunk from the source, hands it over, writes what the pump
//! says is unwritten, and reports how much the sink took. A `Relay` decides
//! when the whole tunnel ends: as soon as either direction ends.
use vstd::prelude::*;
use vstd::slice::slice_subrange;

verus! {

/// One direction of a tunnel.
pub struct Pump {
    buf: Vec<u8>,
    pos: usize,
    eof: bool,
    received: Ghost<Seq<u8>>,
    delivered: Ghost<Seq<u8>>,
}

impl Pump {
    /// Everything read from the source so far, in order.
    pub closed spec fn received(&self) -> Seq<u8> {
        self.received@
    }

    /// Everything written to the sink so far, in order.
    pub closed spec fn delivered(&self) -> Seq<u8> {
        self.delivered@
    }

    /// Read but not yet written.
    pub closed spec fn pending(&self) -> Seq<u8> {
        self.buf@.subrange(self.pos as int, self.buf@.len() as int)
    }

    /// The source has reported its end.
    pub closed spec fn at_eof(&self) -> bool {
        self.eof
    }

    pub closed spec fn wf(&self) -> bool {
        &&& self.pos <= self.buf@.len()
        &&& self.received@ == self.delivered@ + self.pending()
    }

    pub open spec fn finished(&self) -> bool {
        self.at_eof() && self.pending().len() == 0
    }

    pub fn new() -> (r: Pump)
        ensures
            r.wf(),
            r.received() == Seq::<u8>::empty(),
            r.delivered() == Seq::<u8>::empty(),
            r.pending() == Seq::<u8>::empty(),
            !r.at_eof(),
    {
        let r = Pump {
            buf: Vec::new(),
            pos: 0,
            eof: false,
            received: Ghost(Seq::empty()),
            delivered: Ghost(Seq::empty()),
        };
        assert(r.pending() =~= Seq::<u8>::empty());
        assert(r.received@ =~= r.delivered@ + r.pending());
        r
    }

    /// The pump takes a chunk from the source: everything read before has
    /// been written, and the source has not ended.
    pub fn wants_read(&self) -> (r: bool)
        requires
            self.wf(),
        ensures
            r == (!self.at_eof() && self.pending().len() == 0),
    {
        !self.eof && self.pos == self.buf.len()
    }

    /// All that was read has been written and the source has ended.
    pub fn is_finished(&self) -> (r: bool)
        requires
            self.wf(),
        ensures
            r == self.finished(),
    {
        self.eof && self.pos == self.buf.len()
    }

    /// A chunk read from the source; an empty one is the end of the source.
    pub fn on_read(&mut self, chunk: Vec<u8>)
        requires
            old(self).wf(),
            !old(self).at_eof(),
            old(self).pending().len() == 0,
        ensures
            final(self).wf(),
            final(self).delivered() == old(self).delivered(),
            final(self).received() == old(self).received() + chunk@,
            final(self).pending() == chunk@,
            final(self).at_eof() == (chunk@.len() == 0),
    {
        proof {
            self.received@ = self.received@ + chunk@;
        }
        self.eof = chunk.len() == 0;
        self.buf = chunk;
        self.pos = 0;
        assert(self.pending() =~= chunk@);
    }

    /// What is to be written to the sink next.
    pub fn unwritten(&self) -> (r: &[u8])
        requires
            self.wf(),
        ensures
            r@ == self.pending(),
    {
        slice_subrange(self.buf.as_slice(), self.pos, self.buf.len())
    }

    /// The sink took the first `n` unwritten bytes.
    pub fn on_written(&mut self, n: usize)
        requires
            old(self).wf(),
            0 < n <= old(self).pending().len(),
        ensures
            final(self).wf(),
            final(self).received() == old(self).received(),
            final(self).delivered() == old(self).delivered() + old(self).pending().subrange(
                0,
                n as int,
            ),
            final(self).pending() == old(self).pending().subrange(
                n as int,
                old(self).pending().len() as int,
            ),
            final(self).at_eof() == old(self).at_eof(),
    {
        let ghost p = self.pending();
        proof {
            self.delivered@ = self.delivered@ + p.subrange(0, n as int);
        }
        let len = self.buf.len();
        assert(self.pos + n <= len);
        self.pos = self.pos + n;
        assert(self.pending() =~= p.subrange(n as int, p.len() as int));
        assert(p =~= p.subrange(0, n as int) + p.subrange(n as int, p.len() as int));
        assert(self.received@ =~= self.delivered@ + self.pending());
    }
}

/// Bytes leave a pump exactly as they came in: what was written is always
/// the start of what was read, and once the pump is finished it is all of it.
pub proof fn pump_preserves_bytes(p: &Pump)
    requires
        p.wf(),
    ensures
        p.delivered() + p.pending() == p.received(),
        p.delivered().len() <= p.received().len(),
        p.delivered() == p.received().subrange(0, p.delivered().len() as int),
        p.finished() ==> p.delivered() == p.received(),
{
    assert((p.delivered() + p.pending()).subrange(0, p.delivered().len() as int) =~= p.delivered());
    if p.finished() {
        assert(p.delivered() + p.pending() =~= p.delivered());
    }
}

/// The two directions of a tunnel.
#[derive(Clone, Copy, Debug, PartialEq, Eq)]
pub enum Direction {
    /// From the client to the backend.
    Outbound,
    /// From the backend to the client.
    Inbound,
}

/// How a direction ended.
#[derive(Clone, Copy, Debug, PartialEq, Eq)]
pub enum CopyEnd {
    /// The source reached its end and everything was written.
    Closed,
    /// A read or a write failed.
    Failed,
}

/// The fate of one tunnel: it is over once either direction has ended, and
/// the other direction is then abandoned.
pub struct Relay {
    pub ended: Option<(Direction, CopyEnd)>,
}

impl Relay {
    pub fn new() -> (r: Relay)
        ensures
            r.ended is None,
    {
        Relay { ended: None }
    }

    pub fn is_over(&self) -> (r: bool)
        ensures
            r == self.ended is Some,
    {
        self.ended.is_some()
    }

    /// A direction ended. Returns whether the tunnel is to be torn down now:
    /// it is on the first end, of either direction and either kind, whatever
    /// the other direction is doing. Later ends change nothing.
    pub fn on_copy_end(&mut self, dir: Direction, end: CopyEnd) -> (r: bool)
        ensures
            old(self).ended is None ==> r && final(self).ended == Some((dir, end)),
            old(self).ended is Some ==> !r && final(self).ended == old(self).ended,
    {
        if self.ended.is_none() {
            self.ended = Some((dir, end));
            true
        } else {
            false
        }
    }
}

} // verus!
