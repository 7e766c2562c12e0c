//! The relay engine: two copy loops, one per direction, splice two streams.
//!
//! Each loop reads from its source into a fixed buffer and writes what it
//! read to its destination; on end of stream it shuts the destination's
//! write direction and ends. [`CopyLoop`] makes each of those decisions and
//! keeps, as ghost state, every byte read and every byte written.
//! [`RelayJoin`] combines the ends of the two loops: the relay succeeds once
//! both have shut down, and the first failure is the one reported.
use vstd::prelude::*;

verus! {

/// Size of the buffer each direction copies through.
pub const RELAY_BUFFER_SIZE: usize = 4096;

#[derive(Clone, Copy, Debug, PartialEq, Eq, Structural)]
pub enum CopyPhase {
    /// Waiting for the next read from the source.
    Reading,
    /// Writing the last chunk read to the destination.
    Writing,
    /// The source ended; shutting the destination's write direction.
    ShuttingDown,
    /// The destination was shut down: this direction is complete.
    Finished,
    /// A read, write or shutdown failed, or an outcome came out of order.
    Failed,
}

/// What the caller is to do next in one direction.
#[derive(Clone, Copy, Debug, PartialEq, Eq, Structural)]
pub enum CopyAction {
    /// Write the first `len` bytes just read to the destination.
    Write { len: usize },
    /// Read the next chunk from the source.
    Read,
    /// Shut down the write direction of the destination only.
    ShutdownWrite,
    /// This direction completed.
    Done,
    /// This direction failed.
    Stop,
}

/// One direction of a relay.
pub struct CopyLoop {
    pub phase: CopyPhase,
    /// Every byte read from the source so far.
    pub read: Ghost<Seq<u8>>,
    /// Every byte written to the destination so far.
    pub written: Ghost<Seq<u8>>,
    /// The chunk being written.
    pub pending: Ghost<Seq<u8>>,
}

impl CopyLoop {
    /// The invariant of a direction: what was written is what was read, up
    /// to the chunk being written.
    pub open spec fn wf(&self) -> bool {
        match self.phase {
            CopyPhase::Writing => self.read@ == self.written@ + self.pending@ && self.pending@.len()
                > 0,
            CopyPhase::Failed => self.read@.len() >= self.written@.len(),
            _ => self.read@ == self.written@,
        }
    }

    pub open spec fn read_next(self, data: Seq<u8>) -> (CopyLoop, CopyAction) {
        if self.phase != CopyPhase::Reading {
            (CopyLoop { phase: CopyPhase::Failed, ..self }, CopyAction::Stop)
        } else if data.len() == 0 {
            (CopyLoop { phase: CopyPhase::ShuttingDown, ..self }, CopyAction::ShutdownWrite)
        } else {
            (
                CopyLoop {
                    phase: CopyPhase::Writing,
                    read: Ghost(self.read@ + data),
                    pending: Ghost(data),
                    ..self
                },
                CopyAction::Write { len: data.len() as usize },
            )
        }
    }

    pub open spec fn written_next(self) -> (CopyLoop, CopyAction) {
        if self.phase != CopyPhase::Writing {
            (CopyLoop { phase: CopyPhase::Failed, ..self }, CopyAction::Stop)
        } else {
            (
                CopyLoop {
                    phase: CopyPhase::Reading,
                    written: Ghost(self.written@ + self.pending@),
                    pending: Ghost(Seq::empty()),
                    ..self
                },
                CopyAction::Read,
            )
        }
    }

    pub open spec fn shutdown_next(self) -> (CopyLoop, CopyAction) {
        if self.phase != CopyPhase::ShuttingDown {
            (CopyLoop { phase: CopyPhase::Failed, ..self }, CopyAction::Stop)
        } else {
            (CopyLoop { phase: CopyPhase::Finished, ..self }, CopyAction::Done)
        }
    }

    /// A fresh direction: nothing read, nothing written, reading first.
    pub fn new() -> (r: CopyLoop)
        ensures
            r.phase == CopyPhase::Reading,
            r.read@ == Seq::<u8>::empty(),
            r.written@ == Seq::<u8>::empty(),
            r.wf(),
    {
        CopyLoop {
            phase: CopyPhase::Reading,
            read: Ghost(Seq::empty()),
            written: Ghost(Seq::empty()),
            pending: Ghost(Seq::empty()),
        }
    }

    /// A read from the source returned `data`; an empty read is the end of
    /// the source's stream.
    pub fn on_read(&mut self, data: &[u8]) -> (r: CopyAction)
        requires
            old(self).wf(),
        ensures
            final(self).wf(),
            (*final(self), r) == old(self).read_next(data@),
    {
        if self.phase != CopyPhase::Reading {
            self.phase = CopyPhase::Failed;
            return CopyAction::Stop;
        }
        if data.len() == 0 {
            self.phase = CopyPhase::ShuttingDown;
            CopyAction::ShutdownWrite
        } else {
            self.phase = CopyPhase::Writing;
            self.read = Ghost(self.read@ + data@);
            self.pending = Ghost(data@);
            CopyAction::Write { len: data.len() }
        }
    }

    /// The chunk was written in full to the destination.
    pub fn on_written(&mut self) -> (r: CopyAction)
        requires
            old(self).wf(),
        ensures
            final(self).wf(),
            (*final(self), r) == old(self).written_next(),
    {
        if self.phase != CopyPhase::Writing {
            self.phase = CopyPhase::Failed;
            return CopyAction::Stop;
        }
        self.phase = CopyPhase::Reading;
        self.written = Ghost(self.written@ + self.pending@);
        self.pending = Ghost(Seq::empty());
        CopyAction::Read
    }

    /// The destination's write direction was shut down.
    pub fn on_shutdown(&mut self) -> (r: CopyAction)
        requires
            old(self).wf(),
        ensures
            final(self).wf(),
            (*final(self), r) == old(self).shutdown_next(),
    {
        if self.phase != CopyPhase::ShuttingDown {
            self.phase = CopyPhase::Failed;
            return CopyAction::Stop;
        }
        self.phase = CopyPhase::Finished;
        CopyAction::Done
    }

    /// A read, write or shutdown in this direction failed.
    pub fn on_error(&mut self) -> (r: CopyAction)
        requires
            old(self).wf(),
        ensures
            final(self).wf(),
            r == CopyAction::Stop,
            final(self).phase == CopyPhase::Failed,
            final(self).read == old(self).read,
            final(self).written == old(self).written,
    {
        self.phase = CopyPhase::Failed;
        CopyAction::Stop
    }

    /// Whether this direction completed.
    pub fn is_finished(&self) -> (r: bool)
        ensures
            r == (self.phase == CopyPhase::Finished),
    {
        self.phase == CopyPhase::Finished
    }
}

/// The two directions of a relay between a client and an upstream stream.
#[derive(Clone, Copy, Debug, PartialEq, Eq, Structural)]
pub enum Direction {
    /// Reads the client, writes the upstream.
    ClientToUpstream,
    /// Reads the upstream, writes the client.
    UpstreamToClient,
}

/// How one direction's loop ended.
#[derive(Clone, Copy, Debug, PartialEq, Eq, Structural)]
pub enum LoopEnd {
    /// It shut its destination down after its source ended.
    Finished,
    /// It failed with an error, which the caller keeps.
    Failed,
}

/// What the relay as a whole does after a loop ended.
#[derive(Clone, Copy, Debug, PartialEq, Eq, Structural)]
pub enum JoinVerdict {
    /// The other direction is still running: keep waiting for it.
    Wait,
    /// Both directions finished: the relay succeeded.
    Complete,
    /// Report the error of this direction's loop.
    Fail(Direction),
}

/// The join of the two directions.
#[derive(Clone, Copy, Debug, PartialEq, Eq, Structural)]
pub struct RelayJoin {
    pub client_to_upstream: Option<LoopEnd>,
    pub upstream_to_client: Option<LoopEnd>,
    /// The first direction that failed, whose error the relay reports.
    pub first_failure: Option<Direction>,
}

impl RelayJoin {
    pub open spec fn end_of(self, d: Direction) -> Option<LoopEnd> {
        match d {
            Direction::ClientToUpstream => self.client_to_upstream,
            Direction::UpstreamToClient => self.upstream_to_client,
        }
    }

    pub open spec fn with_end(self, d: Direction, e: LoopEnd) -> RelayJoin {
        match d {
            Direction::ClientToUpstream => RelayJoin { client_to_upstream: Some(e), ..self },
            Direction::UpstreamToClient => RelayJoin { upstream_to_client: Some(e), ..self },
        }
    }

    /// The join after direction `d` ended with `e`, and its verdict.
    pub open spec fn end_next(self, d: Direction, e: LoopEnd) -> (RelayJoin, JoinVerdict) {
        let j = self.with_end(d, e);
        let first = if self.first_failure is None && e == LoopEnd::Failed {
            Some(d)
        } else {
            self.first_failure
        };
        let j2 = RelayJoin { first_failure: first, ..j };
        (
            j2,
            match first {
                Some(f) => JoinVerdict::Fail(f),
                None => if j2.client_to_upstream == Some(LoopEnd::Finished)
                    && j2.upstream_to_client == Some(LoopEnd::Finished) {
                    JoinVerdict::Complete
                } else {
                    JoinVerdict::Wait
                },
            },
        )
    }

    pub fn new() -> (r: RelayJoin)
        ensures
            r == (RelayJoin {
                client_to_upstream: None,
                upstream_to_client: None,
                first_failure: None,
            }),
    {
        RelayJoin { client_to_upstream: None, upstream_to_client: None, first_failure: None }
    }

    /// Records that direction `d` ended with `e` and says what the relay does.
    pub fn on_end(&mut self, d: Direction, e: LoopEnd) -> (r: JoinVerdict)
        ensures
            (*final(self), r) == old(self).end_next(d, e),
    {
        match d {
            Direction::ClientToUpstream => self.client_to_upstream = Some(e),
            Direction::UpstreamToClient => self.upstream_to_client = Some(e),
        }
        if self.first_failure.is_none() && e == LoopEnd::Failed {
            self.first_failure = Some(d);
        }
        match self.first_failure {
            Some(f) => JoinVerdict::Fail(f),
            None => {
                if self.client_to_upstream == Some(LoopEnd::Finished) && self.upstream_to_client
                    == Some(LoopEnd::Finished) {
                    JoinVerdict::Complete
                } else {
                    JoinVerdict::Wait
                }
            },
        }
    }
}

/// Half-close propagation. In one direction, the destination's write side
/// is shut only when the source reports end of stream, and only after every
/// byte read from the source was written to the destination; once shut,
/// everything read was delivered, in order. Across directions, one finishing
/// never ends the relay while the other still runs: the relay completes only
/// when both have finished, and a failure is reported as the first one.
pub proof fn half_close_propagation(c: CopyLoop, data: Seq<u8>, j: RelayJoin, d: Direction)
    requires
        c.wf(),
    ensures
        c.read_next(data).1 == CopyAction::ShutdownWrite <==> (c.phase == CopyPhase::Reading
            && data.len() == 0),
        c.read_next(data).1 == CopyAction::ShutdownWrite ==> c.read_next(data).0.written@
            == c.read_next(data).0.read@,
        c.phase == CopyPhase::ShuttingDown ==> c.shutdown_next().0.phase == CopyPhase::Finished
            && c.shutdown_next().0.written@ == c.read@,
        c.written_next().1 != CopyAction::ShutdownWrite,
        c.shutdown_next().1 != CopyAction::ShutdownWrite,
        j.first_failure is None && j.end_of(d) is None && j.end_of(other(d)) is None ==> j.end_next(
            d,
            LoopEnd::Finished,
        ).1 == JoinVerdict::Wait,
        j.first_failure is None && j.end_of(other(d)) == Some(LoopEnd::Finished) ==> j.end_next(
            d,
            LoopEnd::Finished,
        ).1 == JoinVerdict::Complete,
        j.first_failure == Some(other(d)) ==> j.end_next(d, LoopEnd::Failed).1 == JoinVerdict::Fail(
            other(d),
        ),
        j.end_next(d, LoopEnd::Finished).0.end_of(other(d)) == j.end_of(other(d)),
{
}

/// The opposite direction.
pub open spec fn other(d: Direction) -> Direction {
    match d {
        Direction::ClientToUpstream => Direction::UpstreamToClient,
        Direction::UpstreamToClient => Direction::ClientToUpstream,
    }
}

} // verus!
