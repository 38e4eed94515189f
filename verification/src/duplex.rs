//! The duplex transfer runtime's logic: one directional copy loop per
//! direction (standard input to the device's send half, and the device's
//! receive half to standard output), plus the aggregation of the two
//! outcomes into the session result.
//!
//! The loops block in OS reads and writes, so the process around the
//! library runs each on its own thread and drives this state machine:
//! it performs the action the state asks for, reports the result back,
//! and repeats until the state says the loop is over.

use vstd::prelude::*;
use crate::error::Error;

verus! {

/// What the driver of a copy loop must do next.
#[derive(Debug, Clone, Copy, PartialEq, Eq, Structural)]
pub enum CopyAction {
    /// Read the next chunk from the source.
    ReadSource,
    /// Hand the unsent rest of the pending chunk to the sink.
    WriteChunk,
    /// The loop is over; collect the outcome.
    Stop,
}

/// The state of one directional copy loop. A chunk read from the source
/// becomes pending; the sink accepts it piecewise — a partial write leaves
/// the rest pending — and only a fully drained chunk is followed by the
/// next read. An empty read ends the loop cleanly; any failure ends it
/// with that failure.
#[derive(Debug)]
pub struct CopyState {
    /// The chunk last read from the source.
    pub pending: Vec<u8>,
    /// How many bytes of `pending` the sink has accepted so far.
    pub written: usize,
    /// Whether the loop has ended, by end of stream or by failure.
    pub finished: bool,
    /// The failure that ended the loop, if one did.
    pub failure: Option<Error>,
}

impl CopyState {
    /// Well-formed: the accepted count never exceeds the pending chunk,
    /// and a failure is only ever recorded on a finished loop.
    pub open spec fn wf(self) -> bool {
        &&& self.written <= self.pending@.len()
        &&& self.failure is Some ==> self.finished
    }

    /// The unsent rest of the pending chunk: exactly the bytes the driver
    /// hands to the sink on `WriteChunk`.
    pub open spec fn unsent(self) -> Seq<u8> {
        self.pending@.subrange(self.written as int, self.pending@.len() as int)
    }

    /// The bytes of the pending chunk the sink has accepted so far.
    pub open spec fn consumed(self) -> Seq<u8> {
        self.pending@.subrange(0, self.written as int)
    }

    /// Whether the loop ended without failure.
    pub open spec fn clean(self) -> bool {
        self.finished && self.failure is None
    }

    /// A fresh loop: nothing pending, nothing failed.
    pub fn new() -> (r: CopyState)
        ensures
            r.wf(),
            !r.finished,
            r.failure is None,
            r.pending@.len() == 0,
            r.written == 0,
    {
        CopyState { pending: Vec::new(), written: 0, finished: false, failure: None }
    }

    /// What the driver must do next: stop once the loop ended, drain a
    /// partly written chunk before anything else, and otherwise read.
    pub fn action(&self) -> (a: CopyAction)
        requires
            self.wf(),
        ensures
            a is Stop <==> self.finished,
            !self.finished ==> (a is WriteChunk <==> self.written < self.pending@.len()),
            !self.finished ==> (a is ReadSource <==> self.written == self.pending@.len()),
    {
        if self.finished {
            CopyAction::Stop
        } else if self.written < self.pending.len() {
            CopyAction::WriteChunk
        } else {
            CopyAction::ReadSource
        }
    }

    /// Takes the chunk the source delivered. An empty chunk is the
    /// source's end of stream: the loop ends cleanly, with nothing more
    /// written. Any other chunk becomes pending, to be drained from its
    /// start before the next read.
    pub fn on_source_chunk(&mut self, data: Vec<u8>)
        requires
            old(self).wf(),
            !old(self).finished,
            old(self).written == old(self).pending@.len(),
        ensures
            final(self).wf(),
            final(self).failure is None,
            data@.len() == 0 ==> final(self).finished && final(self).clean()
                && final(self).written == old(self).written,
            data@.len() > 0 ==> !final(self).finished && final(self).pending@ == data@
                && final(self).written == 0 && final(self).unsent() == data@,
    {
        if data.len() == 0 {
            self.finished = true;
        } else {
            self.pending = data;
            self.written = 0;
            proof {
                assert(self.unsent() =~= self.pending@);
            }
        }
    }

    /// Records the sink's acceptance of the first `n` bytes of the unsent
    /// rest. A partial write (`n` short of the rest) leaves the remainder
    /// pending; the accepted bytes always extend the drained prefix, so
    /// the chunk reaches the sink in order and, once nothing is unsent,
    /// in full.
    pub fn on_sink_accept(&mut self, n: usize)
        requires
            old(self).wf(),
            !old(self).finished,
            old(self).written < old(self).pending@.len(),
            n <= old(self).pending@.len() - old(self).written,
        ensures
            final(self).wf(),
            !final(self).finished,
            final(self).failure is None,
            final(self).pending@ == old(self).pending@,
            final(self).written == old(self).written + n,
            final(self).unsent() == old(self).unsent().skip(n as int),
            final(self).consumed() == old(self).consumed() + old(self).unsent().take(n as int),
    {
        // The chunk's length bounds the sum: a Vec's length fits in usize.
        let chunk_len = self.pending.len();
        assert(self.written + n <= chunk_len);
        self.written = self.written + n;
        proof {
            assert(self.unsent() =~= old(self).unsent().skip(n as int));
            assert(self.consumed() =~= old(self).consumed() + old(self).unsent().take(n as int));
        }
    }

    /// Records a failure of the source or of the sink: the loop ends with
    /// it, and it is remembered as the loop's outcome.
    pub fn on_failure(&mut self, err: Error)
        requires
            old(self).wf(),
            !old(self).finished,
        ensures
            final(self).wf(),
            final(self).finished,
            final(self).failure == Some(err),
    {
        self.failure = Some(err);
        self.finished = true;
    }
}

/// Law: a chunk reaches the sink in order and in full. In every
/// well-formed loop state, the bytes the sink has accepted plus the
/// unsent rest are exactly the pending chunk, byte for byte — partial
/// writes never reorder, drop or duplicate anything — and once nothing
/// is unsent the sink has accepted the whole chunk.
pub proof fn lemma_drain_in_order(s: CopyState)
    requires
        s.wf(),
    ensures
        s.consumed() + s.unsent() =~= s.pending@,
        s.consumed().len() + s.unsent().len() == s.pending@.len(),
        s.unsent().len() == 0 ==> s.consumed() =~= s.pending@,
{
}

/// The session outcome of the two copy loops: the first failure in join
/// order — the inbound loop's outcome is examined first — or none when
/// both loops ended cleanly.
pub fn first_failure(inbound: Option<Error>, outbound: Option<Error>) -> (r: Option<Error>)
    ensures
        inbound is Some ==> r == inbound,
        inbound is None ==> r == outbound,
{
    match inbound {
        Some(e) => Some(e),
        None => outbound,
    }
}

/// The process exit status for a session outcome: zero only on a clean,
/// signal-free completion of both copy loops, one on any failure.
pub fn exit_code(outcome: &Option<Error>) -> (r: i32)
    ensures
        r == 0 <==> outcome is None,
        outcome is Some ==> r == 1,
{
    match outcome {
        None => 0,
        Some(_) => 1,
    }
}

} // verus!
