//! The relay engine's model: two independent unidirectional workers splice
//! bytes between two live connections. Each worker copies chunks verbatim,
//! and on end of stream or transport error half-closes the read side of its
//! source and the write side of its destination, touching nothing else.

use vstd::prelude::*;

verus! {

/// Why a relay direction stopped.
#[derive(Clone, Copy, Debug, PartialEq, Eq, Structural)]
pub enum RelayEnd {
    /// The source reached end of stream.
    Eof,
    /// A read or write on this direction failed. Absorbed, never reported
    /// upward.
    TransportError,
}

/// The half-closes a finished relay direction performs: the read side of
/// its source and the write side of its destination, so the peer's read
/// observes end of stream while the opposite direction keeps flowing.
#[derive(Clone, Copy, Debug, PartialEq, Eq, Structural)]
pub struct CloseAction {
    pub shut_source_read: bool,
    pub shut_dest_write: bool,
}

/// One direction of a relay: a blocking copy loop from a source connection
/// to a destination connection, with no framing of its own.
pub struct RelayDirection {
    /// Whether this direction is still copying.
    pub active: bool,
    /// Every byte forwarded so far, in order.
    pub forwarded: Ghost<Seq<u8>>,
}

impl RelayDirection {
    /// A direction that has copied nothing yet.
    pub fn new() -> (r: RelayDirection)
        ensures
            r.active,
            r.forwarded@ == Seq::<u8>::empty(),
    {
        RelayDirection { active: true, forwarded: Ghost(Seq::empty()) }
    }

    /// Forward one chunk read from the source: the bytes to write to the
    /// destination are exactly the bytes read, appended in order to the
    /// forwarded stream. Chunking is arbitrary and changes nothing.
    pub fn forward_chunk(&mut self, chunk: &Vec<u8>) -> (out: Vec<u8>)
        requires
            old(self).active,
        ensures
            out@ == chunk@,
            final(self).active,
            final(self).forwarded@ == old(self).forwarded@ + chunk@,
    {
        proof {
            self.forwarded = Ghost(self.forwarded@ + chunk@);
        }
        let mut out: Vec<u8> = Vec::new();
        let mut i: usize = 0;
        while i < chunk.len()
            invariant
                i <= chunk.len(),
                out@ == chunk@.subrange(0, i as int),
            decreases chunk.len() - i,
        {
            out.push(chunk[i]);
            assert(out@ =~= chunk@.subrange(0, i as int + 1));
            i += 1;
        }
        assert(out@ =~= chunk@);
        out
    }

    /// End this direction on end of stream or a transport error: it stops,
    /// its forwarded stream is final, and the caller is to half-close the
    /// source's read side and the destination's write side — and nothing
    /// more, so the opposite direction is untouched.
    pub fn finish(&mut self, end: RelayEnd) -> (r: CloseAction)
        requires
            old(self).active,
        ensures
            !final(self).active,
            final(self).forwarded@ == old(self).forwarded@,
            r.shut_source_read,
            r.shut_dest_write,
    {
        let _ = end;
        self.active = false;
        CloseAction { shut_source_read: true, shut_dest_write: true }
    }
}

/// Two live connections wired together: one worker per direction, each
/// owning its disjoint read-half/write-half pair, never coordinating
/// beyond the sockets' own half-close semantics.
pub struct RelayPair {
    /// The worker copying from connection A to connection B.
    pub a_to_b: RelayDirection,
    /// The worker copying from connection B to connection A.
    pub b_to_a: RelayDirection,
}

impl RelayPair {
    /// A freshly formed pair with nothing copied in either direction.
    pub fn new() -> (r: RelayPair)
        ensures
            r.a_to_b.active,
            r.a_to_b.forwarded@ == Seq::<u8>::empty(),
            r.b_to_a.active,
            r.b_to_a.forwarded@ == Seq::<u8>::empty(),
    {
        RelayPair { a_to_b: RelayDirection::new(), b_to_a: RelayDirection::new() }
    }

    /// Forward one chunk from A to B. The opposite direction is untouched.
    pub fn forward_a_to_b(&mut self, chunk: &Vec<u8>) -> (out: Vec<u8>)
        requires
            old(self).a_to_b.active,
        ensures
            out@ == chunk@,
            final(self).a_to_b.active,
            final(self).a_to_b.forwarded@ == old(self).a_to_b.forwarded@ + chunk@,
            final(self).b_to_a == old(self).b_to_a,
    {
        self.a_to_b.forward_chunk(chunk)
    }

    /// Forward one chunk from B to A. The opposite direction is untouched.
    pub fn forward_b_to_a(&mut self, chunk: &Vec<u8>) -> (out: Vec<u8>)
        requires
            old(self).b_to_a.active,
        ensures
            out@ == chunk@,
            final(self).b_to_a.active,
            final(self).b_to_a.forwarded@ == old(self).b_to_a.forwarded@ + chunk@,
            final(self).a_to_b == old(self).a_to_b,
    {
        self.b_to_a.forward_chunk(chunk)
    }

    /// End the A-to-B direction. Its half-closes make B's read observe end
    /// of stream; the B-to-A direction remains independently operative,
    /// wholly unchanged, until it completes on its own.
    pub fn finish_a_to_b(&mut self, end: RelayEnd) -> (r: CloseAction)
        requires
            old(self).a_to_b.active,
        ensures
            !final(self).a_to_b.active,
            final(self).a_to_b.forwarded@ == old(self).a_to_b.forwarded@,
            r.shut_source_read,
            r.shut_dest_write,
            final(self).b_to_a == old(self).b_to_a,
    {
        self.a_to_b.finish(end)
    }

    /// End the B-to-A direction; the A-to-B direction is wholly unchanged.
    pub fn finish_b_to_a(&mut self, end: RelayEnd) -> (r: CloseAction)
        requires
            old(self).b_to_a.active,
        ensures
            !final(self).b_to_a.active,
            final(self).b_to_a.forwarded@ == old(self).b_to_a.forwarded@,
            r.shut_source_read,
            r.shut_dest_write,
            final(self).a_to_b == old(self).a_to_b,
    {
        self.b_to_a.finish(end)
    }
}

/// The whole stream carried by a sequence of chunks, in order.
pub open spec fn spec_concat(cs: Seq<Seq<u8>>) -> Seq<u8>
    decreases cs.len(),
{
    if cs.len() == 0 {
        Seq::empty()
    } else {
        spec_concat(cs.drop_last()) + cs.last()
    }
}

/// The forwarded stream after feeding `cs` chunk by chunk to a direction
/// whose stream so far is `log`: each chunk is appended verbatim.
pub open spec fn spec_relay_run(log: Seq<u8>, cs: Seq<Seq<u8>>) -> Seq<u8>
    decreases cs.len(),
{
    if cs.len() == 0 {
        log
    } else {
        spec_relay_run(log, cs.drop_last()) + cs.last()
    }
}

/// Relay fidelity for any chunking: feeding any sequence of chunks through
/// a direction delivers exactly their concatenation, unmodified and in
/// order, whatever the chunk boundaries were.
pub proof fn lemma_relay_fidelity(log: Seq<u8>, cs: Seq<Seq<u8>>)
    ensures
        spec_relay_run(log, cs) == log + spec_concat(cs),
    decreases cs.len(),
{
    if cs.len() == 0 {
        assert(spec_relay_run(log, cs) =~= log + spec_concat(cs));
    } else {
        lemma_relay_fidelity(log, cs.drop_last());
        assert(spec_relay_run(log, cs) =~= log + spec_concat(cs));
    }
}

} // verus!
