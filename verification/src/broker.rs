//! The connection broker: validates reverse-dialed backend connections by
//! their preflight bytes, queues them, and pairs each arriving frontend
//! connection with the oldest queued backend, FIFO by validation order.

use vstd::prelude::*;
use crate::protocol::spec_preflight;
use crate::protocol::preflight_ok;

verus! {

/// A validated reverse connection awaiting pairing, known to the broker by
/// an opaque handle the caller chose (a socket's identity).
#[derive(Clone, Copy, Debug, PartialEq, Eq, Structural)]
pub struct PendingBackend {
    pub id: u64,
}

/// What the broker decides for an arriving frontend connection.
#[derive(Clone, Copy, Debug, PartialEq, Eq, Structural)]
pub enum PairingOutcome {
    /// Splice the frontend with this backend; the broker keeps no reference
    /// to either afterward.
    Paired(PendingBackend),
    /// No backend was available within the wait: close the frontend in both
    /// directions without sending any bytes to it.
    CloseFrontend,
}

/// What admitting a backend does to the queue: the queue grows by that
/// backend exactly when its first two bytes are the preflight magic.
pub open spec fn spec_offer(q: Seq<PendingBackend>, b: PendingBackend, first_bytes: Seq<u8>) -> Seq<
    PendingBackend,
> {
    if first_bytes == spec_preflight() {
        q.push(b)
    } else {
        q
    }
}

/// What pairing a frontend does: the oldest queued backend leaves the queue
/// and is paired, or an empty queue closes the frontend and stays empty.
pub open spec fn spec_pair(q: Seq<PendingBackend>) -> (Seq<PendingBackend>, PairingOutcome) {
    if q.len() > 0 {
        (q.subrange(1, q.len() as int), PairingOutcome::Paired(q[0]))
    } else {
        (q, PairingOutcome::CloseFrontend)
    }
}

/// The broker's pending-backend queue. Backends enter at the tail when
/// validated and leave at the head when paired; nothing else touches it.
pub struct ConnectionBroker {
    queue: Vec<PendingBackend>,
}

impl View for ConnectionBroker {
    type V = Seq<PendingBackend>;

    closed spec fn view(&self) -> Seq<PendingBackend> {
        self.queue@
    }
}

impl ConnectionBroker {
    /// A broker with no backend pending.
    pub fn new() -> (r: ConnectionBroker)
        ensures
            r@ == Seq::<PendingBackend>::empty(),
    {
        ConnectionBroker { queue: Vec::new() }
    }

    /// How many validated backends are waiting.
    pub fn pending(&self) -> (r: usize)
        ensures
            r == self@.len(),
    {
        self.queue.len()
    }

    /// Preflight-validate a backend connection by its first two bytes and
    /// queue it when they are the magic; otherwise it is discarded and the
    /// queue is untouched.
    pub fn offer_backend(&mut self, backend: PendingBackend, first_bytes: &Vec<u8>) -> (admitted:
        bool)
        ensures
            admitted <==> first_bytes@ == spec_preflight(),
            final(self)@ == spec_offer(old(self)@, backend, first_bytes@),
            admitted ==> final(self)@ == old(self)@.push(backend),
            !admitted ==> final(self)@ == old(self)@,
    {
        if preflight_ok(first_bytes) {
            self.queue.push(backend);
            true
        } else {
            false
        }
    }

    /// Pair an arriving frontend: hand out the oldest queued backend, or
    /// decide to close the frontend when none is queued (the caller's
    /// bounded wait has elapsed). Nothing is ever written to a frontend
    /// that is closed this way.
    pub fn pair_frontend(&mut self) -> (r: PairingOutcome)
        ensures
            (final(self)@, r) == spec_pair(old(self)@),
            old(self)@.len() > 0 ==> r == PairingOutcome::Paired(old(self)@[0]) && final(self)@
                == old(self)@.subrange(1, old(self)@.len() as int),
            old(self)@.len() == 0 ==> r == PairingOutcome::CloseFrontend && final(self)@ == old(
                self,
            )@,
    {
        if self.queue.len() > 0 {
            let b = self.queue.remove(0);
            PairingOutcome::Paired(b)
        } else {
            PairingOutcome::CloseFrontend
        }
    }
}

/// FIFO pairing law: from an empty queue, admitting backends `b1` then `b2`
/// (both with the correct preflight) and then pairing two frontends yields
/// `b1` for the first frontend and `b2` for the second, leaving the queue
/// empty.
pub proof fn lemma_fifo_pairing(b1: PendingBackend, b2: PendingBackend)
    ensures
        ({
            let q1 = spec_offer(Seq::<PendingBackend>::empty(), b1, spec_preflight());
            let q2 = spec_offer(q1, b2, spec_preflight());
            let (q3, r1) = spec_pair(q2);
            let (q4, r2) = spec_pair(q3);
            r1 == PairingOutcome::Paired(b1) && r2 == PairingOutcome::Paired(b2) && q4.len() == 0
        }),
{
    let q1 = spec_offer(Seq::<PendingBackend>::empty(), b1, spec_preflight());
    let q2 = spec_offer(q1, b2, spec_preflight());
    assert(q2.len() == 2 && q2[0] == b1 && q2[1] == b2);
    let (q3, r1) = spec_pair(q2);
    assert(q3 =~= seq![b2]);
    let (q4, r2) = spec_pair(q3);
    assert(q4.len() == 0);
}

/// A backend whose first bytes are not the preflight magic never enters the
/// queue: the queue after the offer is exactly the queue before it.
pub proof fn lemma_bad_preflight_discarded(
    q: Seq<PendingBackend>,
    b: PendingBackend,
    first_bytes: Seq<u8>,
)
    requires
        first_bytes != spec_preflight(),
    ensures
        spec_offer(q, b, first_bytes) == q,
{
}

} // verus!
