//! The caller-side handle: builds outgoing request envelopes, allocates
//! correlation ids from one per-handle monotonic counter, and matches
//! incoming responses to pending calls by id.
//!
//! The hosting channel delivers every incoming envelope to the handle;
//! [`Worker::deliver`] appends it to the handle's observation log. Each
//! pending call, and each readiness wait, remembers the log position at
//! which it attached and scans only from there: the incoming stream is in
//! effect broadcast to every pending waiter, and each waiter resolves on
//! the first envelope whose id matches its own, ignoring all others. An
//! envelope that arrived before a waiter attached is never seen by that
//! waiter — which is why the readiness handshake requires the wait to be
//! attached before the peer's signal can be sent.

use vstd::prelude::*;
use crate::codec::MessageReturn;
use crate::codec::MessageSend;
use crate::envelope::Envelope;
use crate::value::ChannelValue;
use crate::value::TransferList;

verus! {

/// The index of the first envelope at or after `from` that answers the
/// call with this id, if any.
pub open spec fn first_match_at(log: Seq<Envelope>, from: int, id: u64) -> Option<int>
    decreases log.len() - from,
    when 0 <= from <= log.len()
{
    if from >= log.len() {
        None
    } else if log[from].answers(id) {
        Some(from)
    } else {
        first_match_at(log, from + 1, id)
    }
}

/// What `first_match_at` finds: a match is in range, answers the id, and
/// nothing before it does; no match means nothing in range answers.
pub proof fn lemma_first_match_at(log: Seq<Envelope>, from: int, id: u64)
    requires
        0 <= from <= log.len(),
    ensures
        match first_match_at(log, from, id) {
            Some(k) => {
                &&& from <= k < log.len()
                &&& log[k].answers(id)
                &&& forall|j: int| from <= j < k ==> !(#[trigger] log[j]).answers(id)
            },
            None => forall|j: int| from <= j < log.len() ==> !(#[trigger] log[j]).answers(id),
        },
    decreases log.len() - from,
{
    if from < log.len() && !log[from].answers(id) {
        lemma_first_match_at(log, from + 1, id);
    }
}

/// If nothing in `[from, k)` answers the id and `log[k]` does, the scan
/// finds exactly `k`. In particular, when `k` is the only answering index
/// at all, the scan finds it wherever it lies in the log.
pub proof fn lemma_first_match_found(log: Seq<Envelope>, from: int, id: u64, k: int)
    requires
        0 <= from <= k < log.len(),
        log[k].answers(id),
        forall|j: int| from <= j < k ==> !(#[trigger] log[j]).answers(id),
    ensures
        first_match_at(log, from, id) == Some(k),
    decreases log.len() - from,
{
    if from < k {
        lemma_first_match_found(log, from + 1, id, k);
    }
}

/// The process's single source of correlation ids. Exactly one allocator
/// exists per process — the hosting code creates it once and threads it
/// through every send on every handle — so no two in-flight calls in the
/// process ever share an id, whichever handles issued them. The counter
/// only ever advances; nothing resets it.
pub struct IdAllocator {
    next: u64,
}

impl IdAllocator {
    /// The next correlation id this allocator will hand out. Every id
    /// already handed out is smaller.
    pub closed spec fn counter(self) -> u64 {
        self.next
    }

    /// The one allocator of the process, created once at startup.
    pub fn new() -> (r: IdAllocator)
        ensures
            r.counter() == 0,
    {
        IdAllocator { next: 0 }
    }

    /// Hands out the next correlation id and advances: ids are strictly
    /// increasing in allocation order, across every handle that draws
    /// from this allocator.
    fn fresh(&mut self) -> (r: u64)
        requires
            old(self).counter() < u64::MAX,
        ensures
            r == old(self).counter(),
            final(self).counter() == old(self).counter() + 1,
    {
        let id = self.next;
        self.next = self.next + 1;
        id
    }

    /// Whether this allocator has handed out every correlation id it
    /// ever can. Hosting code checks this before a send; an exhausted
    /// allocator admits no further calls in the process.
    pub fn exhausted(&self) -> (r: bool)
        ensures
            r == (self.counter() == u64::MAX),
    {
        self.next == u64::MAX
    }
}

/// The caller-side handle over the physical channel to one callee
/// execution context.
pub struct Worker {
    inbox: Vec<Envelope>,
}

/// One outgoing request under construction: the operation name and the
/// arguments encoded so far, in call order, with the transfer list their
/// encodings fed.
pub struct WorkerCall {
    /// The operation name the request will carry.
    pub name: String,
    /// The encoded arguments, in the order the builder received them.
    pub args: Vec<ChannelValue>,
    /// The buffers registered for ownership transfer while encoding.
    pub transfer: TransferList,
}

/// One call awaiting its response: the correlation id to match and the
/// log position at which this call began listening.
pub struct PendingCall {
    /// The correlation id allocated to this call.
    pub id: u64,
    /// Envelopes before this log position are never seen by this call.
    pub cursor: usize,
}

/// One readiness wait: resolves on the first readiness envelope observed
/// at or after the position at which the wait attached.
pub struct PendingLoad {
    /// Envelopes before this log position are never seen by this wait.
    pub cursor: usize,
}

impl Worker {
    /// The envelopes this handle has observed from the channel, oldest
    /// first.
    pub closed spec fn log(self) -> Seq<Envelope> {
        self.inbox@
    }

    /// A fresh handle: nothing observed yet. Correlation ids are not the
    /// handle's: every send draws from the process's one [`IdAllocator`].
    pub fn new() -> (r: Worker)
        ensures
            r.log() == Seq::<Envelope>::empty(),
    {
        let r = Worker { inbox: Vec::new() };
        proof {
            assert(r.log() =~= Seq::<Envelope>::empty());
        }
        r
    }

    /// One envelope arrives from the channel and joins the observation
    /// log. The channel preserves the order of messages within this
    /// direction, so delivery order is observation order.
    pub fn deliver(&mut self, env: Envelope)
        ensures
            final(self).log() == old(self).log().push(env),
    {
        self.inbox.push(env);
    }

    /// How many envelopes this handle has observed so far. Every waiter's
    /// attach position lies at or before this, which hosting code can
    /// test before it scans.
    pub fn observed(&self) -> (r: usize)
        ensures
            r == self.log().len(),
    {
        self.inbox.len()
    }

    /// Begins building one outgoing request for the named operation.
    pub fn call(&self, name: &str) -> (r: WorkerCall)
        ensures
            r.name@ == name@,
            r.args@ == Seq::<ChannelValue>::empty(),
            r.transfer@ == Seq::<Seq<u8>>::empty(),
    {
        let r = WorkerCall { name: name.to_owned(), args: Vec::new(), transfer: TransferList::new() };
        proof {
            assert(r.args@ =~= Seq::<ChannelValue>::empty());
        }
        r
    }

    /// Attaches a readiness wait at the current log position. Only a
    /// readiness signal observed from here on resolves it; attach the wait
    /// before the peer can send the signal, or the signal is missed.
    pub fn wait_loaded(&self) -> (r: PendingLoad)
        ensures
            r.cursor == self.log().len(),
    {
        PendingLoad { cursor: self.inbox.len() }
    }
}

impl WorkerCall {
    /// Appends one typed argument: it is encoded immediately, so argument
    /// order on the wire is call order, and any buffer it owns joins this
    /// request's transfer list.
    pub fn arg<A: MessageSend>(self, value: A) -> (r: WorkerCall)
        ensures
            r.name@ == self.name@,
            r.args@ == self.args@.push(value.spec_encoded()),
            r.transfer@ == self.transfer@ + value.spec_transfers(),
    {
        let mut this = self;
        let encoded = value.into_js(&mut this.transfer);
        this.args.push(encoded);
        this
    }

    /// Terminal builder step: draws a fresh correlation id from the
    /// process's one allocator, builds the request envelope, and registers
    /// the pending call at this handle's current log position. The
    /// returned envelope and transfer list go to the channel as one atomic
    /// send; the pending call then awaits the response with the same id.
    pub fn send(self, worker: &Worker, ids: &mut IdAllocator) -> (r: (
        Envelope,
        TransferList,
        PendingCall,
    ))
        requires
            old(ids).counter() < u64::MAX,
        ensures
            r.0.call == Some(self.name),
            r.0.id == Some(old(ids).counter()),
            r.0.value == ChannelValue::List(self.args),
            r.0.is_request(),
            r.1@ == self.transfer@,
            r.2.id == old(ids).counter(),
            r.2.cursor == worker.log().len(),
            final(ids).counter() == old(ids).counter() + 1,
    {
        let id = ids.fresh();
        let pending = PendingCall { id, cursor: worker.inbox.len() };
        let env = Envelope::request(self.name, id, ChannelValue::List(self.args));
        (env, self.transfer, pending)
    }
}

impl PendingCall {
    /// The envelope this call resolves on, if it has been observed: the
    /// first response at or after this call's attach position whose id
    /// matches.
    pub open spec fn matched(self, w: Worker) -> Option<int> {
        first_match_at(w.log(), self.cursor as int, self.id)
    }

    /// Scans the observation log for this call's response. Resolves to the
    /// decoded result exactly when a response with the matching id has
    /// been observed since the call was sent; every non-matching envelope
    /// is ignored. The response's payload must have the shape of the
    /// declared result type: both peers are generated from one operation
    /// declaration, and a mismatch is a contract violation between them.
    pub fn poll<A: MessageReturn>(&self, worker: &Worker) -> (r: Option<A>)
        requires
            self.cursor <= worker.log().len(),
            match self.matched(*worker) {
                Some(k) => A::can_decode(worker.log()[k].value),
                None => true,
            },
        ensures
            match self.matched(*worker) {
                Some(k) => r matches Some(a) && a.is_decoding_of(worker.log()[k].value),
                None => r is None,
            },
    {
        let mut i: usize = self.cursor;
        while i < worker.inbox.len()
            invariant
                self.cursor <= i <= worker.inbox.len(),
                worker.inbox@ == worker.log(),
                forall|j: int| self.cursor <= j < i ==> !(#[trigger] worker.log()[j]).answers(
                    self.id,
                ),
                match self.matched(*worker) {
                    Some(k) => A::can_decode(worker.log()[k].value),
                    None => true,
                },
            decreases worker.inbox.len() - i,
        {
            if worker.inbox[i].answers_call(self.id) {
                proof {
                    lemma_first_match_found(worker.log(), self.cursor as int, self.id, i as int);
                }
                return Some(A::from_js(&worker.inbox[i].value));
            }
            i = i + 1;
        }
        proof {
            lemma_first_match_at(worker.log(), self.cursor as int, self.id);
        }
        None
    }

    /// Whether this call's matched response — if one has been observed —
    /// carries a payload of the declared result type's shape. True while
    /// no response has arrived. Hosting code facing a peer it does not
    /// trust tests this before `poll`; between peers generated from one
    /// operation declaration it always holds.
    pub fn check_response<A: MessageReturn>(&self, worker: &Worker) -> (r: bool)
        requires
            self.cursor <= worker.log().len(),
        ensures
            r == match self.matched(*worker) {
                Some(k) => A::can_decode(worker.log()[k].value),
                None => true,
            },
    {
        let mut i: usize = self.cursor;
        while i < worker.inbox.len()
            invariant
                self.cursor <= i <= worker.inbox.len(),
                worker.inbox@ == worker.log(),
                forall|j: int| self.cursor <= j < i ==> !(#[trigger] worker.log()[j]).answers(
                    self.id,
                ),
            decreases worker.inbox.len() - i,
        {
            if worker.inbox[i].answers_call(self.id) {
                proof {
                    lemma_first_match_found(worker.log(), self.cursor as int, self.id, i as int);
                }
                return A::shape_matches(&worker.inbox[i].value);
            }
            i = i + 1;
        }
        proof {
            lemma_first_match_at(worker.log(), self.cursor as int, self.id);
        }
        true
    }
}

impl PendingLoad {
    /// A readiness envelope has been observed since this wait attached.
    pub open spec fn loaded_observed(self, w: Worker) -> bool {
        exists|k: int| self.cursor <= k < w.log().len() && (#[trigger] w.log()[k]).is_ready()
    }

    /// Resolves if and only if a readiness envelope has been observed
    /// since this wait attached. Polling again after the signal was
    /// observed still resolves; a signal that arrived before the wait
    /// attached is deliberately not seen.
    pub fn poll(&self, worker: &Worker) -> (r: bool)
        requires
            self.cursor <= worker.log().len(),
        ensures
            r == self.loaded_observed(*worker),
    {
        let mut i: usize = self.cursor;
        while i < worker.inbox.len()
            invariant
                self.cursor <= i <= worker.inbox.len(),
                worker.inbox@ == worker.log(),
                forall|j: int| self.cursor <= j < i ==> !(#[trigger] worker.log()[j]).is_ready(),
            decreases worker.inbox.len() - i,
        {
            if worker.inbox[i].is_ready_signal() {
                return true;
            }
            i = i + 1;
        }
        false
    }
}

/// Correlation is by id, never by order: when each of two concurrently
/// pending calls with distinct ids has exactly one response in the log,
/// each call resolves on its own response, wherever the two responses
/// stand relative to each other. Responses may therefore arrive in any
/// order; together with `PendingCall::poll`, whose result decodes the
/// matched envelope's payload, each call's resolved result corresponds to
/// its own request. Any number of concurrently pending calls behaves the
/// same way: each is matched independently against the shared log, so the
/// two-call statement applies to every pair.
pub proof fn lemma_correlation_is_by_id(
    w: Worker,
    p1: PendingCall,
    p2: PendingCall,
    k1: int,
    k2: int,
)
    requires
        p1.id != p2.id,
        p1.cursor as int <= k1 < w.log().len(),
        p2.cursor as int <= k2 < w.log().len(),
        w.log()[k1].answers(p1.id),
        w.log()[k2].answers(p2.id),
        forall|j: int| p1.cursor as int <= j < w.log().len() && j != k1 ==> !(#[trigger] w.log()[j]).answers(p1.id),
        forall|j: int| p2.cursor as int <= j < w.log().len() && j != k2 ==> !(#[trigger] w.log()[j]).answers(p2.id),
    ensures
        p1.matched(w) == Some(k1),
        p2.matched(w) == Some(k2),
{
    lemma_first_match_found(w.log(), p1.cursor as int, p1.id, k1);
    lemma_first_match_found(w.log(), p2.cursor as int, p2.id, k2);
}

/// A signal sent before the wait attached is missed: when the only
/// readiness envelope in the log stands before the wait's attach
/// position, the wait never resolves. The handshake must therefore attach
/// the wait before the peer sends its signal.
pub proof fn lemma_signal_before_attach_missed(p: PendingLoad, w: Worker, k: int)
    requires
        0 <= k < p.cursor as int,
        k < w.log().len(),
        w.log()[k].is_ready(),
        forall|j: int| p.cursor as int <= j < w.log().len() ==> !(#[trigger] w.log()[j]).is_ready(),
    ensures
        !p.loaded_observed(w),
{
}

/// Correlation ids never collide process-wide: every send draws from the
/// process's one allocator, which hands out its current counter value
/// and advances, so a later allocation — on whichever handle — receives
/// a strictly greater id than every earlier one, and no id is ever
/// reused. `earlier` and `later` are the allocator's states at the two
/// allocations; any number of other sends may lie between them.
pub proof fn lemma_ids_strictly_increase(
    earlier: IdAllocator,
    later: IdAllocator,
    id1: u64,
    id2: u64,
)
    requires
        id1 == earlier.counter(),
        earlier.counter() < later.counter(),
        id2 == later.counter(),
    ensures
        id1 < id2,
{
}

} // verus!
