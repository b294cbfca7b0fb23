//! The callee-side dispatcher: receives request envelopes over the
//! channel, looks the named operation up in an immutable operation table,
//! hands each request out for concurrent handling, and builds the
//! correlated response envelope when a handler completes.
//!
//! The dispatcher does not serialize requests: [`SpawnedWorker::next_message`]
//! hands out each request as soon as it is observed, and [`Message::send`]
//! builds the response for any outstanding request in whatever order the
//! handlers complete, so response order on the wire may differ from
//! request order.
//!
//! Startup follows a two-phase protocol: first [`SpawnedWorker::listen`]
//! attaches the listener, then [`SpawnedWorker::set_loaded`] — which
//! demands that the listener is already attached — produces the one-shot
//! readiness signal. A request sent by the peer after it observes that
//! signal is therefore never lost to the attach race.

use vstd::prelude::*;
use vstd::pervasive::unreached;
use crate::arguments::Arguments;
use crate::codec::MessageSend;
use crate::envelope::Envelope;
use crate::value::ChannelValue;
use crate::value::TransferList;

verus! {

/// The views of a list of operation names.
pub open spec fn name_views(v: Seq<String>) -> Seq<Seq<char>> {
    Seq::new(v.len(), |i: int| v[i]@)
}

/// The callee's immutable mapping from operation name to handler slot,
/// built once at startup from the shared operation declaration. A handler
/// slot is an index into whatever handler collection the hosting code
/// keeps; the table owns only the names.
pub struct OperationTable {
    names: Vec<String>,
}

impl OperationTable {
    /// The operation names, in declaration order, as character sequences.
    pub closed spec fn names(self) -> Seq<Seq<char>> {
        name_views(self.names@)
    }

    /// No two operations share a name.
    pub open spec fn well_formed(self) -> bool {
        forall|i: int, j: int|
            0 <= i < j < self.names().len() ==> self.names()[i] != self.names()[j]
    }

    /// Builds the table from the declared operation names, in order.
    /// Registering two operations under one name is rejected at
    /// construction time rather than left to surprise dispatch later.
    pub fn new(names: Vec<String>) -> (r: Option<OperationTable>)
        ensures
            match r {
                Some(t) => {
                    &&& t.names() == name_views(names@)
                    &&& t.well_formed()
                },
                None => exists|i: int, j: int|
                    0 <= i < j < names@.len() && name_views(names@)[i] == name_views(names@)[j],
            },
    {
        let n = names.len();
        let mut i: usize = 0;
        while i < n
            invariant
                i <= n,
                n == names@.len(),
                forall|a: int, b: int|
                    0 <= a < b < names@.len() && a < i ==> name_views(names@)[a] != name_views(
                        names@,
                    )[b],
            decreases n - i,
        {
            let mut j: usize = i + 1;
            while j < n
                invariant
                    i < j <= n,
                    n == names@.len(),
                    forall|a: int, b: int|
                        0 <= a < b < names@.len() && a < i ==> name_views(names@)[a] != name_views(
                            names@,
                        )[b],
                    forall|b: int|
                        i < b < j ==> name_views(names@)[i as int] != name_views(names@)[b],
                decreases n - j,
            {
                if names[i] == names[j] {
                    proof {
                        assert(name_views(names@)[i as int] == name_views(names@)[j as int]);
                    }
                    return None;
                }
                j = j + 1;
            }
            i = i + 1;
        }
        Some(OperationTable { names })
    }

    /// How many operations the table declares.
    pub fn len(&self) -> (r: usize)
        ensures
            r == self.names().len(),
    {
        self.names.len()
    }

    /// Looks an operation up by name: the handler slot whose declared
    /// name matches, or nothing when no operation carries this name. An
    /// unknown name indicates peers generated from different operation
    /// declarations; the hosting code treats it as a contract violation.
    pub fn lookup(&self, name: &str) -> (r: Option<usize>)
        ensures
            match r {
                Some(i) => 0 <= i < self.names().len() && self.names()[i as int] == name@,
                None => forall|j: int| 0 <= j < self.names().len() ==> self.names()[j] != name@,
            },
    {
        let wanted: String = name.to_owned();
        let n = self.names.len();
        let mut i: usize = 0;
        while i < n
            invariant
                i <= n,
                n == self.names@.len(),
                wanted@ == name@,
                forall|j: int| 0 <= j < i ==> self.names()[j] != name@,
            decreases n - i,
        {
            if self.names[i] == wanted {
                return Some(i);
            }
            i = i + 1;
        }
        None
    }
}

/// The index of the first request envelope at or after `from`, if any.
pub open spec fn first_request_at(log: Seq<Envelope>, from: int) -> Option<int>
    decreases log.len() - from,
    when 0 <= from <= log.len()
{
    if from >= log.len() {
        None
    } else if log[from].is_request() {
        Some(from)
    } else {
        first_request_at(log, from + 1)
    }
}

/// If nothing in `[from, k)` is a request and `log[k]` is one, the scan
/// finds exactly `k`.
pub proof fn lemma_first_request_found(log: Seq<Envelope>, from: int, k: int)
    requires
        0 <= from <= k < log.len(),
        log[k].is_request(),
        forall|j: int| from <= j < k ==> !(#[trigger] log[j]).is_request(),
    ensures
        first_request_at(log, from) == Some(k),
    decreases log.len() - from,
{
    if from < k {
        lemma_first_request_found(log, from + 1, k);
    }
}

/// If nothing at or after `from` is a request, the scan finds nothing.
pub proof fn lemma_first_request_none(log: Seq<Envelope>, from: int)
    requires
        0 <= from <= log.len(),
        forall|j: int| from <= j < log.len() ==> !(#[trigger] log[j]).is_request(),
    ensures
        first_request_at(log, from) is None,
    decreases log.len() - from,
{
    if from < log.len() {
        lemma_first_request_none(log, from + 1);
    }
}

/// The callee-side dispatcher, bound to the execution context's own end
/// of the channel.
pub struct SpawnedWorker {
    inbox: Vec<Envelope>,
    listening: bool,
    cursor: usize,
}

/// One received request handed out for handling: the correlation id to
/// answer and the position of the request envelope in the dispatcher's
/// log. Many messages may be outstanding at once; each is answered
/// independently, in whatever order its handler completes.
pub struct Message {
    /// The correlation id the response must carry.
    pub id: u64,
    /// Where the request envelope stands in the dispatcher's log.
    pub index: usize,
}

impl SpawnedWorker {
    /// The envelopes this dispatcher has observed from the channel,
    /// oldest first. An envelope delivered before the listener attached
    /// never joins the log: without a listener the channel drops it.
    pub closed spec fn log(self) -> Seq<Envelope> {
        self.inbox@
    }

    /// The listener has been attached.
    pub closed spec fn is_listening(self) -> bool {
        self.listening
    }

    /// The log position up to which requests have been handed out.
    pub closed spec fn cursor(self) -> int {
        self.cursor as int
    }

    /// The dispatcher's internal consistency: the dispatch cursor never
    /// passes the end of the log.
    pub open spec fn wf(self) -> bool {
        0 <= self.cursor() <= self.log().len()
    }

    /// Binds to the current execution context's implicit channel
    /// endpoint. Nothing is observed and nothing listens yet.
    pub fn new() -> (r: SpawnedWorker)
        ensures
            r.log() == Seq::<Envelope>::empty(),
            !r.is_listening(),
            r.cursor() == 0,
            r.wf(),
    {
        let r = SpawnedWorker { inbox: Vec::new(), listening: false, cursor: 0 };
        proof {
            assert(r.log() =~= Seq::<Envelope>::empty());
        }
        r
    }

    /// One envelope arrives from the channel. Only a dispatcher whose
    /// listener is attached observes it; before `listen` the channel has
    /// nowhere to put it and the envelope is lost — which is what the
    /// readiness handshake exists to prevent.
    pub fn deliver(&mut self, env: Envelope)
        requires
            old(self).is_listening(),
            old(self).wf(),
        ensures
            final(self).log() == old(self).log().push(env),
            final(self).is_listening(),
            final(self).cursor() == old(self).cursor(),
            final(self).wf(),
    {
        self.inbox.push(env);
    }

    /// Attaches the message listener. This happens synchronously, before
    /// any readiness signal can be produced: `set_loaded` demands it.
    pub fn listen(&mut self)
        requires
            old(self).wf(),
        ensures
            final(self).is_listening(),
            final(self).log() == old(self).log(),
            final(self).cursor() == old(self).cursor(),
            final(self).wf(),
    {
        self.listening = true;
    }

    /// Produces the one-shot readiness envelope for the hosting code to
    /// post. Only a dispatcher that is already listening may signal
    /// readiness: a request sent after the peer observes the signal then
    /// cannot race past the listener.
    pub fn set_loaded(&self) -> (r: Envelope)
        requires
            self.is_listening(),
        ensures
            r.is_ready(),
            r.value == ChannelValue::Null,
    {
        Envelope::ready()
    }

    /// Hands out the next request that has not been dispatched yet,
    /// skipping envelopes of any other shape, or reports that every
    /// observed request has been handed out. The dispatcher does not wait
    /// for earlier handlers to finish: each returned message is handled
    /// and answered independently.
    pub fn next_message(&mut self) -> (r: Option<Message>)
        requires
            old(self).is_listening(),
            old(self).wf(),
        ensures
            final(self).log() == old(self).log(),
            final(self).is_listening(),
            final(self).wf(),
            match first_request_at(old(self).log(), old(self).cursor()) {
                Some(k) => {
                    &&& r matches Some(m)
                    &&& m.index == k
                    &&& old(self).log()[k].id == Some(m.id)
                    &&& final(self).cursor() == k + 1
                },
                None => r is None && final(self).cursor() == old(self).log().len(),
            },
    {
        let ghost start = self.cursor as int;
        let mut i: usize = self.cursor;
        while i < self.inbox.len()
            invariant
                *self == *old(self),
                old(self).is_listening(),
                old(self).wf(),
                start == old(self).cursor(),
                0 <= start <= i <= self.inbox@.len(),
                forall|j: int| start <= j < i ==> !(#[trigger] self.inbox@[j]).is_request(),
            decreases self.inbox.len() - i,
        {
            let is_req = match self.inbox[i].shape() {
                crate::envelope::Shape::Request => true,
                _ => false,
            };
            if is_req {
                proof {
                    lemma_first_request_found(self.inbox@, start, i as int);
                }
                let id = match self.inbox[i].id {
                    Some(id) => id,
                    None => unreached(),
                };
                let m = Message { id, index: i };
                self.cursor = i + 1;
                return Some(m);
            }
            i = i + 1;
        }
        proof {
            lemma_first_request_none(self.inbox@, start);
        }
        self.cursor = i;
        None
    }
}

impl Message {
    /// This message stands for a request the dispatcher observed: its
    /// index points at a request envelope carrying its id.
    pub open spec fn valid(self, w: SpawnedWorker) -> bool {
        &&& self.index < w.log().len()
        &&& w.log()[self.index as int].is_request()
        &&& w.log()[self.index as int].id == Some(self.id)
    }

    /// The name of the operation this request calls.
    pub fn name(&self, w: &SpawnedWorker) -> (r: String)
        requires
            self.valid(*w),
        ensures
            w.log()[self.index as int].call matches Some(n) && r@ == n@,
    {
        match &w.inbox[self.index].call {
            Some(n) => n.clone(),
            None => unreached(),
        }
    }

    /// Whether the request's payload is an argument list that the
    /// operation's declared argument tuple accepts: right arity, right
    /// shape at every position. A dispatcher facing an untrusted peer
    /// checks this before converting; between peers generated from one
    /// declaration it always holds.
    pub fn check_args<A: Arguments>(&self, w: &SpawnedWorker) -> (r: bool)
        requires
            self.valid(*w),
        ensures
            r == (w.log()[self.index as int].value matches ChannelValue::List(a)
                && A::accepts(a@)),
    {
        match &w.inbox[self.index].value {
            ChannelValue::List(a) => A::check(a),
            _ => false,
        }
    }

    /// Converts the request's argument list into the operation's declared
    /// argument tuple. The payload must be a list the tuple accepts: both
    /// peers are generated from one operation declaration, and a length
    /// or shape mismatch is a contract violation between them.
    pub fn with_args<A: Arguments>(&self, w: &SpawnedWorker) -> (r: A)
        requires
            self.valid(*w),
            w.log()[self.index as int].value matches ChannelValue::List(a) && A::accepts(a@),
        ensures
            w.log()[self.index as int].value matches ChannelValue::List(a)
                && r.is_conversion_of(a@),
    {
        match &w.inbox[self.index].value {
            ChannelValue::List(a) => A::from_vec(a),
            _ => unreached(),
        }
    }

    /// Builds the correlated response: the handler's native result is
    /// encoded, its transfer-capable buffers joining a fresh transfer
    /// list, under this request's correlation id. The hosting code posts
    /// envelope and transfer list to the channel as one atomic send.
    pub fn send<A: MessageSend>(&self, value: A) -> (r: (Envelope, TransferList))
        ensures
            r.0.call is None,
            r.0.id == Some(self.id),
            r.0.value == value.spec_encoded(),
            r.0.is_response(),
            r.0.answers(self.id),
            r.1@ == value.spec_transfers(),
    {
        let mut transfer = TransferList::new();
        let ghost empty = transfer@;
        let encoded = value.into_js(&mut transfer);
        proof {
            assert(empty + value.spec_transfers() =~= value.spec_transfers());
        }
        (Envelope::response(self.id, encoded), transfer)
    }
}

} // verus!
