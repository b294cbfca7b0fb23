//! The channel's opaque value representation and the transfer list.
//!
//! The hosting channel exchanges opaque structured values: numbers, text,
//! binary buffers and lists of such values. `ChannelValue` models exactly
//! the shapes this protocol puts on the wire. Numbers travel through the
//! host as double-precision floats; every value this crate encodes is
//! integral, so the model keeps the number as an exact integer and the
//! codec contracts state the round-trip guarantee only inside the range a
//! double represents exactly.

use vstd::prelude::*;

verus! {

/// One opaque value as it crosses the channel.
#[derive(Debug)]
pub enum ChannelValue {
    /// The host's null/absent value.
    Null,
    /// An integral number. The host carries numbers as doubles; integers of
    /// magnitude at most 2^53 are carried exactly.
    Number(i128),
    /// A text value.
    Text(String),
    /// A binary buffer whose backing storage can be moved across the
    /// boundary instead of copied.
    Buffer(Vec<u8>),
    /// An ordered list of values; a request's encoded argument list.
    List(Vec<ChannelValue>),
}

/// Structural equivalence of two channel values: the same shape and the
/// same contents, compared through the views of the text and buffer
/// payloads. Two values built independently from the same contents are
/// `value_like` even though they are distinct objects.
pub open spec fn value_like(a: ChannelValue, b: ChannelValue) -> bool
    decreases a,
{
    match (a, b) {
        (ChannelValue::Null, ChannelValue::Null) => true,
        (ChannelValue::Number(x), ChannelValue::Number(y)) => x == y,
        (ChannelValue::Text(s), ChannelValue::Text(t)) => s@ == t@,
        (ChannelValue::Buffer(x), ChannelValue::Buffer(y)) => x@ == y@,
        (ChannelValue::List(xs), ChannelValue::List(ys)) => {
            &&& xs@.len() == ys@.len()
            &&& forall|i: int| 0 <= i < xs@.len() ==> value_like(xs@[i], #[trigger] ys@[i])
        },
        _ => false,
    }
}

/// Copies the bytes of a buffer into a freshly owned buffer.
pub fn copy_bytes(b: &Vec<u8>) -> (r: Vec<u8>)
    ensures
        r@ == b@,
{
    let mut out: Vec<u8> = Vec::new();
    let mut i: usize = 0;
    while i < b.len()
        invariant
            i <= b.len(),
            out@ == b@.subrange(0, i as int),
        decreases b.len() - i,
    {
        out.push(b[i]);
        proof {
            assert(out@ =~= b@.subrange(0, i as int + 1));
        }
        i = i + 1;
    }
    proof {
        assert(out@ =~= b@);
    }
    out
}

impl ChannelValue {
    /// Rebuilds this value in freshly owned storage: the receiving side of
    /// the channel treats every incoming value as uniquely owned by the
    /// receiving context, never as an alias of the sender's storage.
    pub fn duplicate(&self) -> (r: ChannelValue)
        ensures
            value_like(*self, r),
        decreases *self,
    {
        match self {
            ChannelValue::Null => ChannelValue::Null,
            ChannelValue::Number(n) => ChannelValue::Number(*n),
            ChannelValue::Text(s) => ChannelValue::Text(s.clone()),
            ChannelValue::Buffer(b) => ChannelValue::Buffer(copy_bytes(b)),
            ChannelValue::List(vs) => {
                let mut out: Vec<ChannelValue> = Vec::new();
                let mut i: usize = 0;
                while i < vs.len()
                    invariant
                        *self == ChannelValue::List(*vs),
                        i <= vs.len(),
                        out@.len() == i,
                        forall|j: int| 0 <= j < i ==> value_like(vs@[j], #[trigger] out@[j]),
                    decreases vs.len() - i,
                {
                    proof {
                        assert(decreases_to!(*self => self->List_0));
                        assert(decreases_to!(vs@ => vs@[i as int]));
                        assert(decreases_to!(*self => vs@[i as int]));
                    }
                    let copied = vs[i].duplicate();
                    out.push(copied);
                    i = i + 1;
                }
                ChannelValue::List(out)
            },
        }
    }
}

/// The ordered collection of buffers accompanying one outgoing envelope.
/// Each buffer recorded here moves across the boundary by ownership
/// transfer rather than by copy. A transfer list belongs to exactly one
/// send: it is created empty, filled while that envelope's payload is
/// encoded, and handed to the channel together with the envelope.
#[derive(Debug)]
pub struct TransferList {
    buffers: Vec<Vec<u8>>,
}

impl TransferList {
    /// The transferred buffers, as the sequence of their byte contents in
    /// the order they were registered.
    pub closed spec fn view(&self) -> Seq<Seq<u8>> {
        self.buffers@.map_values(|b: Vec<u8>| b@)
    }

    /// A fresh, empty transfer list for one send.
    pub fn new() -> (r: TransferList)
        ensures
            r@ == Seq::<Seq<u8>>::empty(),
    {
        let r = TransferList { buffers: Vec::new() };
        proof {
            assert(r@ =~= Seq::<Seq<u8>>::empty());
        }
        r
    }

    /// Registers one buffer for ownership transfer.
    pub fn register(&mut self, buffer: Vec<u8>)
        ensures
            final(self)@ == old(self)@.push(buffer@),
    {
        let ghost before = self@;
        let ghost contents = buffer@;
        self.buffers.push(buffer);
        proof {
            assert(self@ =~= before.push(contents));
        }
    }

    /// How many buffers this list carries.
    pub fn len(&self) -> (r: usize)
        ensures
            r == self@.len(),
    {
        self.buffers.len()
    }

    /// The buffer at one position of the list.
    pub fn buffer_at(&self, i: usize) -> (r: &Vec<u8>)
        requires
            i < self@.len(),
        ensures
            r@ == self@[i as int],
    {
        &self.buffers[i]
    }
}

} // verus!
