//! The wire envelope: the only structure ever placed on the channel.
//!
//! One envelope shape carries three kinds of traffic, discriminated by
//! field presence and never by id reuse: a request (`call` and `id`
//! present), a response (`id` present, `call` absent), and the one-shot
//! readiness signal (`loaded` present and true, no `call`, no `id`).

use vstd::prelude::*;
use crate::value::ChannelValue;

verus! {

/// The single message structure exchanged over the channel.
#[derive(Debug)]
pub struct Envelope {
    /// Operation name; present on requests only.
    pub call: Option<String>,
    /// Correlation id; present on requests and responses, absent only on
    /// the readiness signal.
    pub id: Option<u64>,
    /// Encoded argument list on a request, encoded single result on a
    /// response, null on the readiness signal.
    pub value: ChannelValue,
    /// Present and true only on the readiness signal.
    pub loaded: Option<bool>,
}

/// Which of the three valid shapes an envelope has.
#[derive(Debug, PartialEq, Eq, Structural)]
pub enum Shape {
    /// An outgoing call: `call` and `id` present, `loaded` absent.
    Request,
    /// The answer to one call: `id` present, `call` and `loaded` absent.
    Response,
    /// The one-shot readiness signal: `loaded == Some(true)`, no `call`,
    /// no `id`.
    Ready,
    /// A field-presence combination outside the protocol.
    Invalid,
}

impl Envelope {
    /// The envelope names an operation and carries a correlation id.
    pub open spec fn is_request(self) -> bool {
        self.call is Some && self.id is Some && self.loaded is None
    }

    /// The envelope answers the call with the same id.
    pub open spec fn is_response(self) -> bool {
        self.call is None && self.id is Some && self.loaded is None
    }

    /// The envelope is the one-shot readiness signal.
    pub open spec fn is_ready(self) -> bool {
        self.call is None && self.id is None && self.loaded == Some(true)
    }

    /// The envelope has exactly one of the three valid shapes.
    pub open spec fn is_well_formed(self) -> bool {
        self.is_request() || self.is_response() || self.is_ready()
    }

    /// The shape this envelope's field presence selects.
    pub open spec fn spec_shape(self) -> Shape {
        if self.is_request() {
            Shape::Request
        } else if self.is_response() {
            Shape::Response
        } else if self.is_ready() {
            Shape::Ready
        } else {
            Shape::Invalid
        }
    }

    /// Discriminates an incoming envelope by field presence.
    pub fn shape(&self) -> (r: Shape)
        ensures
            r == self.spec_shape(),
    {
        if self.call.is_some() && self.id.is_some() && self.loaded.is_none() {
            Shape::Request
        } else if self.call.is_none() && self.id.is_some() && self.loaded.is_none() {
            Shape::Response
        } else if self.call.is_none() && self.id.is_none() {
            match self.loaded {
                Some(true) => Shape::Ready,
                _ => Shape::Invalid,
            }
        } else {
            Shape::Invalid
        }
    }

    /// Builds the request envelope for one outgoing call.
    pub fn request(name: String, id: u64, args: ChannelValue) -> (r: Envelope)
        ensures
            r.call == Some(name),
            r.id == Some(id),
            r.value == args,
            r.loaded is None,
            r.is_request(),
    {
        Envelope { call: Some(name), id: Some(id), value: args, loaded: None }
    }

    /// Builds the response envelope answering the request with this id.
    pub fn response(id: u64, value: ChannelValue) -> (r: Envelope)
        ensures
            r.call is None,
            r.id == Some(id),
            r.value == value,
            r.loaded is None,
            r.is_response(),
    {
        Envelope { call: None, id: Some(id), value, loaded: None }
    }

    /// Builds the one-shot readiness signal.
    pub fn ready() -> (r: Envelope)
        ensures
            r.call is None,
            r.id is None,
            r.value == ChannelValue::Null,
            r.loaded == Some(true),
            r.is_ready(),
    {
        Envelope { call: None, id: None, value: ChannelValue::Null, loaded: Some(true) }
    }

    /// A response envelope that answers the call with this id.
    pub open spec fn answers(self, id: u64) -> bool {
        self.is_response() && self.id == Some(id)
    }

    /// Whether this envelope is the response that answers the call with
    /// this id.
    pub fn answers_call(&self, id: u64) -> (r: bool)
        ensures
            r == self.answers(id),
    {
        self.call.is_none() && self.loaded.is_none() && match self.id {
            Some(i) => i == id,
            None => false,
        }
    }

    /// Whether this envelope is the readiness signal.
    pub fn is_ready_signal(&self) -> (r: bool)
        ensures
            r == self.is_ready(),
    {
        self.call.is_none() && self.id.is_none() && match self.loaded {
            Some(flag) => flag,
            None => false,
        }
    }
}

/// The three valid shapes exclude one another: an envelope's field
/// presence selects at most one of request, response and readiness.
pub proof fn lemma_shapes_are_exclusive(e: Envelope)
    ensures
        !(e.is_request() && e.is_response()),
        !(e.is_request() && e.is_ready()),
        !(e.is_response() && e.is_ready()),
{
}

} // verus!
