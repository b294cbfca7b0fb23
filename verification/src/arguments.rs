//! The argument-tuple adapter: turns a request's ordered list of channel
//! values into the fixed-arity tuple of native types the receiving
//! operation declares.
//!
//! Both ends of the channel are generated from one shared operation
//! declaration, so the adapter receives exactly as many values as the
//! operation declares arguments; a length or shape mismatch is an
//! internal-consistency violation between the peers, demanded away up
//! front rather than tolerated at run time. A callee that must defend
//! against an untrusted peer checks [`Message::check_args`] first.
//!
//! [`Message::check_args`]: crate::callee::Message::check_args

use vstd::prelude::*;
use crate::codec::MessageReturn;
use crate::value::ChannelValue;

verus! {

/// A fixed-arity tuple of native types that a received argument list
/// converts into, one codec per position.
pub trait Arguments: Sized {
    /// The list has this tuple's arity and each value has the shape its
    /// position decodes from.
    spec fn accepts(v: Seq<ChannelValue>) -> bool;

    /// `self` is the tuple that converting `v` yields: each component is
    /// a decoding of the value at its position.
    spec fn is_conversion_of(self, v: Seq<ChannelValue>) -> bool;

    /// Whether the list has this tuple's arity and each value the shape
    /// its position decodes from; the executable form of `accepts`, for a
    /// callee that must defend against an untrusted peer.
    fn check(v: &Vec<ChannelValue>) -> (r: bool)
        ensures
            r == Self::accepts(v@),
    ;

    /// Converts the received argument list, in order.
    fn from_vec(v: &Vec<ChannelValue>) -> (r: Self)
        requires
            Self::accepts(v@),
        ensures
            r.is_conversion_of(v@),
    ;
}

impl Arguments for () {
    open spec fn accepts(v: Seq<ChannelValue>) -> bool {
        v.len() == 0
    }

    open spec fn is_conversion_of(self, v: Seq<ChannelValue>) -> bool {
        true
    }

    fn check(v: &Vec<ChannelValue>) -> (r: bool) {
        v.len() == 0
    }

    fn from_vec(v: &Vec<ChannelValue>) -> (r: Self) {
    }
}

impl<A: MessageReturn> Arguments for (A,) {
    open spec fn accepts(v: Seq<ChannelValue>) -> bool {
        v.len() == 1 && A::can_decode(v[0])
    }

    open spec fn is_conversion_of(self, v: Seq<ChannelValue>) -> bool {
        self.0.is_decoding_of(v[0])
    }

    fn check(v: &Vec<ChannelValue>) -> (r: bool) {
        v.len() == 1 && A::shape_matches(&v[0])
    }

    fn from_vec(v: &Vec<ChannelValue>) -> (r: Self) {
        (A::from_js(&v[0]),)
    }
}

impl<A: MessageReturn, B: MessageReturn> Arguments for (A, B) {
    open spec fn accepts(v: Seq<ChannelValue>) -> bool {
        v.len() == 2 && A::can_decode(v[0]) && B::can_decode(v[1])
    }

    open spec fn is_conversion_of(self, v: Seq<ChannelValue>) -> bool {
        self.0.is_decoding_of(v[0]) && self.1.is_decoding_of(v[1])
    }

    fn check(v: &Vec<ChannelValue>) -> (r: bool) {
        v.len() == 2 && A::shape_matches(&v[0]) && B::shape_matches(&v[1])
    }

    fn from_vec(v: &Vec<ChannelValue>) -> (r: Self) {
        (A::from_js(&v[0]), B::from_js(&v[1]))
    }
}

impl<A: MessageReturn, B: MessageReturn, C: MessageReturn> Arguments for (A, B, C) {
    open spec fn accepts(v: Seq<ChannelValue>) -> bool {
        v.len() == 3 && A::can_decode(v[0]) && B::can_decode(v[1]) && C::can_decode(v[2])
    }

    open spec fn is_conversion_of(self, v: Seq<ChannelValue>) -> bool {
        self.0.is_decoding_of(v[0]) && self.1.is_decoding_of(v[1]) && self.2.is_decoding_of(v[2])
    }

    fn check(v: &Vec<ChannelValue>) -> (r: bool) {
        v.len() == 3 && A::shape_matches(&v[0]) && B::shape_matches(&v[1]) && C::shape_matches(
            &v[2],
        )
    }

    fn from_vec(v: &Vec<ChannelValue>) -> (r: Self) {
        (A::from_js(&v[0]), B::from_js(&v[1]), C::from_js(&v[2]))
    }
}

impl<A: MessageReturn, B: MessageReturn, C: MessageReturn, D: MessageReturn> Arguments for (
    A,
    B,
    C,
    D,
) {
    open spec fn accepts(v: Seq<ChannelValue>) -> bool {
        v.len() == 4 && A::can_decode(v[0]) && B::can_decode(v[1]) && C::can_decode(v[2])
            && D::can_decode(v[3])
    }

    open spec fn is_conversion_of(self, v: Seq<ChannelValue>) -> bool {
        self.0.is_decoding_of(v[0]) && self.1.is_decoding_of(v[1]) && self.2.is_decoding_of(v[2])
            && self.3.is_decoding_of(v[3])
    }

    fn check(v: &Vec<ChannelValue>) -> (r: bool) {
        v.len() == 4 && A::shape_matches(&v[0]) && B::shape_matches(&v[1]) && C::shape_matches(
            &v[2],
        ) && D::shape_matches(&v[3])
    }

    fn from_vec(v: &Vec<ChannelValue>) -> (r: Self) {
        (A::from_js(&v[0]), B::from_js(&v[1]), C::from_js(&v[2]), D::from_js(&v[3]))
    }
}

impl<
    A: MessageReturn,
    B: MessageReturn,
    C: MessageReturn,
    D: MessageReturn,
    E: MessageReturn,
> Arguments for (A, B, C, D, E) {
    open spec fn accepts(v: Seq<ChannelValue>) -> bool {
        v.len() == 5 && A::can_decode(v[0]) && B::can_decode(v[1]) && C::can_decode(v[2])
            && D::can_decode(v[3]) && E::can_decode(v[4])
    }

    open spec fn is_conversion_of(self, v: Seq<ChannelValue>) -> bool {
        self.0.is_decoding_of(v[0]) && self.1.is_decoding_of(v[1]) && self.2.is_decoding_of(v[2])
            && self.3.is_decoding_of(v[3]) && self.4.is_decoding_of(v[4])
    }

    fn check(v: &Vec<ChannelValue>) -> (r: bool) {
        v.len() == 5 && A::shape_matches(&v[0]) && B::shape_matches(&v[1]) && C::shape_matches(
            &v[2],
        ) && D::shape_matches(&v[3]) && E::shape_matches(&v[4])
    }

    fn from_vec(v: &Vec<ChannelValue>) -> (r: Self) {
        (
            A::from_js(&v[0]),
            B::from_js(&v[1]),
            C::from_js(&v[2]),
            D::from_js(&v[3]),
            E::from_js(&v[4]),
        )
    }
}

} // verus!
