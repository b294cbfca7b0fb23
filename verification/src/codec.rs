//! The typed encode/decode contract between native values and the
//! channel's opaque value representation.
//!
//! `MessageSend` turns a native value into a channel value, registering any
//! transfer-capable buffer into the envelope's transfer list so the channel
//! moves it instead of copying it. `MessageReturn` rebuilds the native
//! value from a channel value; a value whose runtime shape does not match
//! the expected type is a contract violation between the two generated
//! peers, so decoding demands the matching shape up front rather than
//! tolerating it at run time.
//!
//! Numbers cross the channel through a double-precision intermediate on
//! the host. Integers of magnitude at most [`DOUBLE_EXACT_BOUND`] are
//! carried exactly; outside that range the round trip is not guaranteed,
//! and the round-trip lemmas for the 64-bit types are stated only inside
//! it. A decoded number outside the target type's range saturates to the
//! nearest bound of that type.

use vstd::prelude::*;
use vstd::pervasive::unreached;
use crate::value::ChannelValue;
use crate::value::TransferList;
use crate::value::copy_bytes;
use crate::value::value_like;

verus! {

/// The largest integer magnitude that a double-precision float represents
/// exactly (2 to the 53rd power).
pub const DOUBLE_EXACT_BOUND: i128 = 9007199254740992;

/// Saturates `n` into the inclusive range `lo ..= hi`.
pub open spec fn saturate(n: i128, lo: i128, hi: i128) -> i128 {
    if n < lo {
        lo
    } else if n > hi {
        hi
    } else {
        n
    }
}

/// A native type that can be encoded onto the channel.
pub trait MessageSend: Sized {
    /// The type the receiving side decodes this encoding as.
    type Output: MessageReturn;

    /// The channel value this native value encodes to.
    spec fn spec_encoded(self) -> ChannelValue;

    /// The buffer contents this encoding registers for ownership
    /// transfer, in order; empty for every type without a transferable
    /// buffer.
    spec fn spec_transfers(self) -> Seq<Seq<u8>>;

    /// Encodes this value, appending any transfer-capable buffer it owns
    /// to the envelope's transfer list.
    fn into_js(self, transfer_list: &mut TransferList) -> (r: ChannelValue)
        ensures
            r == self.spec_encoded(),
            final(transfer_list)@ == old(transfer_list)@ + self.spec_transfers(),
    ;
}

/// A native type that can be decoded from a channel value.
pub trait MessageReturn: Sized {
    /// The channel value has the runtime shape this type decodes from.
    spec fn can_decode(v: ChannelValue) -> bool;

    /// `self` is the native value that decoding `v` yields. For every `v`
    /// that `can_decode` admits this pins the result: two decodings of the
    /// same value agree up to the views of their owned storage.
    spec fn is_decoding_of(self, v: ChannelValue) -> bool;

    /// Whether the value has the runtime shape this type decodes from;
    /// the executable form of `can_decode`, for a callee that must defend
    /// against an untrusted peer.
    fn shape_matches(value: &ChannelValue) -> (r: bool)
        ensures
            r == Self::can_decode(*value),
    ;

    /// Decodes a channel value of the matching shape.
    fn from_js(value: &ChannelValue) -> (r: Self)
        requires
            Self::can_decode(*value),
        ensures
            r.is_decoding_of(*value),
    ;
}

impl MessageSend for ChannelValue {
    type Output = ChannelValue;

    /// The raw opaque passthrough: the value itself crosses unchanged.
    open spec fn spec_encoded(self) -> ChannelValue {
        self
    }

    open spec fn spec_transfers(self) -> Seq<Seq<u8>> {
        Seq::empty()
    }

    fn into_js(self, transfer_list: &mut TransferList) -> (r: ChannelValue) {
        proof {
            assert(transfer_list@ =~= transfer_list@ + Seq::<Seq<u8>>::empty());
        }
        self
    }
}

impl MessageReturn for ChannelValue {
    open spec fn can_decode(v: ChannelValue) -> bool {
        true
    }

    open spec fn is_decoding_of(self, v: ChannelValue) -> bool {
        value_like(v, self)
    }

    fn shape_matches(value: &ChannelValue) -> (r: bool) {
        true
    }

    fn from_js(value: &ChannelValue) -> (r: Self) {
        value.duplicate()
    }
}

impl MessageSend for Vec<u8> {
    type Output = Vec<u8>;

    open spec fn spec_encoded(self) -> ChannelValue {
        ChannelValue::Buffer(self)
    }

    /// A byte buffer moves by ownership transfer: its backing storage is
    /// the one entry this encoding adds to the transfer list.
    open spec fn spec_transfers(self) -> Seq<Seq<u8>> {
        seq![self@]
    }

    fn into_js(self, transfer_list: &mut TransferList) -> (r: ChannelValue) {
        let ghost before = transfer_list@;
        let stored = copy_bytes(&self);
        transfer_list.register(stored);
        proof {
            assert(transfer_list@ =~= before + seq![self@]);
        }
        ChannelValue::Buffer(self)
    }
}

impl MessageReturn for Vec<u8> {
    open spec fn can_decode(v: ChannelValue) -> bool {
        v is Buffer
    }

    open spec fn is_decoding_of(self, v: ChannelValue) -> bool {
        v matches ChannelValue::Buffer(b) && self@ == b@
    }

    fn shape_matches(value: &ChannelValue) -> (r: bool) {
        match value {
            ChannelValue::Buffer(_) => true,
            _ => false,
        }
    }

    fn from_js(value: &ChannelValue) -> (r: Self) {
        match value {
            ChannelValue::Buffer(b) => copy_bytes(b),
            _ => unreached(),
        }
    }
}

impl MessageSend for String {
    type Output = String;

    open spec fn spec_encoded(self) -> ChannelValue {
        ChannelValue::Text(self)
    }

    open spec fn spec_transfers(self) -> Seq<Seq<u8>> {
        Seq::empty()
    }

    fn into_js(self, transfer_list: &mut TransferList) -> (r: ChannelValue) {
        proof {
            assert(transfer_list@ =~= transfer_list@ + Seq::<Seq<u8>>::empty());
        }
        ChannelValue::Text(self)
    }
}

impl MessageReturn for String {
    open spec fn can_decode(v: ChannelValue) -> bool {
        v is Text
    }

    open spec fn is_decoding_of(self, v: ChannelValue) -> bool {
        v matches ChannelValue::Text(s) && self@ == s@
    }

    fn shape_matches(value: &ChannelValue) -> (r: bool) {
        match value {
            ChannelValue::Text(_) => true,
            _ => false,
        }
    }

    fn from_js(value: &ChannelValue) -> (r: Self) {
        match value {
            ChannelValue::Text(s) => s.clone(),
            _ => unreached(),
        }
    }
}

impl MessageSend for u8 {
    type Output = u8;

    open spec fn spec_encoded(self) -> ChannelValue {
        ChannelValue::Number(self as i128)
    }

    open spec fn spec_transfers(self) -> Seq<Seq<u8>> {
        Seq::empty()
    }

    fn into_js(self, transfer_list: &mut TransferList) -> (r: ChannelValue) {
        proof {
            assert(transfer_list@ =~= transfer_list@ + Seq::<Seq<u8>>::empty());
        }
        ChannelValue::Number(self as i128)
    }
}

impl MessageReturn for u8 {
    open spec fn can_decode(v: ChannelValue) -> bool {
        v is Number
    }

    open spec fn is_decoding_of(self, v: ChannelValue) -> bool {
        v matches ChannelValue::Number(n) && self == saturate(n, 0, u8::MAX as i128) as u8
    }

    fn shape_matches(value: &ChannelValue) -> (r: bool) {
        match value {
            ChannelValue::Number(_) => true,
            _ => false,
        }
    }

    fn from_js(value: &ChannelValue) -> (r: Self) {
        match value {
            ChannelValue::Number(n) => {
                if *n < 0 {
                    0
                } else if *n > u8::MAX as i128 {
                    u8::MAX
                } else {
                    *n as u8
                }
            },
            _ => unreached(),
        }
    }
}

impl MessageSend for u16 {
    type Output = u16;

    open spec fn spec_encoded(self) -> ChannelValue {
        ChannelValue::Number(self as i128)
    }

    open spec fn spec_transfers(self) -> Seq<Seq<u8>> {
        Seq::empty()
    }

    fn into_js(self, transfer_list: &mut TransferList) -> (r: ChannelValue) {
        proof {
            assert(transfer_list@ =~= transfer_list@ + Seq::<Seq<u8>>::empty());
        }
        ChannelValue::Number(self as i128)
    }
}

impl MessageReturn for u16 {
    open spec fn can_decode(v: ChannelValue) -> bool {
        v is Number
    }

    open spec fn is_decoding_of(self, v: ChannelValue) -> bool {
        v matches ChannelValue::Number(n) && self == saturate(n, 0, u16::MAX as i128) as u16
    }

    fn shape_matches(value: &ChannelValue) -> (r: bool) {
        match value {
            ChannelValue::Number(_) => true,
            _ => false,
        }
    }

    fn from_js(value: &ChannelValue) -> (r: Self) {
        match value {
            ChannelValue::Number(n) => {
                if *n < 0 {
                    0
                } else if *n > u16::MAX as i128 {
                    u16::MAX
                } else {
                    *n as u16
                }
            },
            _ => unreached(),
        }
    }
}

impl MessageSend for u32 {
    type Output = u32;

    open spec fn spec_encoded(self) -> ChannelValue {
        ChannelValue::Number(self as i128)
    }

    open spec fn spec_transfers(self) -> Seq<Seq<u8>> {
        Seq::empty()
    }

    fn into_js(self, transfer_list: &mut TransferList) -> (r: ChannelValue) {
        proof {
            assert(transfer_list@ =~= transfer_list@ + Seq::<Seq<u8>>::empty());
        }
        ChannelValue::Number(self as i128)
    }
}

impl MessageReturn for u32 {
    open spec fn can_decode(v: ChannelValue) -> bool {
        v is Number
    }

    open spec fn is_decoding_of(self, v: ChannelValue) -> bool {
        v matches ChannelValue::Number(n) && self == saturate(n, 0, u32::MAX as i128) as u32
    }

    fn shape_matches(value: &ChannelValue) -> (r: bool) {
        match value {
            ChannelValue::Number(_) => true,
            _ => false,
        }
    }

    fn from_js(value: &ChannelValue) -> (r: Self) {
        match value {
            ChannelValue::Number(n) => {
                if *n < 0 {
                    0
                } else if *n > u32::MAX as i128 {
                    u32::MAX
                } else {
                    *n as u32
                }
            },
            _ => unreached(),
        }
    }
}

impl MessageSend for u64 {
    type Output = u64;

    open spec fn spec_encoded(self) -> ChannelValue {
        ChannelValue::Number(self as i128)
    }

    open spec fn spec_transfers(self) -> Seq<Seq<u8>> {
        Seq::empty()
    }

    fn into_js(self, transfer_list: &mut TransferList) -> (r: ChannelValue) {
        proof {
            assert(transfer_list@ =~= transfer_list@ + Seq::<Seq<u8>>::empty());
        }
        ChannelValue::Number(self as i128)
    }
}

impl MessageReturn for u64 {
    open spec fn can_decode(v: ChannelValue) -> bool {
        v is Number
    }

    open spec fn is_decoding_of(self, v: ChannelValue) -> bool {
        v matches ChannelValue::Number(n) && self == saturate(n, 0, u64::MAX as i128) as u64
    }

    fn shape_matches(value: &ChannelValue) -> (r: bool) {
        match value {
            ChannelValue::Number(_) => true,
            _ => false,
        }
    }

    fn from_js(value: &ChannelValue) -> (r: Self) {
        match value {
            ChannelValue::Number(n) => {
                if *n < 0 {
                    0
                } else if *n > u64::MAX as i128 {
                    u64::MAX
                } else {
                    *n as u64
                }
            },
            _ => unreached(),
        }
    }
}

impl MessageSend for usize {
    type Output = usize;

    open spec fn spec_encoded(self) -> ChannelValue {
        ChannelValue::Number(self as i128)
    }

    open spec fn spec_transfers(self) -> Seq<Seq<u8>> {
        Seq::empty()
    }

    fn into_js(self, transfer_list: &mut TransferList) -> (r: ChannelValue) {
        proof {
            assert(transfer_list@ =~= transfer_list@ + Seq::<Seq<u8>>::empty());
        }
        ChannelValue::Number(self as i128)
    }
}

impl MessageReturn for usize {
    open spec fn can_decode(v: ChannelValue) -> bool {
        v is Number
    }

    open spec fn is_decoding_of(self, v: ChannelValue) -> bool {
        v matches ChannelValue::Number(n) && self == saturate(n, 0, usize::MAX as i128) as usize
    }

    fn shape_matches(value: &ChannelValue) -> (r: bool) {
        match value {
            ChannelValue::Number(_) => true,
            _ => false,
        }
    }

    fn from_js(value: &ChannelValue) -> (r: Self) {
        match value {
            ChannelValue::Number(n) => {
                if *n < 0 {
                    0
                } else if *n > usize::MAX as i128 {
                    usize::MAX
                } else {
                    *n as usize
                }
            },
            _ => unreached(),
        }
    }
}

impl MessageSend for i8 {
    type Output = i8;

    open spec fn spec_encoded(self) -> ChannelValue {
        ChannelValue::Number(self as i128)
    }

    open spec fn spec_transfers(self) -> Seq<Seq<u8>> {
        Seq::empty()
    }

    fn into_js(self, transfer_list: &mut TransferList) -> (r: ChannelValue) {
        proof {
            assert(transfer_list@ =~= transfer_list@ + Seq::<Seq<u8>>::empty());
        }
        ChannelValue::Number(self as i128)
    }
}

impl MessageReturn for i8 {
    open spec fn can_decode(v: ChannelValue) -> bool {
        v is Number
    }

    open spec fn is_decoding_of(self, v: ChannelValue) -> bool {
        v matches ChannelValue::Number(n) && self == saturate(n, i8::MIN as i128, i8::MAX as i128) as i8
    }

    fn shape_matches(value: &ChannelValue) -> (r: bool) {
        match value {
            ChannelValue::Number(_) => true,
            _ => false,
        }
    }

    fn from_js(value: &ChannelValue) -> (r: Self) {
        match value {
            ChannelValue::Number(n) => {
                if *n < i8::MIN as i128 {
                    i8::MIN
                } else if *n > i8::MAX as i128 {
                    i8::MAX
                } else {
                    *n as i8
                }
            },
            _ => unreached(),
        }
    }
}

impl MessageSend for i16 {
    type Output = i16;

    open spec fn spec_encoded(self) -> ChannelValue {
        ChannelValue::Number(self as i128)
    }

    open spec fn spec_transfers(self) -> Seq<Seq<u8>> {
        Seq::empty()
    }

    fn into_js(self, transfer_list: &mut TransferList) -> (r: ChannelValue) {
        proof {
            assert(transfer_list@ =~= transfer_list@ + Seq::<Seq<u8>>::empty());
        }
        ChannelValue::Number(self as i128)
    }
}

impl MessageReturn for i16 {
    open spec fn can_decode(v: ChannelValue) -> bool {
        v is Number
    }

    open spec fn is_decoding_of(self, v: ChannelValue) -> bool {
        v matches ChannelValue::Number(n) && self == saturate(n, i16::MIN as i128, i16::MAX as i128) as i16
    }

    fn shape_matches(value: &ChannelValue) -> (r: bool) {
        match value {
            ChannelValue::Number(_) => true,
            _ => false,
        }
    }

    fn from_js(value: &ChannelValue) -> (r: Self) {
        match value {
            ChannelValue::Number(n) => {
                if *n < i16::MIN as i128 {
                    i16::MIN
                } else if *n > i16::MAX as i128 {
                    i16::MAX
                } else {
                    *n as i16
                }
            },
            _ => unreached(),
        }
    }
}

impl MessageSend for i32 {
    type Output = i32;

    open spec fn spec_encoded(self) -> ChannelValue {
        ChannelValue::Number(self as i128)
    }

    open spec fn spec_transfers(self) -> Seq<Seq<u8>> {
        Seq::empty()
    }

    fn into_js(self, transfer_list: &mut TransferList) -> (r: ChannelValue) {
        proof {
            assert(transfer_list@ =~= transfer_list@ + Seq::<Seq<u8>>::empty());
        }
        ChannelValue::Number(self as i128)
    }
}

impl MessageReturn for i32 {
    open spec fn can_decode(v: ChannelValue) -> bool {
        v is Number
    }

    open spec fn is_decoding_of(self, v: ChannelValue) -> bool {
        v matches ChannelValue::Number(n) && self == saturate(n, i32::MIN as i128, i32::MAX as i128) as i32
    }

    fn shape_matches(value: &ChannelValue) -> (r: bool) {
        match value {
            ChannelValue::Number(_) => true,
            _ => false,
        }
    }

    fn from_js(value: &ChannelValue) -> (r: Self) {
        match value {
            ChannelValue::Number(n) => {
                if *n < i32::MIN as i128 {
                    i32::MIN
                } else if *n > i32::MAX as i128 {
                    i32::MAX
                } else {
                    *n as i32
                }
            },
            _ => unreached(),
        }
    }
}

impl MessageSend for i64 {
    type Output = i64;

    open spec fn spec_encoded(self) -> ChannelValue {
        ChannelValue::Number(self as i128)
    }

    open spec fn spec_transfers(self) -> Seq<Seq<u8>> {
        Seq::empty()
    }

    fn into_js(self, transfer_list: &mut TransferList) -> (r: ChannelValue) {
        proof {
            assert(transfer_list@ =~= transfer_list@ + Seq::<Seq<u8>>::empty());
        }
        ChannelValue::Number(self as i128)
    }
}

impl MessageReturn for i64 {
    open spec fn can_decode(v: ChannelValue) -> bool {
        v is Number
    }

    open spec fn is_decoding_of(self, v: ChannelValue) -> bool {
        v matches ChannelValue::Number(n) && self == saturate(n, i64::MIN as i128, i64::MAX as i128) as i64
    }

    fn shape_matches(value: &ChannelValue) -> (r: bool) {
        match value {
            ChannelValue::Number(_) => true,
            _ => false,
        }
    }

    fn from_js(value: &ChannelValue) -> (r: Self) {
        match value {
            ChannelValue::Number(n) => {
                if *n < i64::MIN as i128 {
                    i64::MIN
                } else if *n > i64::MAX as i128 {
                    i64::MAX
                } else {
                    *n as i64
                }
            },
            _ => unreached(),
        }
    }
}

impl MessageSend for isize {
    type Output = isize;

    open spec fn spec_encoded(self) -> ChannelValue {
        ChannelValue::Number(self as i128)
    }

    open spec fn spec_transfers(self) -> Seq<Seq<u8>> {
        Seq::empty()
    }

    fn into_js(self, transfer_list: &mut TransferList) -> (r: ChannelValue) {
        proof {
            assert(transfer_list@ =~= transfer_list@ + Seq::<Seq<u8>>::empty());
        }
        ChannelValue::Number(self as i128)
    }
}

impl MessageReturn for isize {
    open spec fn can_decode(v: ChannelValue) -> bool {
        v is Number
    }

    open spec fn is_decoding_of(self, v: ChannelValue) -> bool {
        v matches ChannelValue::Number(n) && self == saturate(n, isize::MIN as i128, isize::MAX as i128) as isize
    }

    fn shape_matches(value: &ChannelValue) -> (r: bool) {
        match value {
            ChannelValue::Number(_) => true,
            _ => false,
        }
    }

    fn from_js(value: &ChannelValue) -> (r: Self) {
        match value {
            ChannelValue::Number(n) => {
                if *n < isize::MIN as i128 {
                    isize::MIN
                } else if *n > isize::MAX as i128 {
                    isize::MAX
                } else {
                    *n as isize
                }
            },
            _ => unreached(),
        }
    }
}

/// Round trip for the raw passthrough: the encoding of a channel value is
/// decodable, and every decoding of it is structurally equivalent to the
/// original value.
pub proof fn lemma_round_trip_value(x: ChannelValue)
    ensures
        <ChannelValue as MessageReturn>::can_decode(x.spec_encoded()),
        forall|r: ChannelValue| #[trigger] r.is_decoding_of(x.spec_encoded()) ==> value_like(x, r),
{
}

/// Round trip for byte buffers: decoding an encoded buffer yields a buffer
/// with the same byte contents, in freshly owned storage.
pub proof fn lemma_round_trip_bytes(x: Vec<u8>)
    ensures
        <Vec<u8> as MessageReturn>::can_decode(x.spec_encoded()),
        forall|r: Vec<u8>| #[trigger] r.is_decoding_of(x.spec_encoded()) ==> r@ == x@,
{
}

/// Round trip for text: decoding an encoded string yields the same
/// characters back.
pub proof fn lemma_round_trip_text(x: String)
    ensures
        <String as MessageReturn>::can_decode(x.spec_encoded()),
        forall|r: String| #[trigger] r.is_decoding_of(x.spec_encoded()) ==> r@ == x@,
{
}

/// Round trip for `u8`: decoding an encoded value yields it back exactly.
pub proof fn lemma_round_trip_u8(x: u8)
    ensures
        <u8 as MessageReturn>::can_decode(x.spec_encoded()),
        forall|r: u8| #[trigger] r.is_decoding_of(x.spec_encoded()) ==> r == x,
{
}

/// Round trip for `u16`: decoding an encoded value yields it back exactly.
pub proof fn lemma_round_trip_u16(x: u16)
    ensures
        <u16 as MessageReturn>::can_decode(x.spec_encoded()),
        forall|r: u16| #[trigger] r.is_decoding_of(x.spec_encoded()) ==> r == x,
{
}

/// Round trip for `u32`: decoding an encoded value yields it back exactly.
pub proof fn lemma_round_trip_u32(x: u32)
    ensures
        <u32 as MessageReturn>::can_decode(x.spec_encoded()),
        forall|r: u32| #[trigger] r.is_decoding_of(x.spec_encoded()) ==> r == x,
{
}

/// Round trip for `u64`, guaranteed only for magnitudes a double carries
/// exactly; beyond [`DOUBLE_EXACT_BOUND`] the host's double-precision
/// intermediate may round and the round trip is not promised.
pub proof fn lemma_round_trip_u64(x: u64)
    requires
        x as i128 <= DOUBLE_EXACT_BOUND,
    ensures
        <u64 as MessageReturn>::can_decode(x.spec_encoded()),
        forall|r: u64| #[trigger] r.is_decoding_of(x.spec_encoded()) ==> r == x,
{
}

/// Round trip for `usize`, guaranteed only for magnitudes a double
/// carries exactly, as for `u64`.
pub proof fn lemma_round_trip_usize(x: usize)
    requires
        x as i128 <= DOUBLE_EXACT_BOUND,
    ensures
        <usize as MessageReturn>::can_decode(x.spec_encoded()),
        forall|r: usize| #[trigger] r.is_decoding_of(x.spec_encoded()) ==> r == x,
{
}

/// Round trip for `i8`: decoding an encoded value yields it back exactly.
pub proof fn lemma_round_trip_i8(x: i8)
    ensures
        <i8 as MessageReturn>::can_decode(x.spec_encoded()),
        forall|r: i8| #[trigger] r.is_decoding_of(x.spec_encoded()) ==> r == x,
{
}

/// Round trip for `i16`: decoding an encoded value yields it back exactly.
pub proof fn lemma_round_trip_i16(x: i16)
    ensures
        <i16 as MessageReturn>::can_decode(x.spec_encoded()),
        forall|r: i16| #[trigger] r.is_decoding_of(x.spec_encoded()) ==> r == x,
{
}

/// Round trip for `i32`: decoding an encoded value yields it back exactly.
pub proof fn lemma_round_trip_i32(x: i32)
    ensures
        <i32 as MessageReturn>::can_decode(x.spec_encoded()),
        forall|r: i32| #[trigger] r.is_decoding_of(x.spec_encoded()) ==> r == x,
{
}

/// Round trip for `i64`, guaranteed only for magnitudes a double carries
/// exactly, as for `u64`.
pub proof fn lemma_round_trip_i64(x: i64)
    requires
        -DOUBLE_EXACT_BOUND <= x as i128 <= DOUBLE_EXACT_BOUND,
    ensures
        <i64 as MessageReturn>::can_decode(x.spec_encoded()),
        forall|r: i64| #[trigger] r.is_decoding_of(x.spec_encoded()) ==> r == x,
{
}

/// Round trip for `isize`, guaranteed only for magnitudes a double
/// carries exactly, as for `i64`.
pub proof fn lemma_round_trip_isize(x: isize)
    requires
        -DOUBLE_EXACT_BOUND <= x as i128 <= DOUBLE_EXACT_BOUND,
    ensures
        <isize as MessageReturn>::can_decode(x.spec_encoded()),
        forall|r: isize| #[trigger] r.is_decoding_of(x.spec_encoded()) ==> r == x,
{
}

} // verus!
