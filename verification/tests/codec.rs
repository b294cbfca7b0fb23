//! Round trips and shape handling of the typed codec.

use worker_rpc::ChannelValue;
use worker_rpc::TransferList;
use worker_rpc::MessageReturn;
use worker_rpc::MessageSend;
use worker_rpc::Arguments;

fn encode<A: MessageSend>(value: A) -> (ChannelValue, TransferList) {
    let mut transfer = TransferList::new();
    let encoded = value.into_js(&mut transfer);
    (encoded, transfer)
}

#[test]
fn round_trip_u32_zero_and_max() {
    for x in [0u32, 1, u32::MAX] {
        let (v, t) = encode(x);
        assert_eq!(t.len(), 0);
        let back = u32::from_js(&v);
        assert_eq!(back, x);
    }
}

#[test]
fn round_trip_u8_and_i8() {
    for x in [0u8, 7, u8::MAX] {
        let (v, _) = encode(x);
        assert_eq!(u8::from_js(&v), x);
    }
    for x in [i8::MIN, -1, 0, i8::MAX] {
        let (v, _) = encode(x);
        assert_eq!(i8::from_js(&v), x);
    }
}

#[test]
fn round_trip_i64_within_double_exact_range() {
    // 2^53 is the largest magnitude a double carries exactly; the
    // round-trip guarantee holds inside that range.
    let bound: i64 = 9007199254740992;
    for x in [-bound, -123456789, 0, 123456789, bound] {
        let (v, _) = encode(x);
        assert_eq!(i64::from_js(&v), x);
    }
}

#[test]
fn round_trip_empty_and_plain_string() {
    for s in ["", "add", "text with spaces"] {
        let (v, t) = encode(s.to_string());
        assert_eq!(t.len(), 0);
        assert_eq!(String::from_js(&v), s);
    }
}

#[test]
fn round_trip_buffer_and_transfer_registration() {
    let (v, t) = encode(vec![1u8, 2, 3, 4]);
    // The buffer's backing storage is registered for ownership transfer.
    assert_eq!(t.len(), 1);
    assert_eq!(t.buffer_at(0), &vec![1u8, 2, 3, 4]);
    let back = Vec::<u8>::from_js(&v);
    assert_eq!(back, vec![1u8, 2, 3, 4]);
}

#[test]
fn round_trip_empty_buffer() {
    let (v, t) = encode(Vec::<u8>::new());
    assert_eq!(t.len(), 1);
    assert_eq!(t.buffer_at(0), &Vec::<u8>::new());
    assert_eq!(Vec::<u8>::from_js(&v), Vec::<u8>::new());
}

#[test]
fn decoded_buffer_owns_fresh_storage() {
    // Ownership transfer semantics: each decoding yields its own storage,
    // never an alias of the value on the channel or of another decoding.
    let (v, _) = encode(vec![1u8, 2, 3]);
    let mut first = Vec::<u8>::from_js(&v);
    first[0] = 99;
    let second = Vec::<u8>::from_js(&v);
    assert_eq!(second, vec![1u8, 2, 3]);
}

#[test]
fn passthrough_keeps_structure() {
    let original = ChannelValue::List(vec![
        ChannelValue::Number(5),
        ChannelValue::Text("x".to_string()),
        ChannelValue::Buffer(vec![9u8]),
        ChannelValue::Null,
    ]);
    let (v, t) = encode(original);
    assert_eq!(t.len(), 0);
    let back = ChannelValue::from_js(&v);
    match back {
        ChannelValue::List(items) => {
            assert_eq!(items.len(), 4);
            assert!(matches!(items[0], ChannelValue::Number(5)));
            match &items[1] {
                ChannelValue::Text(s) => assert_eq!(s, "x"),
                _ => panic!("expected text"),
            }
            match &items[2] {
                ChannelValue::Buffer(b) => assert_eq!(b, &vec![9u8]),
                _ => panic!("expected buffer"),
            }
            assert!(matches!(items[3], ChannelValue::Null));
        },
        _ => panic!("expected list"),
    }
}

#[test]
fn decode_saturates_out_of_range_numbers() {
    // A number outside the target type's range saturates to its bounds,
    // as a double-to-integer conversion does on the host.
    assert_eq!(u32::from_js(&ChannelValue::Number(-5)), 0);
    assert_eq!(u8::from_js(&ChannelValue::Number(300)), u8::MAX);
    assert_eq!(i8::from_js(&ChannelValue::Number(-1000)), i8::MIN);
    assert_eq!(i16::from_js(&ChannelValue::Number(70000)), i16::MAX);
}

#[test]
fn shape_checks_tell_matching_shapes_apart() {
    let num = ChannelValue::Number(1);
    let text = ChannelValue::Text("t".to_string());
    let buf = ChannelValue::Buffer(vec![]);
    assert!(u32::shape_matches(&num));
    assert!(!u32::shape_matches(&text));
    assert!(String::shape_matches(&text));
    assert!(!String::shape_matches(&buf));
    assert!(Vec::<u8>::shape_matches(&buf));
    assert!(!Vec::<u8>::shape_matches(&num));
    assert!(ChannelValue::shape_matches(&num));
    assert!(ChannelValue::shape_matches(&text));
}

#[test]
fn argument_tuples_convert_in_order() {
    let args = vec![ChannelValue::Number(4), ChannelValue::Number(11)];
    assert!(<(u32, u32)>::check(&args));
    let (a, b) = <(u32, u32)>::from_vec(&args);
    assert_eq!(a, 4);
    assert_eq!(b, 11);
}

#[test]
fn argument_check_rejects_wrong_arity_and_shape() {
    let two = vec![ChannelValue::Number(4), ChannelValue::Number(11)];
    assert!(!<(u32,)>::check(&two));
    assert!(!<()>::check(&two));
    let wrong_shape = vec![ChannelValue::Text("4".to_string())];
    assert!(!<(u32,)>::check(&wrong_shape));
    assert!(<(String,)>::check(&wrong_shape));
    assert!(<()>::check(&Vec::new()));
}
