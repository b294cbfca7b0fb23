//! End-to-end protocol scenarios: handshake, correlation, dispatch.

use worker_rpc::ChannelValue;
use worker_rpc::IdAllocator;
use worker_rpc::Envelope;
use worker_rpc::OperationTable;
use worker_rpc::Shape;
use worker_rpc::SpawnedWorker;
use worker_rpc::Worker;

#[test]
fn handshake_resolves_iff_signal_observed() {
    let mut caller = Worker::new();
    let mut callee = SpawnedWorker::new();
    callee.listen();

    let pending = caller.wait_loaded();
    assert!(!pending.poll(&caller));

    // The callee signals readiness only after its listener is attached.
    let ready = callee.set_loaded();
    assert_eq!(ready.shape(), Shape::Ready);
    caller.deliver(ready);

    assert!(pending.poll(&caller));
    // Polling again after the signal was observed still resolves.
    assert!(pending.poll(&caller));
}

#[test]
fn signal_sent_before_attach_is_missed() {
    // Deliberately violating the program-order requirement: the signal
    // arrives before the wait attaches, and the wait never resolves.
    let mut caller = Worker::new();
    let mut callee = SpawnedWorker::new();
    callee.listen();
    caller.deliver(callee.set_loaded());

    let pending = caller.wait_loaded();
    assert!(!pending.poll(&caller));
}

#[test]
fn add_scenario() {
    let mut ids = IdAllocator::new();
    let mut caller = Worker::new();
    let mut callee = SpawnedWorker::new();
    callee.listen();
    caller.deliver(callee.set_loaded());

    // Client side: add(4, 11).
    let (request, transfer, pending) =
        caller.call("add").arg(4u32).arg(11u32).send(&caller, &mut ids);
    assert_eq!(request.shape(), Shape::Request);
    assert_eq!(transfer.len(), 0);
    let request_id = request.id;

    // The channel carries the request to the callee.
    callee.deliver(request);
    let message = callee.next_message().expect("a request was delivered");
    assert_eq!(message.name(&callee), "add");

    let table = OperationTable::new(vec!["add".to_string(), "compute".to_string()]).unwrap();
    assert_eq!(table.lookup(&message.name(&callee)), Some(0));

    // Handler: sum the two decoded arguments.
    assert!(message.check_args::<(u32, u32)>(&callee));
    let (a, b) = message.with_args::<(u32, u32)>(&callee);
    let (response, response_transfer) = message.send(a + b);

    // The response envelope carries value 15 under the matching id.
    assert_eq!(response.shape(), Shape::Response);
    assert_eq!(response.id, request_id);
    assert!(matches!(response.value, ChannelValue::Number(15)));
    assert_eq!(response_transfer.len(), 0);

    // The channel carries the response back; the caller resolves to 15.
    caller.deliver(response);
    assert_eq!(pending.poll::<u32>(&caller), Some(15));
}

#[test]
fn compute_scenario_with_buffer_transfer() {
    let mut ids = IdAllocator::new();
    let mut caller = Worker::new();
    let mut callee = SpawnedWorker::new();
    callee.listen();
    caller.deliver(callee.set_loaded());

    // Client side: compute([1, 2, 3, 4]); the buffer moves by transfer.
    let (request, transfer, pending) =
        caller.call("compute").arg(vec![1u8, 2, 3, 4]).send(&caller, &mut ids);
    assert_eq!(transfer.len(), 1);
    assert_eq!(transfer.buffer_at(0), &vec![1u8, 2, 3, 4]);

    callee.deliver(request);
    let message = callee.next_message().expect("a request was delivered");
    assert_eq!(message.name(&callee), "compute");

    // Handler: double every byte, returning a transformed buffer.
    let (input,) = message.with_args::<(Vec<u8>,)>(&callee);
    let output: Vec<u8> = input.iter().map(|b| b * 2).collect();
    let (response, response_transfer) = message.send(output);
    assert_eq!(response_transfer.len(), 1);

    caller.deliver(response);
    let mut result = pending.poll::<Vec<u8>>(&caller).expect("response was delivered");
    assert_eq!(result, vec![2u8, 4, 6, 8]);

    // The received buffer is its own storage: mutating it does not touch
    // what the channel carried, and a second decoding is unaffected.
    result[0] = 0;
    let again = pending.poll::<Vec<u8>>(&caller).expect("the envelope is still observed");
    assert_eq!(again, vec![2u8, 4, 6, 8]);
}

#[test]
fn responses_match_by_id_in_any_order() {
    let mut ids = IdAllocator::new();
    let mut caller = Worker::new();
    let mut callee = SpawnedWorker::new();
    callee.listen();
    caller.deliver(callee.set_loaded());

    let (req1, _, pending1) = caller.call("add").arg(1u32).arg(2u32).send(&caller, &mut ids);
    let (req2, _, pending2) = caller.call("add").arg(10u32).arg(20u32).send(&caller, &mut ids);

    callee.deliver(req1);
    callee.deliver(req2);
    let m1 = callee.next_message().expect("first request");
    let m2 = callee.next_message().expect("second request");
    let (a1, b1) = m1.with_args::<(u32, u32)>(&callee);
    let (a2, b2) = m2.with_args::<(u32, u32)>(&callee);

    // The handlers complete in the opposite order: the second response
    // goes on the wire first.
    let (resp2, _) = m2.send(a2 + b2);
    let (resp1, _) = m1.send(a1 + b1);
    caller.deliver(resp2);
    caller.deliver(resp1);

    // Each call resolves to its own result regardless of arrival order.
    assert_eq!(pending1.poll::<u32>(&caller), Some(3));
    assert_eq!(pending2.poll::<u32>(&caller), Some(30));
}

#[test]
fn back_to_back_calls_get_strictly_increasing_ids() {
    let mut ids = IdAllocator::new();
    let caller = Worker::new();
    let (req1, _, pending1) = caller.call("a").send(&caller, &mut ids);
    let (req2, _, pending2) = caller.call("b").send(&caller, &mut ids);
    let (req3, _, pending3) = caller.call("c").send(&caller, &mut ids);
    assert!(pending1.id < pending2.id);
    assert!(pending2.id < pending3.id);
    assert_eq!(req1.id, Some(pending1.id));
    assert_eq!(req2.id, Some(pending2.id));
    assert_eq!(req3.id, Some(pending3.id));
}

#[test]
fn first_calls_on_two_handles_get_distinct_ids() {
    // One allocator serves the whole process: handles never restart the
    // counter, so concurrently in-flight calls on different handles
    // cannot share an id.
    let mut ids = IdAllocator::new();
    let first = Worker::new();
    let second = Worker::new();
    let (_, _, p1) = first.call("a").send(&first, &mut ids);
    let (_, _, p2) = second.call("b").send(&second, &mut ids);
    let (_, _, p3) = first.call("c").send(&first, &mut ids);
    assert_ne!(p1.id, p2.id);
    assert!(p1.id < p2.id);
    assert!(p2.id < p3.id);
}

#[test]
fn zero_argument_operation_round_trips() {
    let mut ids = IdAllocator::new();
    let mut caller = Worker::new();
    let mut callee = SpawnedWorker::new();
    callee.listen();

    let (request, transfer, pending) = caller.call("tick").send(&caller, &mut ids);
    assert_eq!(transfer.len(), 0);
    callee.deliver(request);
    let message = callee.next_message().expect("a request was delivered");
    assert!(message.check_args::<()>(&callee));
    message.with_args::<()>(&callee);
    let (response, _) = message.send(7u8);
    caller.deliver(response);
    assert_eq!(pending.poll::<u8>(&caller), Some(7));
}

#[test]
fn five_argument_operation_with_boundary_values() {
    let mut ids = IdAllocator::new();
    let mut caller = Worker::new();
    let mut callee = SpawnedWorker::new();
    callee.listen();

    let (request, transfer, pending) = caller
        .call("mix")
        .arg(Vec::<u8>::new())
        .arg(String::new())
        .arg(0u32)
        .arg(u32::MAX)
        .arg(255u8)
        .send(&caller, &mut ids);
    // The empty buffer still transfers its (empty) backing storage.
    assert_eq!(transfer.len(), 1);

    callee.deliver(request);
    let message = callee.next_message().expect("a request was delivered");
    assert!(message.check_args::<(Vec<u8>, String, u32, u32, u8)>(&callee));
    let (buf, text, lo, hi, byte) =
        message.with_args::<(Vec<u8>, String, u32, u32, u8)>(&callee);
    assert_eq!(buf, Vec::<u8>::new());
    assert_eq!(text, "");
    assert_eq!(lo, 0);
    assert_eq!(hi, u32::MAX);
    assert_eq!(byte, 255);

    let (response, _) = message.send(hi);
    caller.deliver(response);
    assert_eq!(pending.poll::<u32>(&caller), Some(u32::MAX));
}

#[test]
fn pending_call_ignores_non_matching_envelopes() {
    let mut ids = IdAllocator::new();
    let mut caller = Worker::new();
    let (_, _, pending) = caller.call("op").arg(1u32).send(&caller, &mut ids);

    // A readiness signal and a response for another id are both ignored.
    caller.deliver(Envelope::ready());
    caller.deliver(Envelope::response(pending.id + 1, ChannelValue::Number(1)));
    assert_eq!(pending.poll::<u32>(&caller), None);

    caller.deliver(Envelope::response(pending.id, ChannelValue::Number(2)));
    assert_eq!(pending.poll::<u32>(&caller), Some(2));
}

#[test]
fn check_response_guards_the_declared_result_shape() {
    let mut ids = IdAllocator::new();
    let mut caller = Worker::new();
    let (_, _, pending) = caller.call("op").send(&caller, &mut ids);

    // No response yet: nothing contradicts the declared type.
    assert!(pending.check_response::<u32>(&caller));

    // A response whose payload is text does not decode as a number.
    caller.deliver(Envelope::response(pending.id, ChannelValue::Text("no".to_string())));
    assert!(!pending.check_response::<u32>(&caller));
    assert!(pending.check_response::<String>(&caller));
    assert_eq!(pending.poll::<String>(&caller).as_deref(), Some("no"));
}

#[test]
fn dispatcher_skips_non_request_envelopes() {
    let mut callee = SpawnedWorker::new();
    callee.listen();
    callee.deliver(Envelope::ready());
    assert!(callee.next_message().is_none());

    callee.deliver(Envelope::response(0, ChannelValue::Null));
    callee.deliver(Envelope::request("op".to_string(), 3, ChannelValue::List(Vec::new())));
    let message = callee.next_message().expect("the request is found");
    assert_eq!(message.id, 3);
    assert!(callee.next_message().is_none());
}

#[test]
fn malformed_field_presence_is_invalid() {
    // A request shape with a readiness flag is no valid envelope: the
    // receiver discriminates by field presence and rejects the mixture.
    let mixed = Envelope {
        call: Some("add".to_string()),
        id: Some(1),
        value: ChannelValue::Null,
        loaded: Some(true),
    };
    assert_eq!(mixed.shape(), Shape::Invalid);

    let bare = Envelope { call: None, id: None, value: ChannelValue::Null, loaded: None };
    assert_eq!(bare.shape(), Shape::Invalid);

    let unloaded = Envelope { call: None, id: None, value: ChannelValue::Null, loaded: Some(false) };
    assert_eq!(unloaded.shape(), Shape::Invalid);
}

#[test]
fn operation_table_rejects_duplicate_names() {
    assert!(OperationTable::new(vec!["add".to_string(), "add".to_string()]).is_none());
    let table = OperationTable::new(vec!["add".to_string(), "compute".to_string()]).unwrap();
    assert_eq!(table.len(), 2);
}

#[test]
fn unknown_operation_is_reported() {
    let table = OperationTable::new(vec!["add".to_string()]).unwrap();
    assert_eq!(table.lookup("add"), Some(0));
    // An unknown name means the peers disagree on the operation set; the
    // lookup surfaces it as the absence the host treats as fatal.
    assert_eq!(table.lookup("compute"), None);
}

#[test]
fn untrusted_peer_argument_checks() {
    let mut callee = SpawnedWorker::new();
    callee.listen();
    // Wrong arity and wrong shape for an (u32, u32) operation.
    callee.deliver(Envelope::request(
        "add".to_string(),
        0,
        ChannelValue::List(vec![ChannelValue::Number(4)]),
    ));
    callee.deliver(Envelope::request(
        "add".to_string(),
        1,
        ChannelValue::List(vec![
            ChannelValue::Text("4".to_string()),
            ChannelValue::Number(11),
        ]),
    ));
    let short = callee.next_message().unwrap();
    assert!(!short.check_args::<(u32, u32)>(&callee));
    let wrong = callee.next_message().unwrap();
    assert!(!wrong.check_args::<(u32, u32)>(&callee));
}
