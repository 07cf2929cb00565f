//! Tests of the header codec, the envelope codec and the call tables.

use ola::ola::proto::rpc::{decode_envelope, encode_envelope, RpcMessage, Type};
use ola::ola::proto::{
    Ack, DmxData, OlaClientServiceCall, OlaServerServiceCall, RegisterAction, RegisterDmxRequest,
};
use ola::ola::{decode_header, encode_header, MessageDecodeErrorKind, RpcContext};
use ola::wire::{read_varint, write_varint};

use bytes::BytesMut;

#[test]
fn header_round_trip_all_versions() {
    for version in 0u32..16 {
        for size in [0usize, 1, 4, 511, 512, 0x0fff_ffff] {
            let header = encode_header(version, size);
            assert_eq!(decode_header(header), (version, size));
        }
    }
}

#[test]
fn header_masks_oversized_values() {
    // The size is masked to 28 bits, the version to 4; nothing is
    // range-checked on encode.
    let header = encode_header(1, 0x1000_0002);
    assert_eq!(decode_header(header), (1, 2));
    let header = encode_header(17, 3);
    assert_eq!(decode_header(header), (1, 3));
}

#[test]
fn header_is_packed_in_host_order() {
    // The header is the word version << 28 | size, written in the
    // host's byte order.
    let header = encode_header(1, 5);
    assert_eq!(header, 0x1000_0005u32.to_ne_bytes());
}

#[test]
fn varint_round_trip() {
    for v in [0u64, 1, 127, 128, 300, 0xffff_ffff, u64::MAX] {
        let mut out = Vec::new();
        write_varint(v, &mut out);
        let got = read_varint(&out, 0).expect("well-formed varint");
        assert_eq!(got, (v, out.len()));
    }
}

#[test]
fn varint_rejects_truncated_and_overlong_runs() {
    // A lone continuation byte is not a varint.
    assert_eq!(read_varint(&[0x80], 0), None);
    // Eleven continuation groups can never be a 64-bit value.
    let overlong = [0xffu8; 11];
    assert_eq!(read_varint(&overlong, 0), None);
}

#[test]
fn envelope_round_trips_with_all_fields() {
    let message = RpcMessage {
        rpc_type: Type::Request.code(),
        id: Some(42),
        name: Some(b"UpdateDmxData".to_vec()),
        buffer: Some(vec![8, 5, 18, 0]),
    };
    let mut out = Vec::new();
    encode_envelope(&message, &mut out);
    assert_eq!(decode_envelope(&out), Some(message));
}

#[test]
fn envelope_round_trips_without_optional_fields() {
    let message = RpcMessage { rpc_type: 1, id: None, name: None, buffer: None };
    let mut out = Vec::new();
    encode_envelope(&message, &mut out);
    assert_eq!(decode_envelope(&out), Some(message));
}

#[test]
fn envelope_rejects_trailing_garbage() {
    let message = RpcMessage { rpc_type: 1, id: Some(1), name: None, buffer: None };
    let mut out = Vec::new();
    encode_envelope(&message, &mut out);
    out.push(0);
    assert_eq!(decode_envelope(&out), None);
}

#[test]
fn outbound_call_round_trip() {
    let call = OlaServerServiceCall::StreamDmxData(DmxData {
        universe: 7,
        data: vec![1, 2, 3],
        priority: Some(100),
    });
    let message = call.to_message(9);
    let decoded = OlaServerServiceCall::from_message(message).expect("known call");
    assert_eq!(decoded, (9, call));
}

#[test]
fn outbound_register_call_round_trip() {
    let call = OlaServerServiceCall::RegisterForDmx(RegisterDmxRequest {
        universe: -3,
        action: RegisterAction::Register.code(),
    });
    let message = call.to_message(11);
    assert_eq!(message.rpc_type, Type::Request.code());
    assert_eq!(message.name, Some(b"RegisterForDmx".to_vec()));
    let decoded = OlaServerServiceCall::from_message(message).expect("known call");
    assert_eq!(decoded, (11, call));
}

#[test]
fn inbound_call_round_trip() {
    let call = OlaClientServiceCall::UpdateDmxData(DmxData {
        universe: 5,
        data: vec![0; 512],
        priority: None,
    });
    let message = call.to_message(42);
    let decoded = OlaClientServiceCall::from_message(message).expect("known call");
    assert_eq!(decoded, (42, call));
}

#[test]
fn unknown_method_is_unrecognised() {
    let message = RpcMessage {
        rpc_type: Type::Request.code(),
        id: Some(1),
        name: Some(b"NoSuchMethod".to_vec()),
        buffer: Some(Vec::new()),
    };
    let mut out = Vec::new();
    encode_envelope(&message, &mut out);
    let err = RpcContext::decode(&out).expect_err("unknown method");
    assert!(matches!(err.kind, MessageDecodeErrorKind::Unrecognised));
}

#[test]
fn envelope_missing_fields_is_unrecognised() {
    // Well-formed envelope, but without an id the inbound pattern
    // cannot match.
    let message = RpcMessage {
        rpc_type: Type::Request.code(),
        id: None,
        name: Some(b"UpdateDmxData".to_vec()),
        buffer: Some(Vec::new()),
    };
    let mut out = Vec::new();
    encode_envelope(&message, &mut out);
    let err = RpcContext::decode(&out).expect_err("missing id");
    assert!(matches!(err.kind, MessageDecodeErrorKind::Unrecognised));
}

#[test]
fn malformed_envelope_is_invalid() {
    let err = RpcContext::decode(&[0xff, 0xff]).expect_err("not an envelope");
    assert!(matches!(err.kind, MessageDecodeErrorKind::Invalid));
    let err = RpcContext::decode(&[]).expect_err("empty payload");
    assert!(matches!(err.kind, MessageDecodeErrorKind::Invalid));
}

#[test]
fn malformed_method_payload_is_invalid() {
    // Known method, but the payload bytes are not a DMX data message.
    let message = RpcMessage {
        rpc_type: Type::Request.code(),
        id: Some(3),
        name: Some(b"UpdateDmxData".to_vec()),
        buffer: Some(vec![0xff]),
    };
    let mut out = Vec::new();
    encode_envelope(&message, &mut out);
    let err = RpcContext::decode(&out).expect_err("bad payload");
    assert!(matches!(err.kind, MessageDecodeErrorKind::Invalid));
}

#[test]
fn sequence_numbers_start_at_zero_and_increment() {
    let mut ctx = RpcContext::new();
    assert_eq!(ctx.next_sequence(), 0);
    assert_eq!(ctx.next_sequence(), 1);
    assert_eq!(ctx.next_sequence(), 2);
    assert_eq!(ctx.next_sequence(), 3);
}

#[test]
fn encode_stream_dmx_scenario() {
    // Encoding StreamDmxData { universe: 1, data: [0; 512], priority: 100 }
    // with a fresh context: the header declares version 1 and exactly the
    // envelope's size, and the same bytes decode back to the call under
    // sequence id 0.
    let call = OlaServerServiceCall::StreamDmxData(DmxData {
        universe: 1,
        data: vec![0; 512],
        priority: Some(100),
    });
    let mut ctx = RpcContext::new();
    let mut out = BytesMut::new();
    ctx.encode(call.clone(), &mut out).expect("encode succeeds");

    let bytes = &out[..];
    assert!(bytes.len() > 4);
    let mut header = [0u8; 4];
    header.copy_from_slice(&bytes[0..4]);
    let (version, size) = decode_header(header);
    assert_eq!(version, 1);
    assert_eq!(size, bytes.len() - 4);

    let envelope = decode_envelope(&bytes[4..]).expect("well-formed envelope");
    assert_eq!(envelope.rpc_type, Type::StreamRequest.code());
    assert_eq!(envelope.id, Some(0));
    assert_eq!(envelope.name, Some(b"StreamDmxData".to_vec()));
    let decoded = OlaServerServiceCall::from_message(envelope).expect("known call");
    assert_eq!(decoded, (0, call));
}

#[test]
fn encode_consumes_one_sequence_number_per_call() {
    let mut ctx = RpcContext::new();
    for expected_id in 0u32..3 {
        let call = OlaServerServiceCall::StreamDmxData(DmxData {
            universe: 1,
            data: vec![0; 512],
            priority: Some(100),
        });
        let mut out = BytesMut::new();
        ctx.encode(call, &mut out).expect("encode succeeds");
        let envelope = decode_envelope(&out[4..]).expect("well-formed envelope");
        assert_eq!(envelope.id, Some(expected_id));
    }
}

#[test]
fn encode_message_advances_the_counter_without_using_it() {
    // Framing a message is an outbound encode, so it consumes one
    // sequence number - but the message keeps the id the caller set.
    let mut ctx = RpcContext::new();
    let ack = RpcMessage {
        rpc_type: Type::Response.code(),
        id: Some(5),
        name: Some(b"Ack".to_vec()),
        buffer: Some(Ack {}.encode_to_vec()),
    };
    let mut out = BytesMut::new();
    ctx.encode_message(ack, &mut out).expect("encode succeeds");
    let envelope = decode_envelope(&out[4..]).expect("well-formed envelope");
    assert_eq!(envelope.id, Some(5));
    assert_eq!(ctx.next_sequence(), 1);
}

#[test]
fn ack_payload_is_empty() {
    assert_eq!(Ack {}.encode_to_vec(), Vec::<u8>::new());
}

#[test]
fn type_and_action_codes_match_the_daemon() {
    assert_eq!(Type::Request.code(), 1);
    assert_eq!(Type::Response.code(), 2);
    assert_eq!(Type::StreamRequest.code(), 10);
    assert_eq!(RegisterAction::Register.code(), 1);
    assert_eq!(RegisterAction::Unregister.code(), 2);
}
