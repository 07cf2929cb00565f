//! Tests of the frame assembler, the dispatcher and the streaming client.

use ola::assembler::FrameAssembler;
use ola::client::{dispatch_frame, CallErrorKind, FrameSink, StreamingClient};
use ola::ola::proto::rpc::{decode_envelope, Type};
use ola::ola::proto::{DmxData, OlaClientServiceCall, OlaServerServiceCall};
use ola::ola::{decode_header, encode_header, RpcContext};

use bytes::BytesMut;

/// One whole frame around the given payload bytes.
fn frame(payload: &[u8]) -> Vec<u8> {
    let mut out = Vec::new();
    out.extend_from_slice(&encode_header(1, payload.len()));
    out.extend_from_slice(payload);
    out
}

#[test]
fn assembler_waits_for_header_then_payload() {
    // Fed 3 header bytes, then the 4th, then the payload the header
    // declares: exactly one frame comes out, and only after the final
    // chunk.
    let payload = [7u8, 8, 9, 10, 11];
    let bytes = frame(&payload);
    let mut assembler = FrameAssembler::new();

    assembler.push(&bytes[0..3]);
    assert_eq!(assembler.next_frame(), None);

    assembler.push(&bytes[3..4]);
    assert_eq!(assembler.next_frame(), None);

    assembler.push(&bytes[4..]);
    assert_eq!(assembler.next_frame(), Some(payload.to_vec()));
    assert_eq!(assembler.next_frame(), None);
}

#[test]
fn assembler_is_invariant_under_chunking() {
    // The same byte sequence, fed whole or one byte at a time, yields
    // the same ordered frames.
    let mut stream = Vec::new();
    stream.extend_from_slice(&frame(&[1, 2, 3]));
    stream.extend_from_slice(&frame(&[]));
    stream.extend_from_slice(&frame(&[4; 100]));
    stream.extend_from_slice(&[0x55, 0x66]); // an incomplete header stays pending

    let mut whole = FrameAssembler::new();
    whole.push(&stream);
    let mut frames_whole = Vec::new();
    while let Some(f) = whole.next_frame() {
        frames_whole.push(f);
    }

    let mut chunked = FrameAssembler::new();
    let mut frames_chunked = Vec::new();
    for byte in &stream {
        chunked.push(std::slice::from_ref(byte));
        while let Some(f) = chunked.next_frame() {
            frames_chunked.push(f);
        }
    }

    assert_eq!(frames_whole, vec![vec![1, 2, 3], vec![], vec![4; 100]]);
    assert_eq!(frames_chunked, frames_whole);
}

#[test]
fn assembler_yields_back_to_back_frames_in_order() {
    let mut assembler = FrameAssembler::new();
    let mut stream = frame(&[1]);
    stream.extend_from_slice(&frame(&[2]));
    assembler.push(&stream);
    assert_eq!(assembler.next_frame(), Some(vec![1]));
    assert_eq!(assembler.next_frame(), Some(vec![2]));
    assert_eq!(assembler.next_frame(), None);
}

#[test]
fn dispatcher_acknowledges_inbound_update() {
    // Inbound UpdateDmxData { universe: 5 } under id 42: the dispatcher
    // appends exactly one Ack response reusing id 42, and surfaces the
    // decoded call.
    let call = OlaClientServiceCall::UpdateDmxData(DmxData {
        universe: 5,
        data: vec![9; 512],
        priority: None,
    });
    let mut payload = Vec::new();
    ola::ola::proto::rpc::encode_envelope(&call.to_message(42), &mut payload);

    let mut ctx = RpcContext::new();
    let mut response = BytesMut::new();
    let (universe, buffer) =
        dispatch_frame(&mut ctx, &payload, &mut response).expect("dispatch succeeds");
    assert_eq!(universe, 5);
    assert_eq!(buffer.as_slice(), &[9u8; 512][..]);

    // The response holds exactly one well-formed Ack frame.
    let bytes = &response[..];
    let mut header = [0u8; 4];
    header.copy_from_slice(&bytes[0..4]);
    let (version, size) = decode_header(header);
    assert_eq!(version, 1);
    assert_eq!(size, bytes.len() - 4);
    let ack = decode_envelope(&bytes[4..]).expect("well-formed ack envelope");
    assert_eq!(ack.rpc_type, Type::Response.code());
    assert_eq!(ack.id, Some(42));
    assert_eq!(ack.name, Some(b"Ack".to_vec()));
    assert_eq!(ack.buffer, Some(Vec::new()));

    // The acknowledgement, an outbound encode, consumed one sequence
    // number, though it carried the inbound id.
    assert_eq!(ctx.next_sequence(), 1);
}

#[test]
fn dispatcher_rejects_wrongly_sized_universe_data() {
    // A well-formed update whose data is not 512 bytes: the ack still
    // goes out first, then the buffer-shape error surfaces.
    let call = OlaClientServiceCall::UpdateDmxData(DmxData {
        universe: 1,
        data: vec![1, 2, 3],
        priority: None,
    });
    let mut payload = Vec::new();
    ola::ola::proto::rpc::encode_envelope(&call.to_message(7), &mut payload);

    let mut ctx = RpcContext::new();
    let mut response = BytesMut::new();
    let err = dispatch_frame(&mut ctx, &payload, &mut response).expect_err("bad buffer");
    assert!(matches!(err.kind, CallErrorKind::InvalidBuffer(_)));
    assert!(!response.is_empty());
    let ack = decode_envelope(&response[4..]).expect("well-formed ack envelope");
    assert_eq!(ack.id, Some(7));
}

#[test]
fn dispatcher_surfaces_decode_errors_without_response() {
    let mut ctx = RpcContext::new();
    let mut response = BytesMut::new();
    let err = dispatch_frame(&mut ctx, &[0xff, 0x01], &mut response).expect_err("not an envelope");
    assert!(matches!(err.kind, CallErrorKind::Decode(_)));
    assert!(response.is_empty());
}

/// A sink that keeps every frame handed to it.
struct RecordingSink {
    frames: Vec<Vec<u8>>,
}

impl FrameSink for RecordingSink {
    fn write_frame(&mut self, frame: &[u8]) -> Result<(), std::io::Error> {
        self.frames.push(frame.to_vec());
        Ok(())
    }
}

/// A sink that refuses every frame.
struct FailingSink;

impl FrameSink for FailingSink {
    fn write_frame(&mut self, _frame: &[u8]) -> Result<(), std::io::Error> {
        Err(std::io::Error::new(std::io::ErrorKind::BrokenPipe, "closed"))
    }
}

#[test]
fn client_sends_whole_frames_with_increasing_ids() {
    let mut client = StreamingClient::from_stream(RecordingSink { frames: Vec::new() });
    let universe = ola::DmxBuffer::new();
    client.send_dmx(1, &universe).expect("send succeeds");
    client.send_dmx_with_priority(2, &universe, 50).expect("send succeeds");
    client.register_universe(3).expect("send succeeds");

    let frames = &client.get_ref().frames;
    assert_eq!(frames.len(), 3);
    for (i, bytes) in frames.iter().enumerate() {
        let mut header = [0u8; 4];
        header.copy_from_slice(&bytes[0..4]);
        let (version, size) = decode_header(header);
        assert_eq!(version, 1);
        assert_eq!(size, bytes.len() - 4);
        let envelope = decode_envelope(&bytes[4..]).expect("well-formed envelope");
        assert_eq!(envelope.id, Some(i as u32));
    }

    // The first frame carries the streamed data at the default priority.
    let envelope = decode_envelope(&frames[0][4..]).expect("well-formed envelope");
    let (id, call) = OlaServerServiceCall::from_message(envelope).expect("known call");
    assert_eq!(id, 0);
    match call {
        OlaServerServiceCall::StreamDmxData(d) => {
            assert_eq!(d.universe, 1);
            assert_eq!(d.data, vec![0; 512]);
            assert_eq!(d.priority, Some(100));
        },
        other => panic!("unexpected call {:?}", other),
    }
}

#[test]
fn client_write_failure_surfaces_and_consumes_a_sequence_number() {
    let mut client = StreamingClient::from_stream(FailingSink);
    let universe = ola::DmxBuffer::new();
    let err = client.send_dmx(1, &universe).expect_err("sink refuses");
    assert!(matches!(err.kind, CallErrorKind::Write(_)));
}
