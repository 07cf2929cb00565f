//! The method payload schemas and the typed call tables.
//!
//! The schema is a fixed table supplied by the daemon's service
//! definitions: each method has a name, an envelope type and a payload
//! message layout. Both the encoder and the decoder consume this table,
//! written out here as ordinary data and code, so that every entry has
//! both an encode and, where the method is inbound, a decode path.

pub mod rpc;

use vstd::prelude::*;

use crate::ola::{MessageDecodeError, MessageDecodeErrorKind};
use crate::wire::{
    bytes_equal, enc_bytes_field, enc_varint_field, lemma_parse_bytes_field,
    lemma_parse_opt_field_absent, lemma_parse_varint_field, lemma_varint_enc_len,
    parse_opt_varint_field, parse_req_bytes_field, parse_req_varint_field, read_opt_varint_field,
    read_req_bytes_field, read_req_varint_field, write_bytes_field, write_varint_field,
};
use rpc::{spec_encode_envelope, RpcMessage, RpcMessageView, Type};

verus! {

/// The payload of a DMX data method: a universe id, the channel bytes,
/// and an optional priority.
#[derive(Clone, Debug, PartialEq, Eq)]
pub struct DmxData {
    /// The universe the data is for.
    pub universe: i32,
    /// The raw channel values.
    pub data: Vec<u8>,
    /// The data's priority, if one was given.
    pub priority: Option<i32>,
}

/// The mathematical model of a [`DmxData`] payload.
pub ghost struct DmxDataView {
    /// The universe the data is for.
    pub universe: i32,
    /// The raw channel values.
    pub data: Seq<u8>,
    /// The data's priority, if one was given.
    pub priority: Option<i32>,
}

impl View for DmxData {
    type V = DmxDataView;

    open spec fn view(&self) -> DmxDataView {
        DmxDataView { universe: self.universe, data: self.data@, priority: self.priority }
    }
}

impl DmxDataView {
    /// A payload small enough for the frame header's 28-bit size field.
    pub open spec fn wf(self) -> bool {
        self.data.len() < 0x0800_0000
    }
}

/// The payload of the method registering interest in a universe: the
/// universe id and a register/unregister action tag.
#[derive(Clone, Copy, Debug, PartialEq, Eq, Structural)]
pub struct RegisterDmxRequest {
    /// The universe the registration is about.
    pub universe: i32,
    /// The action tag; see [`RegisterAction`].
    pub action: i32,
}

/// The actions a [`RegisterDmxRequest`] can carry, with the tag values
/// the daemon uses: 1 to register, 2 to unregister.
#[derive(Clone, Copy, Debug, PartialEq, Eq, Structural)]
pub enum RegisterAction {
    /// Start receiving updates for the universe.
    Register,
    /// Stop receiving updates for the universe.
    Unregister,
}

impl RegisterAction {
    /// The wire tag of this action.
    pub open spec fn spec_code(self) -> i32 {
        match self {
            RegisterAction::Register => 1,
            RegisterAction::Unregister => 2,
        }
    }

    /// The wire tag of this action.
    pub fn code(self) -> (r: i32)
        ensures
            r == self.spec_code(),
    {
        match self {
            RegisterAction::Register => 1,
            RegisterAction::Unregister => 2,
        }
    }
}

/// The empty acknowledgement payload.
#[derive(Clone, Copy, Debug, PartialEq, Eq, Structural)]
pub struct Ack {}

/// The wire form of a DMX data payload: the universe as field 1
/// (varint), the channel bytes as field 2 (length-delimited), and the
/// priority, when present, as field 3 (varint).
pub open spec fn spec_encode_dmx_data(d: DmxDataView) -> Seq<u8> {
    enc_varint_field(8, d.universe as u64) + enc_bytes_field(18, d.data) + (match d.priority {
        Some(p) => enc_varint_field(24, p as u64),
        None => Seq::empty(),
    })
}

/// Parses a byte sequence as a DMX data payload; both the universe and
/// the channel bytes must be there, and nothing may be left over.
pub open spec fn parse_dmx_data(s: Seq<u8>) -> Option<DmxDataView> {
    match parse_req_varint_field(s, 8) {
        None => None,
        Some((uv, s1)) => match parse_req_bytes_field(s1, 18) {
            None => None,
            Some((data, s2)) => match parse_opt_varint_field(s2, 24) {
                None => None,
                Some((pv, s3)) => if s3.len() == 0 {
                    Some(
                        DmxDataView {
                            universe: uv as i32,
                            data,
                            priority: match pv {
                                Some(p) => Some(p as i32),
                                None => None,
                            },
                        },
                    )
                } else {
                    None
                },
            },
        },
    }
}

/// Appends the wire form of `d` to `out`.
pub fn encode_dmx_data(d: &DmxData, out: &mut Vec<u8>)
    ensures
        final(out)@ == old(out)@ + spec_encode_dmx_data(d@),
{
    write_varint_field(8, d.universe as u64, out);
    write_bytes_field(18, d.data.as_slice(), out);
    match &d.priority {
        Some(p) => write_varint_field(24, *p as u64, out),
        None => {},
    }
    assert(final(out)@ =~= old(out)@ + spec_encode_dmx_data(d@));
}

/// Decodes a byte slice as a DMX data payload; `None` when the bytes are
/// not a well-formed payload.
pub fn decode_dmx_data(buf: &[u8]) -> (r: Option<DmxData>)
    ensures
        match parse_dmx_data(buf@) {
            Some(dv) => r matches Some(d) && d@ == dv,
            None => r is None,
        },
{
    proof {
        assert(buf@.skip(0) =~= buf@);
    }
    let step1 = read_req_varint_field(buf, 0, 8);
    let (uv, pos1) = match step1 {
        Some(p) => p,
        None => { return None; },
    };
    let step2 = read_req_bytes_field(buf, pos1, 18);
    let (data, pos2) = match step2 {
        Some(p) => p,
        None => { return None; },
    };
    let step3 = read_opt_varint_field(buf, pos2, 24);
    let (pv, pos3) = match step3 {
        Some(p) => p,
        None => { return None; },
    };
    if pos3 != buf.len() {
        return None;
    }
    let priority: Option<i32> = match pv {
        Some(p) => Some(#[verifier::truncate] (p as i32)),
        None => None,
    };
    Some(
        DmxData {
            universe: #[verifier::truncate] (uv as i32),
            data,
            priority,
        },
    )
}

/// DMX data payload round trip: decoding an encoded payload gives back
/// exactly its fields.
pub proof fn lemma_dmx_data_round_trip(d: DmxDataView)
    requires
        d.data.len() <= u64::MAX,
    ensures
        parse_dmx_data(spec_encode_dmx_data(d)) == Some(d),
{
    let f3: Seq<u8> = match d.priority {
        Some(p) => enc_varint_field(24, p as u64),
        None => Seq::empty(),
    };
    let tail2 = enc_bytes_field(18, d.data) + f3;
    let s = spec_encode_dmx_data(d);
    assert(s =~= enc_varint_field(8, d.universe as u64) + tail2);
    lemma_parse_varint_field(8, d.universe as u64, tail2);
    let u = d.universe;
    assert((u as u64) as i32 == u) by (bit_vector);
    assert(tail2 =~= enc_bytes_field(18, d.data) + f3);
    lemma_parse_bytes_field(18, d.data, f3);
    match d.priority {
        Some(p) => {
            assert(f3 =~= enc_varint_field(24, p as u64) + Seq::<u8>::empty());
            lemma_parse_varint_field(24, p as u64, Seq::empty());
            assert((p as u64) as i32 == p) by (bit_vector);
        },
        None => {
            lemma_parse_opt_field_absent(f3, 24);
        },
    }
    assert(parse_opt_varint_field(f3, 24) matches Some(q) && q.1.len() == 0 && q.0 == (
    match d.priority {
        Some(p) => Some(p as u64),
        None => None,
    }));
}

/// The wire form of a registration payload: the universe as field 1 and
/// the action tag as field 2, both varints.
pub open spec fn spec_encode_register(r: RegisterDmxRequest) -> Seq<u8> {
    enc_varint_field(8, r.universe as u64) + enc_varint_field(16, r.action as u64)
}

/// Parses a byte sequence as a registration payload; both fields must be
/// there, and nothing may be left over.
pub open spec fn parse_register(s: Seq<u8>) -> Option<RegisterDmxRequest> {
    match parse_req_varint_field(s, 8) {
        None => None,
        Some((uv, s1)) => match parse_req_varint_field(s1, 16) {
            None => None,
            Some((av, s2)) => if s2.len() == 0 {
                Some(RegisterDmxRequest { universe: uv as i32, action: av as i32 })
            } else {
                None
            },
        },
    }
}

/// Appends the wire form of `r` to `out`.
pub fn encode_register(r: &RegisterDmxRequest, out: &mut Vec<u8>)
    ensures
        final(out)@ == old(out)@ + spec_encode_register(*r),
{
    write_varint_field(8, r.universe as u64, out);
    write_varint_field(16, r.action as u64, out);
    assert(final(out)@ =~= old(out)@ + spec_encode_register(*r));
}

/// Decodes a byte slice as a registration payload; `None` when the bytes
/// are not a well-formed payload.
pub fn decode_register(buf: &[u8]) -> (r: Option<RegisterDmxRequest>)
    ensures
        match parse_register(buf@) {
            Some(rv) => r == Some(rv),
            None => r is None,
        },
{
    proof {
        assert(buf@.skip(0) =~= buf@);
    }
    let step1 = read_req_varint_field(buf, 0, 8);
    let (uv, pos1) = match step1 {
        Some(p) => p,
        None => { return None; },
    };
    let step2 = read_req_varint_field(buf, pos1, 16);
    let (av, pos2) = match step2 {
        Some(p) => p,
        None => { return None; },
    };
    if pos2 != buf.len() {
        return None;
    }
    Some(
        RegisterDmxRequest {
            universe: #[verifier::truncate] (uv as i32),
            action: #[verifier::truncate] (av as i32),
        },
    )
}

/// Registration payload round trip: decoding an encoded payload gives
/// back exactly its fields.
pub proof fn lemma_register_round_trip(r: RegisterDmxRequest)
    ensures
        parse_register(spec_encode_register(r)) == Some(r),
{
    let f2 = enc_varint_field(16, r.action as u64);
    let s = spec_encode_register(r);
    assert(s =~= enc_varint_field(8, r.universe as u64) + f2);
    lemma_parse_varint_field(8, r.universe as u64, f2);
    let u = r.universe;
    assert((u as u64) as i32 == u) by (bit_vector);
    assert(f2 =~= enc_varint_field(16, r.action as u64) + Seq::<u8>::empty());
    lemma_parse_varint_field(16, r.action as u64, Seq::empty());
    let a = r.action;
    assert((a as u64) as i32 == a) by (bit_vector);
}

/// The wire form of the acknowledgement payload: no fields at all.
pub open spec fn spec_encode_ack() -> Seq<u8> {
    Seq::empty()
}

impl Ack {
    /// The acknowledgement payload as bytes: an empty vector.
    pub fn encode_to_vec(&self) -> (r: Vec<u8>)
        ensures
            r@ == spec_encode_ack(),
    {
        let r: Vec<u8> = Vec::new();
        assert(r@ =~= spec_encode_ack());
        r
    }
}

/// The name of the outbound method streaming DMX data, `StreamDmxData`,
/// as bytes.
pub open spec fn name_stream_dmx_data() -> Seq<u8> {
    seq![83u8, 116, 114, 101, 97, 109, 68, 109, 120, 68, 97, 116, 97]
}

/// The name of the outbound method registering for a universe,
/// `RegisterForDmx`, as bytes.
pub open spec fn name_register_for_dmx() -> Seq<u8> {
    seq![82u8, 101, 103, 105, 115, 116, 101, 114, 70, 111, 114, 68, 109, 120]
}

/// The name of the inbound method pushing updated DMX data,
/// `UpdateDmxData`, as bytes.
pub open spec fn name_update_dmx_data() -> Seq<u8> {
    seq![85u8, 112, 100, 97, 116, 101, 68, 109, 120, 68, 97, 116, 97]
}

/// The name of the acknowledgement response, `Ack`, as bytes.
pub open spec fn name_ack() -> Seq<u8> {
    seq![65u8, 99, 107]
}

/// The envelope of the acknowledgement answering an inbound call: a
/// response reusing the inbound message's id, named `Ack`, with the
/// empty acknowledgement payload.
pub open spec fn ack_message(id: u32) -> RpcMessageView {
    RpcMessageView {
        rpc_type: Type::Response.spec_code(),
        id: Some(id),
        name: Some(name_ack()),
        buffer: Some(spec_encode_ack()),
    }
}

/// Builds the `StreamDmxData` method name.
pub fn method_name_stream_dmx_data() -> (r: Vec<u8>)
    ensures
        r@ == name_stream_dmx_data(),
{
    let mut v: Vec<u8> = Vec::new();
    v.push(83);
    v.push(116);
    v.push(114);
    v.push(101);
    v.push(97);
    v.push(109);
    v.push(68);
    v.push(109);
    v.push(120);
    v.push(68);
    v.push(97);
    v.push(116);
    v.push(97);
    assert(v@ =~= name_stream_dmx_data());
    v
}

/// Builds the `RegisterForDmx` method name.
pub fn method_name_register_for_dmx() -> (r: Vec<u8>)
    ensures
        r@ == name_register_for_dmx(),
{
    let mut v: Vec<u8> = Vec::new();
    v.push(82);
    v.push(101);
    v.push(103);
    v.push(105);
    v.push(115);
    v.push(116);
    v.push(101);
    v.push(114);
    v.push(70);
    v.push(111);
    v.push(114);
    v.push(68);
    v.push(109);
    v.push(120);
    assert(v@ =~= name_register_for_dmx());
    v
}

/// Builds the `UpdateDmxData` method name.
pub fn method_name_update_dmx_data() -> (r: Vec<u8>)
    ensures
        r@ == name_update_dmx_data(),
{
    let mut v: Vec<u8> = Vec::new();
    v.push(85);
    v.push(112);
    v.push(100);
    v.push(97);
    v.push(116);
    v.push(101);
    v.push(68);
    v.push(109);
    v.push(120);
    v.push(68);
    v.push(97);
    v.push(116);
    v.push(97);
    assert(v@ =~= name_update_dmx_data());
    v
}

/// Builds the `Ack` response name.
pub fn method_name_ack() -> (r: Vec<u8>)
    ensures
        r@ == name_ack(),
{
    let mut v: Vec<u8> = Vec::new();
    v.push(65);
    v.push(99);
    v.push(107);
    assert(v@ =~= name_ack());
    v
}

/// A message type tag under which an incoming call is accepted: a plain
/// request or a fire-and-forget streaming request.
pub open spec fn request_like(t: i32) -> bool {
    t == Type::Request.spec_code() || t == Type::StreamRequest.spec_code()
}

/// Methods that can be sent over an RPC channel.
pub trait RpcCall: Sized {
    /// Decode an RPC message as an RPC call.
    fn from_message(msg: RpcMessage) -> Result<(u32, Self), MessageDecodeError>;

    /// Encode an RPC call as an RPC message.
    fn to_message(&self, id: u32) -> RpcMessage;
}

/// The calls the client can send to the daemon, one variant per method.
#[derive(Clone, Debug, PartialEq, Eq)]
pub enum OlaServerServiceCall {
    /// Stream DMX data to a universe; fire-and-forget.
    StreamDmxData(DmxData),
    /// Register or unregister for a universe's updates.
    RegisterForDmx(RegisterDmxRequest),
}

/// The mathematical model of an [`OlaServerServiceCall`].
pub ghost enum OlaServerServiceCallView {
    /// Stream DMX data to a universe.
    StreamDmxData(DmxDataView),
    /// Register or unregister for a universe's updates.
    RegisterForDmx(RegisterDmxRequest),
}

impl View for OlaServerServiceCall {
    type V = OlaServerServiceCallView;

    open spec fn view(&self) -> OlaServerServiceCallView {
        match self {
            OlaServerServiceCall::StreamDmxData(d) => OlaServerServiceCallView::StreamDmxData(d@),
            OlaServerServiceCall::RegisterForDmx(r) => OlaServerServiceCallView::RegisterForDmx(
                *r,
            ),
        }
    }
}

impl OlaServerServiceCallView {
    /// A call whose payload fits under the frame size ceiling.
    pub open spec fn wf(self) -> bool {
        match self {
            OlaServerServiceCallView::StreamDmxData(d) => d.wf(),
            OlaServerServiceCallView::RegisterForDmx(_) => true,
        }
    }

    /// The envelope a call encodes to under a given sequence id:
    /// streaming methods go out as a `StreamRequest`, the rest as a
    /// `Request`; the name and the serialized payload come from the
    /// method's table entry.
    pub open spec fn spec_to_message(self, id: u32) -> RpcMessageView {
        match self {
            OlaServerServiceCallView::StreamDmxData(d) => RpcMessageView {
                rpc_type: Type::StreamRequest.spec_code(),
                id: Some(id),
                name: Some(name_stream_dmx_data()),
                buffer: Some(spec_encode_dmx_data(d)),
            },
            OlaServerServiceCallView::RegisterForDmx(r) => RpcMessageView {
                rpc_type: Type::Request.spec_code(),
                id: Some(id),
                name: Some(name_register_for_dmx()),
                buffer: Some(spec_encode_register(r)),
            },
        }
    }
}

/// Matches an envelope against the outbound-call table: a request-like
/// type, a present id, a known name and a present payload give the call
/// back; a payload that does not parse is `Invalid`; any other
/// combination is `Unrecognised`.
pub open spec fn spec_server_call_from_message(m: RpcMessageView) -> Result<
    (u32, OlaServerServiceCallView),
    MessageDecodeErrorKind,
> {
    match (m.id, m.name, m.buffer) {
        (Some(id), Some(name), Some(buf)) => {
            if !request_like(m.rpc_type) {
                Err(MessageDecodeErrorKind::Unrecognised)
            } else if name == name_stream_dmx_data() {
                match parse_dmx_data(buf) {
                    Some(d) => Ok((id, OlaServerServiceCallView::StreamDmxData(d))),
                    None => Err(MessageDecodeErrorKind::Invalid),
                }
            } else if name == name_register_for_dmx() {
                match parse_register(buf) {
                    Some(r) => Ok((id, OlaServerServiceCallView::RegisterForDmx(r))),
                    None => Err(MessageDecodeErrorKind::Invalid),
                }
            } else {
                Err(MessageDecodeErrorKind::Unrecognised)
            }
        },
        _ => Err(MessageDecodeErrorKind::Unrecognised),
    }
}

impl OlaServerServiceCall {
    /// Encode this call as an envelope carrying the given sequence id.
    pub fn to_message(&self, id: u32) -> (r: RpcMessage)
        ensures
            r@ == self@.spec_to_message(id),
    {
        match self {
            OlaServerServiceCall::StreamDmxData(d) => {
                let mut buffer: Vec<u8> = Vec::new();
                encode_dmx_data(d, &mut buffer);
                assert(buffer@ =~= spec_encode_dmx_data(d@));
                RpcMessage {
                    rpc_type: Type::StreamRequest.code(),
                    id: Some(id),
                    name: Some(method_name_stream_dmx_data()),
                    buffer: Some(buffer),
                }
            },
            OlaServerServiceCall::RegisterForDmx(r) => {
                let mut buffer: Vec<u8> = Vec::new();
                encode_register(r, &mut buffer);
                assert(buffer@ =~= spec_encode_register(*r));
                RpcMessage {
                    rpc_type: Type::Request.code(),
                    id: Some(id),
                    name: Some(method_name_register_for_dmx()),
                    buffer: Some(buffer),
                }
            },
        }
    }

    /// Decode an envelope against the outbound-call table.
    pub fn from_message(msg: RpcMessage) -> (r: Result<(u32, Self), MessageDecodeError>)
        ensures
            match spec_server_call_from_message(msg@) {
                Ok(p) => r matches Ok(q) && q.0 == p.0 && q.1@ == p.1,
                Err(k) => r matches Err(e) && e.kind == k,
            },
    {
        let RpcMessage { rpc_type, id, name, buffer } = msg;
        let (id, name, buffer) = match (id, name, buffer) {
            (Some(i), Some(n), Some(b)) => (i, n, b),
            _ => {
                return Err(
                    MessageDecodeError { kind: MessageDecodeErrorKind::Unrecognised },
                );
            },
        };
        if !(rpc_type == Type::Request.code() || rpc_type == Type::StreamRequest.code()) {
            return Err(MessageDecodeError { kind: MessageDecodeErrorKind::Unrecognised });
        }
        let stream_name = method_name_stream_dmx_data();
        let register_name = method_name_register_for_dmx();
        if bytes_equal(name.as_slice(), stream_name.as_slice()) {
            match decode_dmx_data(buffer.as_slice()) {
                Some(d) => Ok((id, OlaServerServiceCall::StreamDmxData(d))),
                None => Err(MessageDecodeError { kind: MessageDecodeErrorKind::Invalid }),
            }
        } else if bytes_equal(name.as_slice(), register_name.as_slice()) {
            match decode_register(buffer.as_slice()) {
                Some(r) => Ok((id, OlaServerServiceCall::RegisterForDmx(r))),
                None => Err(MessageDecodeError { kind: MessageDecodeErrorKind::Invalid }),
            }
        } else {
            Err(MessageDecodeError { kind: MessageDecodeErrorKind::Unrecognised })
        }
    }
}

impl RpcCall for OlaServerServiceCall {
    fn from_message(msg: RpcMessage) -> Result<(u32, Self), MessageDecodeError> {
        OlaServerServiceCall::from_message(msg)
    }

    fn to_message(&self, id: u32) -> RpcMessage {
        OlaServerServiceCall::to_message(self, id)
    }
}

/// The calls the daemon can push to the client, one variant per method.
#[derive(Clone, Debug, PartialEq, Eq)]
pub enum OlaClientServiceCall {
    /// Updated DMX data for a universe the client registered for.
    UpdateDmxData(DmxData),
}

/// The mathematical model of an [`OlaClientServiceCall`].
pub ghost enum OlaClientServiceCallView {
    /// Updated DMX data for a universe.
    UpdateDmxData(DmxDataView),
}

impl View for OlaClientServiceCall {
    type V = OlaClientServiceCallView;

    open spec fn view(&self) -> OlaClientServiceCallView {
        match self {
            OlaClientServiceCall::UpdateDmxData(d) => OlaClientServiceCallView::UpdateDmxData(d@),
        }
    }
}

impl OlaClientServiceCallView {
    /// A call whose payload fits under the frame size ceiling.
    pub open spec fn wf(self) -> bool {
        match self {
            OlaClientServiceCallView::UpdateDmxData(d) => d.wf(),
        }
    }

    /// The envelope a call encodes to under a given sequence id.
    pub open spec fn spec_to_message(self, id: u32) -> RpcMessageView {
        match self {
            OlaClientServiceCallView::UpdateDmxData(d) => RpcMessageView {
                rpc_type: Type::Request.spec_code(),
                id: Some(id),
                name: Some(name_update_dmx_data()),
                buffer: Some(spec_encode_dmx_data(d)),
            },
        }
    }
}

/// Matches an envelope against the inbound-call table; the counterpart
/// of [`spec_server_call_from_message`] for calls the daemon initiates.
pub open spec fn spec_client_call_from_message(m: RpcMessageView) -> Result<
    (u32, OlaClientServiceCallView),
    MessageDecodeErrorKind,
> {
    match (m.id, m.name, m.buffer) {
        (Some(id), Some(name), Some(buf)) => {
            if !request_like(m.rpc_type) {
                Err(MessageDecodeErrorKind::Unrecognised)
            } else if name == name_update_dmx_data() {
                match parse_dmx_data(buf) {
                    Some(d) => Ok((id, OlaClientServiceCallView::UpdateDmxData(d))),
                    None => Err(MessageDecodeErrorKind::Invalid),
                }
            } else {
                Err(MessageDecodeErrorKind::Unrecognised)
            }
        },
        _ => Err(MessageDecodeErrorKind::Unrecognised),
    }
}

impl OlaClientServiceCall {
    /// Encode this call as an envelope carrying the given sequence id.
    pub fn to_message(&self, id: u32) -> (r: RpcMessage)
        ensures
            r@ == self@.spec_to_message(id),
    {
        match self {
            OlaClientServiceCall::UpdateDmxData(d) => {
                let mut buffer: Vec<u8> = Vec::new();
                encode_dmx_data(d, &mut buffer);
                assert(buffer@ =~= spec_encode_dmx_data(d@));
                RpcMessage {
                    rpc_type: Type::Request.code(),
                    id: Some(id),
                    name: Some(method_name_update_dmx_data()),
                    buffer: Some(buffer),
                }
            },
        }
    }

    /// Decode an envelope against the inbound-call table.
    pub fn from_message(msg: RpcMessage) -> (r: Result<(u32, Self), MessageDecodeError>)
        ensures
            match spec_client_call_from_message(msg@) {
                Ok(p) => r matches Ok(q) && q.0 == p.0 && q.1@ == p.1,
                Err(k) => r matches Err(e) && e.kind == k,
            },
    {
        let RpcMessage { rpc_type, id, name, buffer } = msg;
        let (id, name, buffer) = match (id, name, buffer) {
            (Some(i), Some(n), Some(b)) => (i, n, b),
            _ => {
                return Err(
                    MessageDecodeError { kind: MessageDecodeErrorKind::Unrecognised },
                );
            },
        };
        if !(rpc_type == Type::Request.code() || rpc_type == Type::StreamRequest.code()) {
            return Err(MessageDecodeError { kind: MessageDecodeErrorKind::Unrecognised });
        }
        let update_name = method_name_update_dmx_data();
        if bytes_equal(name.as_slice(), update_name.as_slice()) {
            match decode_dmx_data(buffer.as_slice()) {
                Some(d) => Ok((id, OlaClientServiceCall::UpdateDmxData(d))),
                None => Err(MessageDecodeError { kind: MessageDecodeErrorKind::Invalid }),
            }
        } else {
            Err(MessageDecodeError { kind: MessageDecodeErrorKind::Unrecognised })
        }
    }
}

impl RpcCall for OlaClientServiceCall {
    fn from_message(msg: RpcMessage) -> Result<(u32, Self), MessageDecodeError> {
        OlaClientServiceCall::from_message(msg)
    }

    fn to_message(&self, id: u32) -> RpcMessage {
        OlaClientServiceCall::to_message(self, id)
    }
}

/// Outbound call round trip: matching an encoded call's envelope against
/// the outbound-call table gives back the call and its id.
pub proof fn lemma_server_call_round_trip(c: OlaServerServiceCallView, id: u32)
    requires
        c.wf(),
    ensures
        spec_server_call_from_message(c.spec_to_message(id)) == Ok::<
            (u32, OlaServerServiceCallView),
            MessageDecodeErrorKind,
        >((id, c)),
{
    match c {
        OlaServerServiceCallView::StreamDmxData(d) => {
            lemma_dmx_data_round_trip(d);
        },
        OlaServerServiceCallView::RegisterForDmx(r) => {
            assert(name_register_for_dmx().len() == 14);
            assert(name_stream_dmx_data().len() == 13);
            lemma_register_round_trip(r);
        },
    }
}

/// Inbound call round trip: matching an encoded call's envelope against
/// the inbound-call table gives back the call and its id.
pub proof fn lemma_client_call_round_trip(c: OlaClientServiceCallView, id: u32)
    requires
        c.wf(),
    ensures
        spec_client_call_from_message(c.spec_to_message(id)) == Ok::<
            (u32, OlaClientServiceCallView),
            MessageDecodeErrorKind,
        >((id, c)),
{
    match c {
        OlaClientServiceCallView::UpdateDmxData(d) => {
            lemma_dmx_data_round_trip(d);
        },
    }
}

/// Unknown method rejection: an envelope that misses a field of the
/// inbound pattern, carries a type tag that is not request-like, or
/// names any method but the known one, matches no table entry and is
/// `Unrecognised` - never decoded part-way.
pub proof fn lemma_unknown_method_unrecognised(m: RpcMessageView)
    requires
        !(request_like(m.rpc_type) && m.id is Some && m.name is Some && m.buffer is Some
            && m.name == Some(name_update_dmx_data())),
    ensures
        spec_client_call_from_message(m) == Err::<
            (u32, OlaClientServiceCallView),
            MessageDecodeErrorKind,
        >(MessageDecodeErrorKind::Unrecognised),
{
}

/// An encoded DMX data payload is at most 33 bytes longer than the
/// channel data it carries.
pub proof fn lemma_dmx_data_enc_len(d: DmxDataView)
    ensures
        spec_encode_dmx_data(d).len() <= 33 + d.data.len(),
{
    lemma_varint_enc_len(d.universe as u64);
    lemma_varint_enc_len(d.data.len() as u64);
    match d.priority {
        Some(p) => {
            lemma_varint_enc_len(p as u64);
        },
        None => {},
    }
}

/// An encoded registration payload is at most 22 bytes long.
pub proof fn lemma_register_enc_len(r: RegisterDmxRequest)
    ensures
        spec_encode_register(r).len() <= 22,
{
    lemma_varint_enc_len(r.universe as u64);
    lemma_varint_enc_len(r.action as u64);
}

/// Envelope round trip for outbound calls: the envelope an outbound
/// call encodes to, serialized and parsed back, matches the
/// outbound-call table and gives back the call and its id.
pub proof fn lemma_outbound_round_trip(c: OlaServerServiceCallView, id: u32)
    requires
        c.wf(),
    ensures
        rpc::parse_envelope(spec_encode_envelope(c.spec_to_message(id))) == Some(
            c.spec_to_message(id),
        ),
        spec_server_call_from_message(c.spec_to_message(id)) == Ok::<
            (u32, OlaServerServiceCallView),
            MessageDecodeErrorKind,
        >((id, c)),
{
    match c {
        OlaServerServiceCallView::StreamDmxData(d) => {
            lemma_dmx_data_enc_len(d);
        },
        OlaServerServiceCallView::RegisterForDmx(r) => {
            lemma_register_enc_len(r);
        },
    }
    rpc::lemma_envelope_round_trip(c.spec_to_message(id));
    lemma_server_call_round_trip(c, id);
}

/// The envelope of a well-formed outbound call fits under the frame
/// header's 28-bit size ceiling.
pub proof fn lemma_server_call_envelope_len(c: OlaServerServiceCallView, id: u32)
    requires
        c.wf(),
    ensures
        spec_encode_envelope(c.spec_to_message(id)).len() < 0x1000_0000,
{
    rpc::lemma_envelope_enc_len(c.spec_to_message(id));
    match c {
        OlaServerServiceCallView::StreamDmxData(d) => {
            lemma_dmx_data_enc_len(d);
        },
        OlaServerServiceCallView::RegisterForDmx(r) => {
            lemma_register_enc_len(r);
        },
    }
}

} // verus!
