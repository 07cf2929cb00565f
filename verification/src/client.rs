//! The streaming client and the bidirectional dispatcher.
//!
//! A client couples one session's [`RpcContext`] with one byte stream.
//! Sending composes a whole frame in memory and hands it to the stream
//! in one piece, so a call either fully encodes and is written, or fails
//! before any byte leaves. The dispatcher consumes decoded frame
//! payloads from the peer and answers calls that require an
//! acknowledgement before surfacing them.

use vstd::prelude::*;

use crate::buffer::{DmxBuffer, TryFromBufferError};
use crate::bytesmut::{bytes_mut_as_slice, bytes_mut_new, bytes_view};
use crate::ola::proto::rpc::{RpcMessage, Type};
use crate::ola::proto::{
    ack_message, method_name_ack, Ack, DmxData, OlaClientServiceCall, OlaClientServiceCallView,
    OlaServerServiceCall,
};
use crate::ola::{
    seq_successor, spec_decode, spec_frame, MessageDecodeError, MessageEncodeError, RpcContext,
};
use crate::OLA_DEFAULT_PORT;
use bytes::BytesMut;

verus! {

/// The error type returned when an RPC call fails.
#[derive(Debug)]
pub struct CallError {
    /// What made the call fail.
    pub kind: CallErrorKind,
}

impl CallError {
    /// A short description of the failure.
    pub fn message(&self) -> &'static str {
        "failed to call RPC function"
    }
}

/// The ways an RPC call to the daemon can fail.
#[derive(Debug)]
pub enum CallErrorKind {
    /// Failure encoding an RPC message.
    Encode(MessageEncodeError),
    /// Failure decoding an RPC message.
    Decode(MessageDecodeError),
    /// RPC message contained an invalid DMX buffer.
    InvalidBuffer(TryFromBufferError),
    /// Failure writing an RPC message to the underlying stream.
    Write(std::io::Error),
}

/// Configuration for connecting a streaming client.
#[derive(Clone, Debug)]
pub struct StreamingClientConfig {
    /// Whether to auto-start the daemon if a connection cannot be made.
    pub auto_start: bool,
    /// The port the daemon's RPC endpoint listens on.
    pub server_port: u16,
}

impl Default for StreamingClientConfig {
    /// Auto-start enabled, on the default port.
    fn default() -> (r: Self)
        ensures
            r.auto_start == true,
            r.server_port == 9010,
    {
        StreamingClientConfig { auto_start: true, server_port: OLA_DEFAULT_PORT }
    }
}

impl StreamingClientConfig {
    /// Create a new `StreamingClientConfig`.
    pub fn new() -> (r: Self)
        ensures
            r.auto_start == true,
            r.server_port == 9010,
    {
        StreamingClientConfig { auto_start: true, server_port: OLA_DEFAULT_PORT }
    }
}

/// A sink for whole outbound frames. The transport behind a client
/// implements this: a frame handed over is written to the peer in one
/// piece, or fails without the library retrying.
pub trait FrameSink {
    /// Write one whole frame to the peer.
    fn write_frame(&mut self, frame: &[u8]) -> Result<(), std::io::Error>;
}

/// A client that streams DMX data over a byte stream, with the session
/// context that numbers its outbound calls.
#[derive(Debug)]
pub struct StreamingClient<S> {
    stream: S,
    ctx: RpcContext,
}

impl<S> StreamingClient<S> {
    /// The sequence number the next outbound call will carry.
    pub closed spec fn sequence(self) -> u32 {
        self.ctx.sequence()
    }

    /// Gets a reference to the underlying stream.
    pub fn get_ref(&self) -> &S {
        &self.stream
    }

    /// Gets a mutable reference to the underlying stream.
    pub fn get_mut(&mut self) -> (r: &mut S)
        ensures
            final(self).sequence() == old(self).sequence(),
    {
        &mut self.stream
    }

    /// Construct a new streaming client from a stream. The client is
    /// initialized with a fresh context, so its first call carries
    /// sequence number 0.
    pub fn from_stream(stream: S) -> (r: Self)
        ensures
            r.sequence() == 0,
    {
        StreamingClient { stream, ctx: RpcContext::new() }
    }
}

impl<S: FrameSink> StreamingClient<S> {
    /// Send a DMX buffer to a universe, at the default priority of 100.
    ///
    /// One sequence number is consumed whether or not the write goes
    /// through; a failure to write surfaces as a `Write` error.
    pub fn send_dmx(&mut self, universe: u32, data: &DmxBuffer) -> (r: Result<(), CallError>)
        ensures
            final(self).sequence() == seq_successor(old(self).sequence()),
            r matches Err(e) ==> e.kind is Write,
    {
        self.send_dmx_with_priority(universe, data, 100)
    }

    /// Send a DMX buffer to a universe with a priority value.
    ///
    /// The call is encoded as a whole frame in memory first - under the
    /// sequence number the context hands out - and only then written, so
    /// nothing partial ever reaches the stream. One sequence number is
    /// consumed whether or not the write goes through.
    pub fn send_dmx_with_priority(&mut self, universe: u32, data: &DmxBuffer, priority: u8) -> (r:
        Result<(), CallError>)
        ensures
            final(self).sequence() == seq_successor(old(self).sequence()),
            r matches Err(e) ==> e.kind is Write,
    {
        let request = OlaServerServiceCall::StreamDmxData(
            DmxData {
                universe: #[verifier::truncate] (universe as i32),
                data: data.to_vec(),
                priority: Some(priority as i32),
            },
        );
        let mut buf = bytes_mut_new();
        match self.ctx.encode(request, &mut buf) {
            Ok(()) => {},
            Err(e) => {
                return Err(CallError { kind: CallErrorKind::Encode(e) });
            },
        }
        match self.stream.write_frame(bytes_mut_as_slice(&buf)) {
            Ok(()) => Ok(()),
            Err(e) => Err(CallError { kind: CallErrorKind::Write(e) }),
        }
    }

    /// Register for a universe's updates, so the peer starts pushing
    /// its DMX data to this client.
    pub fn register_universe(&mut self, universe: u32) -> (r: Result<(), CallError>)
        ensures
            final(self).sequence() == seq_successor(old(self).sequence()),
            r matches Err(e) ==> e.kind is Write,
    {
        let request = OlaServerServiceCall::RegisterForDmx(
            crate::ola::proto::RegisterDmxRequest {
                universe: #[verifier::truncate] (universe as i32),
                action: crate::ola::proto::RegisterAction::Register.code(),
            },
        );
        let mut buf = bytes_mut_new();
        match self.ctx.encode(request, &mut buf) {
            Ok(()) => {},
            Err(e) => {
                return Err(CallError { kind: CallErrorKind::Encode(e) });
            },
        }
        match self.stream.write_frame(bytes_mut_as_slice(&buf)) {
            Ok(()) => Ok(()),
            Err(e) => Err(CallError { kind: CallErrorKind::Write(e) }),
        }
    }
}

/// Consume one frame payload from the peer: decode it against the
/// inbound-call table, append the acknowledgement frame the protocol
/// requires to `response`, and surface the decoded call.
///
/// Exactly one acknowledgement - a `Response` envelope reusing the
/// inbound id, named `Ack`, with the empty payload - is appended before
/// the call is returned, also when the carried universe data has the
/// wrong shape; the caller writes `response` to the peer. Like every
/// outbound encode, the acknowledgement advances the sequence counter,
/// though it carries the inbound id.
pub fn dispatch_frame(ctx: &mut RpcContext, payload: &[u8], response: &mut BytesMut) -> (r: Result<
    (i32, DmxBuffer),
    CallError,
>)
    ensures
        match spec_decode(payload@) {
            Err(k) => {
                &&& r matches Err(e) && e.kind matches CallErrorKind::Decode(de) && de.kind == k
                &&& bytes_view(*final(response)) == bytes_view(*old(response))
                &&& *final(ctx) == *old(ctx)
            },
            Ok(p) => {
                &&& final(ctx).sequence() == seq_successor(old(ctx).sequence())
                &&& bytes_view(*final(response)) == bytes_view(*old(response)) + spec_frame(
                    ack_message(p.0),
                )
                &&& match p.1 {
                    OlaClientServiceCallView::UpdateDmxData(d) => {
                        if d.data.len() == 512 {
                            r matches Ok(q) && q.0 == d.universe && q.1@ == d.data
                        } else {
                            r matches Err(e) && e.kind matches CallErrorKind::InvalidBuffer(_)
                        }
                    },
                }
            },
        },
{
    let (id, call) = match RpcContext::decode(payload) {
        Ok(p) => p,
        Err(e) => {
            return Err(CallError { kind: CallErrorKind::Decode(e) });
        },
    };
    let ack = RpcMessage {
        rpc_type: Type::Response.code(),
        id: Some(id),
        name: Some(method_name_ack()),
        buffer: Some(Ack {}.encode_to_vec()),
    };
    proof {
        crate::ola::proto::rpc::lemma_envelope_enc_len(ack@);
    }
    match ctx.encode_message(ack, response) {
        Ok(()) => {},
        Err(e) => {
            return Err(CallError { kind: CallErrorKind::Encode(e) });
        },
    }
    match call {
        OlaClientServiceCall::UpdateDmxData(d) => {
            let DmxData { universe, data, priority: _ } = d;
            match DmxBuffer::try_from_vec(data) {
                Ok(buffer) => Ok((universe, buffer)),
                Err(e) => Err(CallError { kind: CallErrorKind::InvalidBuffer(e) }),
            }
        },
    }
}

} // verus!
