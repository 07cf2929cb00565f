//! Frame header codec and the per-session RPC context.
//!
//! Every frame on the wire is a 4-byte header followed by a serialized
//! message envelope. The header packs the protocol version into its upper
//! 4 bits and the payload size into its lower 28 bits, and is written in
//! the *host's* byte order: the peer daemon decodes the header with the
//! native order of the machine it runs on, so a fixed endianness would
//! break wire compatibility.

pub mod proto;

use vstd::prelude::*;

use crate::bytesmut::{bytes_mut_put_slice, bytes_view};
use crate::{PROTOCOL_VERSION, SIZE_MASK, VERSION_MASK};
use bytes::BytesMut;
use proto::rpc::{
    decode_envelope, encode_envelope, parse_envelope, spec_encode_envelope, RpcMessage,
    RpcMessageView,
};
use proto::{
    lemma_server_call_envelope_len, spec_client_call_from_message, OlaClientServiceCall,
    OlaClientServiceCallView, OlaServerServiceCall,
};

verus! {

/// The 4 bytes that `u32::to_ne_bytes` produces for a word. For any one
/// build target the result is a function of the word alone; which
/// permutation it is depends on the target's byte order, so it is left
/// uninterpreted.
pub uninterp spec fn host_word_bytes(w: u32) -> Seq<u8>;

/// Relies on `u32::to_ne_bytes`: the word's 4 bytes in the host's byte
/// order.
#[verifier::external_body]
fn word_to_host_bytes(w: u32) -> (r: [u8; 4])
    ensures
        r@ == host_word_bytes(w),
{
    w.to_ne_bytes()
}

/// Relies on `u32::from_ne_bytes`, the documented inverse of
/// `u32::to_ne_bytes`: it returns the one word whose host-order bytes are
/// the input.
#[verifier::external_body]
fn word_from_host_bytes(b: [u8; 4]) -> (r: u32)
    ensures
        host_word_bytes(r) == b@,
        forall|w: u32| host_word_bytes(w) == b@ ==> w == r,
{
    u32::from_ne_bytes(b)
}

/// The header word: the payload size masked to its lower 28 bits, with the
/// protocol version packed into the upper 4 bits.
pub open spec fn header_word(version: u32, size: u32) -> u32 {
    (size & SIZE_MASK) | ((version << 28) & VERSION_MASK)
}

/// The protocol version a header word declares.
pub open spec fn word_version(w: u32) -> u32 {
    w >> 28
}

/// The payload size a header word declares.
pub open spec fn word_size(w: u32) -> u32 {
    w & SIZE_MASK
}

/// Encode an RPC message header.
///
/// The size is masked to 28 bits, never range-checked: a caller must not
/// pass a payload size of 2^28 or more.
pub fn encode_header(version: u32, size: usize) -> (r: [u8; 4])
    ensures
        r@ == host_word_bytes(header_word(version, size as u32)),
{
    let size_word: u32 = #[verifier::truncate] (size as u32);
    let word: u32 = (size_word & SIZE_MASK) | ((version << 28) & VERSION_MASK);
    word_to_host_bytes(word)
}

/// Decode an RPC message header into its protocol version and payload
/// size.
///
/// The version is handed back as found; a mismatched protocol version is
/// left to the caller to judge.
pub fn decode_header(header: [u8; 4]) -> (r: (u32, usize))
    ensures
        exists|w: u32|
            host_word_bytes(w) == header@ && r.0 == word_version(w) && r.1 == word_size(w),
        forall|w: u32|
            host_word_bytes(w) == header@ ==> r.0 == word_version(w) && r.1 == word_size(w),
        r.1 < 0x1000_0000,
{
    let word = word_from_host_bytes(header);
    let version = word >> 28;
    let size_word = word & SIZE_MASK;
    proof {
        assert(size_word < 0x1000_0000) by (bit_vector)
            requires
                size_word == word & 0x0fff_ffff,
        ;
    }
    (version, size_word as usize)
}

/// The error type returned when encoding an API message fails.
#[derive(Clone, Copy, Debug, PartialEq, Eq, Structural)]
#[non_exhaustive]
pub struct MessageEncodeError {
    /// What made the encode fail.
    pub kind: MessageEncodeErrorKind,
}

impl MessageEncodeError {
    /// A short description of the failure.
    pub fn message(&self) -> &'static str {
        "failed to encode API message"
    }
}

/// The ways encoding a message can fail.
#[derive(Clone, Copy, Debug, PartialEq, Eq, Structural)]
pub enum MessageEncodeErrorKind {
    /// Destination buffer has insufficient capacity.
    Capacity,
}

/// The error type returned when decoding an API message fails.
#[derive(Clone, Copy, Debug, PartialEq, Eq, Structural)]
#[non_exhaustive]
pub struct MessageDecodeError {
    /// What made the decode fail.
    pub kind: MessageDecodeErrorKind,
}

impl MessageDecodeError {
    /// A short description of the failure.
    pub fn message(&self) -> &'static str {
        "failed to decode API message"
    }
}

/// The ways decoding a message can fail.
#[derive(Clone, Copy, Debug, PartialEq, Eq, Structural)]
pub enum MessageDecodeErrorKind {
    /// Input buffer does not contain a valid message.
    Invalid,
    /// Received message was of an unknown method or type.
    Unrecognised,
}

/// The successor of a sequence number: one more, wrapping at the top of
/// the 32-bit range as native unsigned overflow would.
pub open spec fn seq_successor(s: u32) -> u32 {
    if s == u32::MAX {
        0
    } else {
        (s + 1) as u32
    }
}

/// A whole outbound frame: the host-order header declaring the envelope's
/// size under the current protocol version, then the envelope itself.
pub open spec fn spec_frame(m: RpcMessageView) -> Seq<u8> {
    host_word_bytes(header_word(PROTOCOL_VERSION, spec_encode_envelope(m).len() as u32))
        + spec_encode_envelope(m)
}

/// What decoding a frame payload gives: the bytes must parse as an
/// envelope, and the envelope must match the inbound-call table.
pub open spec fn spec_decode(s: Seq<u8>) -> Result<
    (u32, OlaClientServiceCallView),
    MessageDecodeErrorKind,
> {
    match parse_envelope(s) {
        None => Err(MessageDecodeErrorKind::Invalid),
        Some(mv) => spec_client_call_from_message(mv),
    }
}

/// Context for encoding and decoding RPC messages in a session.
///
/// A context owns the session's sequence-number space: one context per
/// connection, never shared, discarded with it.
#[derive(Clone, Debug)]
pub struct RpcContext {
    sequence_number: u32,
}

impl Default for RpcContext {
    /// A fresh context; its first sequence number is 0.
    fn default() -> (r: Self)
        ensures
            r.sequence() == 0,
    {
        RpcContext { sequence_number: 0 }
    }
}

impl RpcContext {
    /// The sequence number the next outbound encode will carry.
    pub closed spec fn sequence(self) -> u32 {
        self.sequence_number
    }

    /// Build a context for a new session.
    pub fn new() -> (r: Self)
        ensures
            r.sequence() == 0,
    {
        RpcContext { sequence_number: 0 }
    }

    /// Hand out the current sequence number and advance the counter:
    /// the first call gives 0, and each later call gives one more than
    /// the call before it, wrapping only at the top of the 32-bit range.
    pub fn next_sequence(&mut self) -> (r: u32)
        ensures
            r == old(self).sequence(),
            final(self).sequence() == seq_successor(old(self).sequence()),
    {
        let number = self.sequence_number;
        self.sequence_number = self.sequence_number.wrapping_add(1);
        number
    }

    /// Encode an RPC call as a new message: the call is wrapped in an
    /// envelope carrying the current sequence number, framed under a
    /// header declaring the envelope's size, and appended to `dst`. The
    /// counter advances by one, as it does for every outbound encode.
    ///
    /// With a growable destination the encode itself cannot fail; the
    /// `Result` is the shape every encode path shares.
    pub fn encode(&mut self, item: OlaServerServiceCall, dst: &mut BytesMut) -> (r: Result<
        (),
        MessageEncodeError,
    >)
        requires
            item@.wf(),
        ensures
            r is Ok,
            final(self).sequence() == seq_successor(old(self).sequence()),
            bytes_view(*final(dst)) == bytes_view(*old(dst)) + spec_frame(
                item@.spec_to_message(old(self).sequence()),
            ),
    {
        proof {
            lemma_server_call_envelope_len(item@, self.sequence_number);
        }
        let message = item.to_message(self.sequence_number);
        self.encode_message(message, dst)
    }

    /// Encode an RPC message: the envelope is serialized, a header
    /// declaring its size is put in front, and both are appended to
    /// `dst`. Every outbound encode - the auto-generated
    /// acknowledgements included - advances the counter by one, whatever
    /// id the message itself carries; a sequence number is never reused.
    pub fn encode_message(&mut self, message: RpcMessage, dst: &mut BytesMut) -> (r: Result<
        (),
        MessageEncodeError,
    >)
        requires
            spec_encode_envelope(message@).len() < 0x1000_0000,
        ensures
            r is Ok,
            final(self).sequence() == seq_successor(old(self).sequence()),
            bytes_view(*final(dst)) == bytes_view(*old(dst)) + spec_frame(message@),
    {
        self.next_sequence();
        let mut envelope: Vec<u8> = Vec::new();
        encode_envelope(&message, &mut envelope);
        assert(envelope@ =~= spec_encode_envelope(message@));
        let header = encode_header(PROTOCOL_VERSION, envelope.len());
        bytes_mut_put_slice(dst, header.as_slice());
        bytes_mut_put_slice(dst, envelope.as_slice());
        assert(bytes_view(*dst) =~= bytes_view(*old(dst)) + spec_frame(message@));
        Ok(())
    }

    /// Decode a buffer containing a message envelope as an inbound RPC
    /// call: `Invalid` when the bytes are not a well-formed envelope or
    /// its payload does not parse, `Unrecognised` when the envelope
    /// matches no entry of the inbound-call table.
    pub fn decode(buf: &[u8]) -> (r: Result<(u32, OlaClientServiceCall), MessageDecodeError>)
        ensures
            match spec_decode(buf@) {
                Ok(p) => r matches Ok(q) && q.0 == p.0 && q.1@ == p.1,
                Err(k) => r matches Err(e) && e.kind == k,
            },
    {
        match decode_envelope(buf) {
            None => Err(MessageDecodeError { kind: MessageDecodeErrorKind::Invalid }),
            Some(message) => OlaClientServiceCall::from_message(message),
        }
    }
}

/// Envelope round trip for inbound calls: decoding the serialized
/// envelope of an inbound call gives back exactly the call and its id.
pub proof fn lemma_inbound_round_trip(c: OlaClientServiceCallView, id: u32)
    requires
        c.wf(),
    ensures
        spec_decode(spec_encode_envelope(c.spec_to_message(id))) == Ok::<
            (u32, OlaClientServiceCallView),
            MessageDecodeErrorKind,
        >((id, c)),
{
    match c {
        OlaClientServiceCallView::UpdateDmxData(d) => {
            proto::lemma_dmx_data_enc_len(d);
        },
    }
    proto::rpc::lemma_envelope_round_trip(c.spec_to_message(id));
    proto::lemma_client_call_round_trip(c, id);
}

/// Header round trip: packing a version of at most 4 bits and a size of at
/// most 28 bits into a header word loses neither; decoding the word gives
/// both back exactly.
pub proof fn lemma_header_round_trip(version: u32, size: u32)
    requires
        version < 16,
        size < 0x1000_0000,
    ensures
        word_version(header_word(version, size)) == version,
        word_size(header_word(version, size)) == size,
{
    assert(((size & 0x0fff_ffff) | ((version << 28) & 0xf000_0000)) >> 28 == version)
        by (bit_vector)
        requires
            version < 16,
            size < 0x1000_0000,
    ;
    assert((((size & 0x0fff_ffff) | ((version << 28) & 0xf000_0000)) & 0x0fff_ffff) == size)
        by (bit_vector)
        requires
            version < 16,
            size < 0x1000_0000,
    ;
}

} // verus!
