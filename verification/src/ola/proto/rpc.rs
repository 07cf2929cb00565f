//! The generic wire envelope every call is wrapped in before framing.
//!
//! An envelope carries a message type tag, an optional sequence id, an
//! optional method name and an optional payload, as four numbered fields:
//! the type as field 1 (varint), the id as field 2 (varint), the name as
//! field 3 (length-delimited) and the payload as field 4
//! (length-delimited). An encoded envelope lists the present fields in
//! that order; a decoder accepts exactly that shape.

use vstd::prelude::*;

use crate::wire::{
    enc_bytes_field, enc_varint_field, lemma_parse_bytes_field, lemma_parse_opt_field_absent,
    lemma_parse_varint_field, parse_opt_bytes_field, parse_opt_varint_field,
    parse_req_varint_field, read_opt_bytes_field, read_opt_varint_field, read_req_varint_field,
    write_bytes_field, write_varint_field,
};

verus! {

/// RPC message types, with the tag values the daemon's protocol uses:
/// 1 for a request, 2 for a response, 10 for a fire-and-forget streaming
/// request.
#[derive(Clone, Copy, Debug, PartialEq, Eq, Structural)]
pub enum Type {
    /// A call that expects a response.
    Request,
    /// The answer to a request, correlated by id.
    Response,
    /// A streaming call that expects no response.
    StreamRequest,
}

impl Type {
    /// The wire tag of this message type.
    pub open spec fn spec_code(self) -> i32 {
        match self {
            Type::Request => 1,
            Type::Response => 2,
            Type::StreamRequest => 10,
        }
    }

    /// The wire tag of this message type.
    pub fn code(self) -> (r: i32)
        ensures
            r == self.spec_code(),
    {
        match self {
            Type::Request => 1,
            Type::Response => 2,
            Type::StreamRequest => 10,
        }
    }
}

/// A generic RPC message: the wire envelope.
///
/// The method name and the payload are byte strings as they stand on the
/// wire; the tables in [`crate::ola::proto`] give them meaning.
#[derive(Clone, Debug, PartialEq, Eq)]
pub struct RpcMessage {
    /// The message type tag, as found on the wire.
    pub rpc_type: i32,
    /// The sequence id correlating a request with its response.
    pub id: Option<u32>,
    /// The method name.
    pub name: Option<Vec<u8>>,
    /// The serialized method payload.
    pub buffer: Option<Vec<u8>>,
}

/// The mathematical model of an [`RpcMessage`].
pub ghost struct RpcMessageView {
    /// The message type tag.
    pub rpc_type: i32,
    /// The sequence id.
    pub id: Option<u32>,
    /// The method name bytes.
    pub name: Option<Seq<u8>>,
    /// The serialized method payload bytes.
    pub buffer: Option<Seq<u8>>,
}

impl View for RpcMessage {
    type V = RpcMessageView;

    open spec fn view(&self) -> RpcMessageView {
        RpcMessageView {
            rpc_type: self.rpc_type,
            id: self.id,
            name: match self.name {
                Some(n) => Some(n@),
                None => None,
            },
            buffer: match self.buffer {
                Some(b) => Some(b@),
                None => None,
            },
        }
    }
}

impl RpcMessageView {
    /// An envelope whose optional byte fields fit on the wire.
    pub open spec fn wf(self) -> bool {
        &&& (self.name matches Some(n) ==> n.len() <= u64::MAX)
        &&& (self.buffer matches Some(b) ==> b.len() <= u64::MAX)
    }
}

/// The wire form of an envelope: the present fields, in tag order.
pub open spec fn spec_encode_envelope(m: RpcMessageView) -> Seq<u8> {
    enc_varint_field(8, m.rpc_type as u64) + (match m.id {
        Some(id) => enc_varint_field(16, id as u64),
        None => Seq::empty(),
    }) + (match m.name {
        Some(n) => enc_bytes_field(26, n),
        None => Seq::empty(),
    }) + (match m.buffer {
        Some(b) => enc_bytes_field(34, b),
        None => Seq::empty(),
    })
}

/// Parses a byte sequence as an envelope: the type field must be there,
/// the three optional fields may follow in tag order, and nothing may be
/// left over.
pub open spec fn parse_envelope(s: Seq<u8>) -> Option<RpcMessageView> {
    match parse_req_varint_field(s, 8) {
        None => None,
        Some((tv, s1)) => match parse_opt_varint_field(s1, 16) {
            None => None,
            Some((idv, s2)) => match parse_opt_bytes_field(s2, 26) {
                None => None,
                Some((namev, s3)) => match parse_opt_bytes_field(s3, 34) {
                    None => None,
                    Some((bufv, s4)) => if s4.len() == 0 {
                        Some(
                            RpcMessageView {
                                rpc_type: tv as i32,
                                id: match idv {
                                    Some(v) => Some(v as u32),
                                    None => None,
                                },
                                name: namev,
                                buffer: bufv,
                            },
                        )
                    } else {
                        None
                    },
                },
            },
        },
    }
}

/// Appends the wire form of `m` to `out`.
pub fn encode_envelope(m: &RpcMessage, out: &mut Vec<u8>)
    ensures
        final(out)@ == old(out)@ + spec_encode_envelope(m@),
{
    write_varint_field(8, m.rpc_type as u64, out);
    match &m.id {
        Some(id) => write_varint_field(16, *id as u64, out),
        None => {},
    }
    match &m.name {
        Some(n) => write_bytes_field(26, n.as_slice(), out),
        None => {},
    }
    match &m.buffer {
        Some(b) => write_bytes_field(34, b.as_slice(), out),
        None => {},
    }
    assert(final(out)@ =~= old(out)@ + spec_encode_envelope(m@));
}

/// Decodes a byte slice as an envelope; `None` when the bytes are not a
/// well-formed envelope.
pub fn decode_envelope(buf: &[u8]) -> (r: Option<RpcMessage>)
    ensures
        match parse_envelope(buf@) {
            Some(mv) => r matches Some(m) && m@ == mv,
            None => r is None,
        },
{
    proof {
        assert(buf@.skip(0) =~= buf@);
    }
    let step1 = read_req_varint_field(buf, 0, 8);
    let (tv, pos1) = match step1 {
        Some(p) => p,
        None => { return None; },
    };
    let step2 = read_opt_varint_field(buf, pos1, 16);
    let (idv, pos2) = match step2 {
        Some(p) => p,
        None => { return None; },
    };
    let step3 = read_opt_bytes_field(buf, pos2, 26);
    let (namev, pos3) = match step3 {
        Some(p) => p,
        None => { return None; },
    };
    let step4 = read_opt_bytes_field(buf, pos3, 34);
    let (bufv, pos4) = match step4 {
        Some(p) => p,
        None => { return None; },
    };
    if pos4 != buf.len() {
        return None;
    }
    let id: Option<u32> = match idv {
        Some(v) => Some(#[verifier::truncate] (v as u32)),
        None => None,
    };
    Some(
        RpcMessage {
            rpc_type: #[verifier::truncate] (tv as i32),
            id,
            name: namev,
            buffer: bufv,
        },
    )
}

/// Envelope round trip: decoding an encoded well-formed envelope gives
/// back exactly its fields.
pub proof fn lemma_envelope_round_trip(m: RpcMessageView)
    requires
        m.wf(),
    ensures
        parse_envelope(spec_encode_envelope(m)) == Some(m),
{
    let f2: Seq<u8> = match m.id {
        Some(id) => enc_varint_field(16, id as u64),
        None => Seq::empty(),
    };
    let f3: Seq<u8> = match m.name {
        Some(n) => enc_bytes_field(26, n),
        None => Seq::empty(),
    };
    let f4: Seq<u8> = match m.buffer {
        Some(b) => enc_bytes_field(34, b),
        None => Seq::empty(),
    };
    let tail3 = f3 + f4;
    let tail2 = f2 + tail3;
    let s = spec_encode_envelope(m);
    assert(s =~= enc_varint_field(8, m.rpc_type as u64) + tail2);
    lemma_parse_varint_field(8, m.rpc_type as u64, tail2);
    assert(parse_req_varint_field(s, 8) == Some((m.rpc_type as u64, tail2)));
    let t = m.rpc_type;
    assert((t as u64) as i32 == t) by (bit_vector);

    match m.id {
        Some(id) => {
            assert(tail2 =~= enc_varint_field(16, id as u64) + tail3);
            lemma_parse_varint_field(16, id as u64, tail3);
            assert((id as u64) as u32 == id) by (bit_vector);
        },
        None => {
            assert(tail2 == tail3);
            field_start_not_key(f3, f4, 26, 34, 16);
            lemma_parse_opt_field_absent(tail2, 16);
        },
    }
    assert(parse_opt_varint_field(tail2, 16) matches Some(p) && p.1 == tail3 && p.0 == (match m.id {
        Some(id) => Some(id as u64),
        None => None,
    }));

    match m.name {
        Some(n) => {
            assert(tail3 =~= enc_bytes_field(26, n) + f4);
            lemma_parse_bytes_field(26, n, f4);
        },
        None => {
            assert(tail3 == f4);
            field_start_not_key(f4, Seq::empty(), 34, 34, 26);
            assert(f4 + Seq::<u8>::empty() =~= f4);
            lemma_parse_opt_field_absent(tail3, 26);
        },
    }
    assert(parse_opt_bytes_field(tail3, 26) matches Some(p) && p.1 == f4 && p.0 == m.name);

    match m.buffer {
        Some(b) => {
            assert(f4 =~= enc_bytes_field(34, b) + Seq::<u8>::empty());
            lemma_parse_bytes_field(34, b, Seq::empty());
        },
        None => {
            lemma_parse_opt_field_absent(f4, 34);
        },
    }
    assert(parse_opt_bytes_field(f4, 34) matches Some(p) && p.1.len() == 0 && p.0 == m.buffer);
}

/// An encoded envelope is at most 44 bytes longer than the name and
/// payload it carries.
pub proof fn lemma_envelope_enc_len(m: RpcMessageView)
    ensures
        spec_encode_envelope(m).len() <= 44 + (match m.name {
            Some(n) => n.len(),
            None => 0,
        }) + (match m.buffer {
            Some(b) => b.len(),
            None => 0,
        }),
{
    crate::wire::lemma_varint_enc_len(m.rpc_type as u64);
    match m.id {
        Some(id) => {
            crate::wire::lemma_varint_enc_len(id as u64);
        },
        None => {},
    }
    match m.name {
        Some(n) => {
            crate::wire::lemma_varint_enc_len(n.len() as u64);
        },
        None => {},
    }
    match m.buffer {
        Some(b) => {
            crate::wire::lemma_varint_enc_len(b.len() as u64);
        },
        None => {},
    }
}

/// Two encoded optional fields in a row start with the first present
/// field's key, or are empty; neither key being `other`, the
/// concatenation never starts with `other`.
proof fn field_start_not_key(a: Seq<u8>, b: Seq<u8>, key_a: u8, key_b: u8, other: u8)
    requires
        a.len() == 0 || a[0] == key_a,
        b.len() == 0 || b[0] == key_b,
        key_a != other,
        key_b != other,
    ensures
        (a + b).len() == 0 || (a + b)[0] != other,
{
    if a.len() > 0 {
        assert((a + b)[0] == a[0]);
    } else if b.len() > 0 {
        assert((a + b)[0] == b[0]);
    }
}

} // verus!
