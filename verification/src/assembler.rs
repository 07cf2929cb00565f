//! The streaming frame assembler.
//!
//! Raw bytes arrive from the transport in chunks cut at arbitrary
//! boundaries. The assembler accumulates them and hands out complete
//! frames in arrival order: a frame is ready once 4 header bytes and the
//! payload size they declare are buffered; until then the assembler
//! simply waits for more input. Consumed bytes are never retained.

use vstd::prelude::*;

use crate::ola::{decode_header, host_word_bytes, word_size};

verus! {

/// The header word at the front of `s`: the one word whose host-order
/// bytes are the first 4 bytes.
pub open spec fn header_of(s: Seq<u8>) -> u32
    recommends
        s.len() >= 4,
{
    choose|w: u32| host_word_bytes(w) == s.subrange(0, 4)
}

/// The payload size the buffered header declares.
pub open spec fn declared_size(s: Seq<u8>) -> int
    recommends
        s.len() >= 4,
{
    word_size(header_of(s)) as int
}

/// Whether a complete frame sits at the front of `s`: the 4 header bytes
/// and as many payload bytes as they declare.
pub open spec fn frame_ready(s: Seq<u8>) -> bool {
    s.len() >= 4 && s.len() >= 4 + declared_size(s)
}

/// The payload of the first complete frame in `s`.
pub open spec fn first_frame(s: Seq<u8>) -> Seq<u8>
    recommends
        frame_ready(s),
{
    s.subrange(4, 4 + declared_size(s))
}

/// What is left of `s` after the first complete frame.
pub open spec fn rest_after_frame(s: Seq<u8>) -> Seq<u8>
    recommends
        frame_ready(s),
{
    s.skip(4 + declared_size(s))
}

/// All complete frame payloads at the front of `s`, in order.
pub open spec fn frames_of(s: Seq<u8>) -> Seq<Seq<u8>>
    decreases s.len(),
{
    if frame_ready(s) {
        seq![first_frame(s)] + frames_of(rest_after_frame(s))
    } else {
        Seq::empty()
    }
}

/// What remains of `s` after every complete frame at its front: an
/// incomplete header or an incomplete payload.
pub open spec fn leftover_of(s: Seq<u8>) -> Seq<u8>
    decreases s.len(),
{
    if frame_ready(s) {
        leftover_of(rest_after_frame(s))
    } else {
        s
    }
}

/// Accumulates transport bytes and yields complete frames in arrival
/// order, whatever the chunk boundaries were.
#[derive(Debug)]
pub struct FrameAssembler {
    buf: Vec<u8>,
}

impl FrameAssembler {
    /// The bytes received and not yet handed out as frames.
    pub closed spec fn pending(self) -> Seq<u8> {
        self.buf@
    }

    /// A fresh assembler holding nothing.
    pub fn new() -> (r: Self)
        ensures
            r.pending() == Seq::<u8>::empty(),
    {
        FrameAssembler { buf: Vec::new() }
    }

    /// Append one chunk of transport bytes.
    pub fn push(&mut self, chunk: &[u8])
        ensures
            final(self).pending() == old(self).pending() + chunk@,
    {
        self.buf.extend_from_slice(chunk);
    }

    /// Split the first complete frame off the front of the buffer and
    /// hand out its payload; `None`, leaving the buffer as it is, while
    /// no complete frame is there yet.
    pub fn next_frame(&mut self) -> (r: Option<Vec<u8>>)
        ensures
            frame_ready(old(self).pending()) ==> (r matches Some(f) && f@ == first_frame(
                old(self).pending(),
            ) && final(self).pending() == rest_after_frame(old(self).pending())),
            !frame_ready(old(self).pending()) ==> r is None && *final(self) == *old(self),
    {
        if self.buf.len() < 4 {
            return None;
        }
        let header: [u8; 4] = [self.buf[0], self.buf[1], self.buf[2], self.buf[3]];
        proof {
            assert(header@ =~= self.buf@.subrange(0, 4));
        }
        let (_version, size) = decode_header(header);
        proof {
            let s = self.buf@;
            assert(header@ == s.subrange(0, 4));
            assert(exists|w: u32| host_word_bytes(w) == s.subrange(0, 4));
            let w0 = header_of(s);
            assert(host_word_bytes(w0) == s.subrange(0, 4));
            assert(size == word_size(w0));
        }
        if self.buf.len() < 4 + size {
            return None;
        }
        let rest = self.buf.split_off(4 + size);
        let payload = self.buf.split_off(4);
        self.buf = rest;
        proof {
            assert(payload@ =~= first_frame(old(self).pending()));
            assert(self.buf@ =~= rest_after_frame(old(self).pending()));
        }
        Some(payload)
    }
}

/// Chunked assembly invariance: consuming the frames of `s` first and
/// then seeing `t` arrive yields exactly the frames and the leftover of
/// the whole sequence `s + t`. Applied chunk by chunk, any split of a
/// byte sequence yields the same ordered frames as feeding it whole.
pub proof fn lemma_assembly_chunk_invariance(s: Seq<u8>, t: Seq<u8>)
    ensures
        frames_of(s + t) == frames_of(s) + frames_of(leftover_of(s) + t),
        leftover_of(s + t) == leftover_of(leftover_of(s) + t),
    decreases s.len(),
{
    if frame_ready(s) {
        assert((s + t).subrange(0, 4) =~= s.subrange(0, 4));
        assert(header_of(s + t) == header_of(s));
        assert(frame_ready(s + t));
        assert(first_frame(s + t) =~= first_frame(s));
        assert(rest_after_frame(s + t) =~= rest_after_frame(s) + t);
        lemma_assembly_chunk_invariance(rest_after_frame(s), t);
        assert(frames_of(s + t) =~= frames_of(s) + frames_of(leftover_of(s) + t));
    } else {
        assert(leftover_of(s) == s);
        assert(frames_of(s + t) =~= frames_of(s) + frames_of(leftover_of(s) + t));
    }
}

} // verus!
