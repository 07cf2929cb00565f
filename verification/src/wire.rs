//! Base-128 varint primitives for the envelope and payload codecs.
//!
//! Every integer on the wire is a little-endian base-128 varint: each byte
//! carries 7 value bits, the high bit says whether another byte follows.
//! A decoded varint is at most 10 bytes long (enough for any 64-bit value);
//! longer runs are rejected.

use vstd::prelude::*;

verus! {

/// Longest accepted varint: 10 groups of 7 bits cover any 64-bit value.
pub const MAX_VARINT_LEN: usize = 10;

/// The varint encoding of a 64-bit value: 7 bits per byte, least
/// significant group first, high bit set on every byte but the last.
pub open spec fn varint_enc(v: u64) -> Seq<u8>
    decreases v,
{
    if v < 128 {
        seq![v as u8]
    } else {
        seq![((v % 128) + 128) as u8] + varint_enc(v / 128)
    }
}

/// Parses a varint from the front of `s` with at most `depth` bytes,
/// giving the value and the number of bytes consumed. Rejects runs whose
/// value does not fit in 64 bits.
pub open spec fn varint_parse_rec(s: Seq<u8>, depth: nat) -> Option<(u64, nat)>
    decreases depth,
{
    if depth == 0 || s.len() == 0 {
        None
    } else if s[0] < 128 {
        Some((s[0] as u64, 1))
    } else {
        match varint_parse_rec(s.skip(1), (depth - 1) as nat) {
            None => None,
            Some((v, n)) => {
                let total = (s[0] - 128) + 128 * v;
                if total <= u64::MAX {
                    Some((total as u64, n + 1))
                } else {
                    None
                }
            },
        }
    }
}

/// Parses a varint from the front of `s`: the value and the bytes
/// consumed, or `None` if `s` does not start with a well-formed varint.
pub open spec fn varint_parse(s: Seq<u8>) -> Option<(u64, nat)> {
    varint_parse_rec(s, MAX_VARINT_LEN as nat)
}

/// Appends the varint encoding of `v` to `out`.
pub fn write_varint(v: u64, out: &mut Vec<u8>)
    ensures
        final(out)@ == old(out)@ + varint_enc(v),
    decreases v,
{
    if v < 128 {
        out.push(v as u8);
        assert(final(out)@ =~= old(out)@ + varint_enc(v));
    } else {
        let b: u8 = ((v % 128) + 128) as u8;
        out.push(b);
        write_varint(v / 128, out);
        assert(final(out)@ =~= old(out)@ + varint_enc(v));
    }
}

fn read_varint_rec(buf: &[u8], pos: usize, depth: u32) -> (r: Option<(u64, usize)>)
    requires
        pos <= buf@.len(),
    ensures
        match varint_parse_rec(buf@.skip(pos as int), depth as nat) {
            Some(p) => r matches Some(q) && q.0 == p.0 && q.1 == pos + p.1 && pos < q.1
                <= buf@.len(),
            None => r is None,
        },
    decreases depth,
{
    if depth == 0 || pos >= buf.len() {
        return None;
    }
    let b = buf[pos];
    if b < 128 {
        return Some((b as u64, pos + 1));
    }
    proof {
        assert(buf@.skip(pos as int).skip(1) =~= buf@.skip(pos as int + 1));
    }
    match read_varint_rec(buf, pos + 1, depth - 1) {
        None => None,
        Some((v, end)) => {
            let low: u64 = (b - 128) as u64;
            if v <= (u64::MAX - low) / 128 {
                proof {
                    assert(128 * v <= u64::MAX - low) by (nonlinear_arith)
                        requires
                            v <= (u64::MAX - low) / 128,
                            0 <= low < 128,
                    ;
                }
                Some((low + 128 * v, end))
            } else {
                None
            }
        },
    }
}

/// Reads the varint starting at `pos`, giving its value and the position
/// just past it, or `None` if the bytes there are not a well-formed
/// varint.
pub fn read_varint(buf: &[u8], pos: usize) -> (r: Option<(u64, usize)>)
    requires
        pos <= buf@.len(),
    ensures
        match varint_parse(buf@.skip(pos as int)) {
            Some(p) => r matches Some(q) && q.0 == p.0 && q.1 == pos + p.1 && pos < q.1
                <= buf@.len(),
            None => r is None,
        },
{
    read_varint_rec(buf, pos, MAX_VARINT_LEN as u32)
}

spec fn pow128(k: nat) -> int
    decreases k,
{
    if k == 0 {
        1
    } else {
        128 * pow128((k - 1) as nat)
    }
}

proof fn lemma_varint_enc_len_bounded(v: u64, k: nat)
    requires
        1 <= k,
        v < pow128(k),
    ensures
        varint_enc(v).len() <= k,
    decreases k,
{
    if v < 128 {
    } else {
        assert(pow128(k) == 128 * pow128((k - 1) as nat));
        assert(v / 128 < pow128((k - 1) as nat)) by (nonlinear_arith)
            requires
                v < 128 * pow128((k - 1) as nat),
        ;
        assert(k - 1 >= 1) by {
            if k == 1 {
                assert(pow128(1int as nat) == 128);
            }
        }
        lemma_varint_enc_len_bounded(v / 128, (k - 1) as nat);
    }
}

/// A varint is between 1 and 10 bytes long.
pub proof fn lemma_varint_enc_len(v: u64)
    ensures
        1 <= varint_enc(v).len() <= 10,
{
    reveal_with_fuel(pow128, 11);
    assert(pow128(10) > u64::MAX);
    lemma_varint_enc_len_bounded(v, 10);
}

proof fn lemma_varint_round_trip_rec(v: u64, rest: Seq<u8>, depth: nat)
    requires
        varint_enc(v).len() <= depth,
    ensures
        varint_parse_rec(varint_enc(v) + rest, depth) == Some((v, varint_enc(v).len())),
    decreases v,
{
    let s = varint_enc(v) + rest;
    if v < 128 {
        assert(s[0] == v as u8);
    } else {
        let b: u8 = ((v % 128) + 128) as u8;
        let tail = varint_enc(v / 128);
        assert(s[0] == b);
        assert(s.skip(1) =~= tail + rest);
        lemma_varint_round_trip_rec(v / 128, rest, (depth - 1) as nat);
        assert(varint_parse_rec(s.skip(1), (depth - 1) as nat) == Some(
            (v / 128, tail.len()),
        ));
        assert((s[0] - 128) + 128 * (v / 128 as u64) == v) by {
            assert(v % 128 + 128 * (v / 128) == v) by (nonlinear_arith);
        }
    }
}

/// Parsing an encoded varint from the front of any byte sequence gives
/// back the encoded value and consumes exactly the encoding.
pub proof fn lemma_varint_round_trip(v: u64, rest: Seq<u8>)
    ensures
        varint_parse(varint_enc(v) + rest) == Some((v, varint_enc(v).len())),
{
    lemma_varint_enc_len(v);
    lemma_varint_round_trip_rec(v, rest, 10);
}

/// An optional varint-valued field: if `s` starts with the field's key
/// byte, the varint after it and the remainder; otherwise nothing is
/// consumed. `None` only on a malformed varint.
pub open spec fn parse_opt_varint_field(s: Seq<u8>, key: u8) -> Option<(Option<u64>, Seq<u8>)> {
    if s.len() == 0 || s[0] != key {
        Some((None, s))
    } else {
        match varint_parse(s.skip(1)) {
            None => None,
            Some((v, n)) => Some((Some(v), s.skip(1).skip(n as int))),
        }
    }
}

/// An optional length-delimited field: if `s` starts with the field's key
/// byte, a varint length, that many content bytes, and the remainder;
/// otherwise nothing is consumed.
pub open spec fn parse_opt_bytes_field(s: Seq<u8>, key: u8) -> Option<(Option<Seq<u8>>, Seq<u8>)> {
    if s.len() == 0 || s[0] != key {
        Some((None, s))
    } else {
        match varint_parse(s.skip(1)) {
            None => None,
            Some((ln, n)) => {
                let s2 = s.skip(1).skip(n as int);
                if ln <= s2.len() {
                    Some((Some(s2.take(ln as int)), s2.skip(ln as int)))
                } else {
                    None
                }
            },
        }
    }
}

/// A required varint-valued field: `s` must start with the field's key
/// byte followed by a well-formed varint.
pub open spec fn parse_req_varint_field(s: Seq<u8>, key: u8) -> Option<(u64, Seq<u8>)> {
    match parse_opt_varint_field(s, key) {
        None => None,
        Some((v, rest)) => match v {
            Some(v) => Some((v, rest)),
            None => None,
        },
    }
}

/// A required length-delimited field: `s` must start with the field's key
/// byte followed by a length and that many content bytes.
pub open spec fn parse_req_bytes_field(s: Seq<u8>, key: u8) -> Option<(Seq<u8>, Seq<u8>)> {
    match parse_opt_bytes_field(s, key) {
        None => None,
        Some((v, rest)) => match v {
            Some(v) => Some((v, rest)),
            None => None,
        },
    }
}

/// Reads an optional varint field at `pos`: the value, if the field's key
/// is there, and the position just past what was consumed.
pub fn read_opt_varint_field(buf: &[u8], pos: usize, key: u8) -> (r: Option<(Option<u64>, usize)>)
    requires
        pos <= buf@.len(),
    ensures
        match parse_opt_varint_field(buf@.skip(pos as int), key) {
            Some(p) => r matches Some(q) && q.0 == p.0 && buf@.skip(q.1 as int) == p.1 && pos
                <= q.1 <= buf@.len(),
            None => r is None,
        },
{
    if pos >= buf.len() || buf[pos] != key {
        return Some((None, pos));
    }
    proof {
        assert(buf@.skip(pos as int).skip(1) =~= buf@.skip(pos as int + 1));
    }
    match read_varint(buf, pos + 1) {
        None => None,
        Some((v, end)) => {
            proof {
                let s = buf@.skip(pos as int);
                let n = varint_parse(s.skip(1)).unwrap().1;
                assert(s.skip(1).skip(n as int) =~= buf@.skip(end as int));
            }
            Some((Some(v), end))
        },
    }
}

/// Reads an optional length-delimited field at `pos`: a copy of the
/// content bytes, if the field's key is there, and the position just past
/// what was consumed.
pub fn read_opt_bytes_field(buf: &[u8], pos: usize, key: u8) -> (r: Option<
    (Option<Vec<u8>>, usize),
>)
    requires
        pos <= buf@.len(),
    ensures
        match parse_opt_bytes_field(buf@.skip(pos as int), key) {
            Some(p) => r matches Some(q) && buf@.skip(q.1 as int) == p.1 && pos <= q.1
                <= buf@.len() && (match (p.0, q.0) {
                (Some(bs), Some(bv)) => bv@ == bs,
                (None, None) => true,
                _ => false,
            }),
            None => r is None,
        },
{
    if pos >= buf.len() || buf[pos] != key {
        return Some((None, pos));
    }
    proof {
        assert(buf@.skip(pos as int).skip(1) =~= buf@.skip(pos as int + 1));
    }
    match read_varint(buf, pos + 1) {
        None => None,
        Some((ln, mid)) => {
            let ghost s = buf@.skip(pos as int);
            let ghost n = varint_parse(s.skip(1)).unwrap().1;
            proof {
                assert(s.skip(1).skip(n as int) =~= buf@.skip(mid as int));
            }
            if ln > (buf.len() - mid) as u64 {
                return None;
            }
            let ln_size: usize = ln as usize;
            let end: usize = mid + ln_size;
            let mut content: Vec<u8> = Vec::new();
            content.extend_from_slice(&buf[mid..end]);
            proof {
                let s2 = s.skip(1).skip(n as int);
                assert(content@ =~= s2.take(ln as int));
                assert(s2.skip(ln as int) =~= buf@.skip(end as int));
            }
            Some((Some(content), end))
        },
    }
}

/// Reads a required varint field at `pos`.
pub fn read_req_varint_field(buf: &[u8], pos: usize, key: u8) -> (r: Option<(u64, usize)>)
    requires
        pos <= buf@.len(),
    ensures
        match parse_req_varint_field(buf@.skip(pos as int), key) {
            Some(p) => r matches Some(q) && q.0 == p.0 && buf@.skip(q.1 as int) == p.1 && pos
                <= q.1 <= buf@.len(),
            None => r is None,
        },
{
    match read_opt_varint_field(buf, pos, key) {
        None => None,
        Some((Some(v), end)) => Some((v, end)),
        Some((None, _)) => None,
    }
}

/// Reads a required length-delimited field at `pos`.
pub fn read_req_bytes_field(buf: &[u8], pos: usize, key: u8) -> (r: Option<(Vec<u8>, usize)>)
    requires
        pos <= buf@.len(),
    ensures
        match parse_req_bytes_field(buf@.skip(pos as int), key) {
            Some(p) => r matches Some(q) && q.0@ == p.0 && buf@.skip(q.1 as int) == p.1 && pos
                <= q.1 <= buf@.len(),
            None => r is None,
        },
{
    match read_opt_bytes_field(buf, pos, key) {
        None => None,
        Some((Some(v), end)) => Some((v, end)),
        Some((None, _)) => None,
    }
}

/// Appends one varint-valued field: the key byte, then the value.
pub fn write_varint_field(key: u8, v: u64, out: &mut Vec<u8>)
    ensures
        final(out)@ == old(out)@ + enc_varint_field(key, v),
{
    out.push(key);
    write_varint(v, out);
    assert(final(out)@ =~= old(out)@ + enc_varint_field(key, v));
}

/// Appends one length-delimited field: the key byte, the content length,
/// then the content.
pub fn write_bytes_field(key: u8, content: &[u8], out: &mut Vec<u8>)
    ensures
        final(out)@ == old(out)@ + enc_bytes_field(key, content@),
{
    out.push(key);
    write_varint(content.len() as u64, out);
    out.extend_from_slice(content);
    assert(final(out)@ =~= old(out)@ + enc_bytes_field(key, content@));
}

/// The wire form of one varint-valued field.
pub open spec fn enc_varint_field(key: u8, v: u64) -> Seq<u8> {
    seq![key] + varint_enc(v)
}

/// The wire form of one length-delimited field. Meaningful only for
/// content of at most `u64::MAX` bytes.
pub open spec fn enc_bytes_field(key: u8, content: Seq<u8>) -> Seq<u8> {
    seq![key] + varint_enc(content.len() as u64) + content
}

/// A varint field parses back to its value and leaves exactly the bytes
/// that follow it.
pub proof fn lemma_parse_varint_field(key: u8, v: u64, rest: Seq<u8>)
    ensures
        parse_opt_varint_field(enc_varint_field(key, v) + rest, key) == Some((Some(v), rest)),
        parse_req_varint_field(enc_varint_field(key, v) + rest, key) == Some((v, rest)),
{
    let s = enc_varint_field(key, v) + rest;
    assert(s[0] == key);
    assert(s.skip(1) =~= varint_enc(v) + rest);
    lemma_varint_round_trip(v, rest);
    let n = varint_enc(v).len();
    assert(s.skip(1).skip(n as int) =~= rest);
}

/// A length-delimited field parses back to its content and leaves exactly
/// the bytes that follow it.
pub proof fn lemma_parse_bytes_field(key: u8, content: Seq<u8>, rest: Seq<u8>)
    requires
        content.len() <= u64::MAX,
    ensures
        parse_opt_bytes_field(enc_bytes_field(key, content) + rest, key) == Some(
            (Some(content), rest),
        ),
        parse_req_bytes_field(enc_bytes_field(key, content) + rest, key) == Some((content, rest)),
{
    let s = enc_bytes_field(key, content) + rest;
    let ln: u64 = content.len() as u64;
    assert(s[0] == key);
    assert(s.skip(1) =~= varint_enc(ln) + (content + rest));
    lemma_varint_round_trip(ln, content + rest);
    let n = varint_enc(ln).len();
    assert(s.skip(1).skip(n as int) =~= content + rest);
    let s2 = s.skip(1).skip(n as int);
    assert(s2.take(ln as int) =~= content);
    assert(s2.skip(ln as int) =~= rest);
}

/// Compares two byte slices element by element.
pub fn bytes_equal(a: &[u8], b: &[u8]) -> (r: bool)
    ensures
        r == (a@ =~= b@),
{
    if a.len() != b.len() {
        return false;
    }
    let mut i: usize = 0;
    while i < a.len()
        invariant
            i <= a@.len(),
            a@.len() == b@.len(),
            forall|j: int| 0 <= j < i ==> a@[j] == b@[j],
        decreases a@.len() - i,
    {
        if a[i] != b[i] {
            return false;
        }
        i = i + 1;
    }
    true
}

/// A field whose key byte differs is not consumed by an optional-field
/// parse.
pub proof fn lemma_parse_opt_field_absent(s: Seq<u8>, key: u8)
    requires
        s.len() == 0 || s[0] != key,
    ensures
        parse_opt_varint_field(s, key) == Some((None::<u64>, s)),
        parse_opt_bytes_field(s, key) == Some((None::<Seq<u8>>, s)),
{
}

} // verus!
