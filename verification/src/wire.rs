//! The binary message layer of the wire format: base-128 varints, tagged
//! fields, and the authenticated envelope `{ message: bytes (field 1),
//! compressed: bool (field 2) }`.
//!
//! The parser accepts fields in any order (the last occurrence of a field
//! wins), skips unknown fields by their wire type, and rejects overlong or
//! overflowing varints.

use vstd::prelude::*;

verus! {

/// Base-128 rendering of a non-negative integer, low group first, with a
/// continuation bit on every group but the last.
pub open spec fn varint(n: int) -> Seq<u8>
    recommends
        n >= 0,
    decreases n,
{
    if n < 0x80 {
        seq![n as u8]
    } else {
        seq![(0x80 + n % 0x80) as u8] + varint(n / 0x80)
    }
}

pub proof fn lemma_varint_len(n: int)
    requires
        0 <= n,
    ensures
        1 <= varint(n).len(),
    decreases n,
{
    if n >= 0x80 {
        lemma_varint_len(n / 0x80);
    }
}

/// Parse a varint at `pos`: the value and the position after it.  Rejects
/// truncated input, continuation groups with value zero (overlong
/// encodings), and values beyond 64 bits.
pub open spec fn parse_varint_at(bytes: Seq<u8>, pos: int) -> Option<(int, int)>
    decreases bytes.len() - pos,
{
    if pos < 0 || pos >= bytes.len() {
        None
    } else {
        let b = bytes[pos];
        if b < 0x80 {
            Some(((b as int, pos + 1)))
        } else {
            match parse_varint_at(bytes, pos + 1) {
                None => None,
                Some((rest, p2)) => {
                    let val = (b - 0x80) + 0x80 * rest;
                    if rest < 1 || val > u64::MAX {
                        None
                    } else {
                        Some(((val, p2)))
                    }
                },
            }
        }
    }
}

/// A parsed varint moves the cursor forward and yields a 64-bit value.
pub proof fn lemma_varint_progress(bytes: Seq<u8>, pos: int)
    ensures
        match parse_varint_at(bytes, pos) {
            Some((v, p)) => pos < p <= bytes.len() && 0 <= v <= u64::MAX,
            None => true,
        },
    decreases bytes.len() - pos,
{
    if 0 <= pos < bytes.len() {
        lemma_varint_progress(bytes, pos + 1);
    }
}

/// Parsing inverts rendering: wherever a rendered varint sits in a byte
/// sequence, the parser reads back exactly its value.
pub proof fn lemma_varint_roundtrip(bytes: Seq<u8>, pos: int, n: int)
    requires
        0 <= n <= u64::MAX,
        0 <= pos,
        pos + varint(n).len() <= bytes.len(),
        bytes.subrange(pos, pos + varint(n).len() as int) == varint(n),
    ensures
        parse_varint_at(bytes, pos) == Some(((n, pos + varint(n).len()))),
    decreases n,
{
    lemma_varint_len(n);
    assert(bytes[pos] == varint(n)[0]);
    if n < 0x80 {
        assert(bytes[pos] == n as u8);
    } else {
        let rest = varint(n / 0x80);
        assert(varint(n) == seq![(0x80 + n % 0x80) as u8] + rest);
        assert(bytes[pos] == (0x80 + n % 0x80) as u8);
        assert(bytes[pos] >= 0x80);
        assert(bytes.subrange(pos + 1, pos + 1 + rest.len() as int) =~= rest) by {
            assert(forall|k: int|
                0 <= k < rest.len() ==> bytes.subrange(
                    pos,
                    pos + varint(n).len() as int,
                )[k + 1] == rest[k]);
        }
        lemma_varint_roundtrip(bytes, pos + 1, n / 0x80);
        assert((bytes[pos] - 0x80) + 0x80 * (n / 0x80) == n);
    }
}

/// Append the varint rendering of `n`.
pub fn push_varint(out: &mut Vec<u8>, n: u64)
    ensures
        final(out)@ == old(out)@ + varint(n as int),
    decreases n,
{
    if n < 0x80 {
        out.push(n as u8);
        proof {
            assert(out@ =~= old(out)@ + varint(n as int));
        }
    } else {
        out.push((0x80 + (n % 0x80)) as u8);
        push_varint(out, n / 0x80);
        proof {
            assert(out@ =~= old(out)@ + varint(n as int));
        }
    }
}

/// Parse the envelope's fields from `pos` on, with the field values seen
/// so far; the last occurrence of a field wins, unknown fields are
/// skipped by wire type.
pub open spec fn parse_fields(bytes: Seq<u8>, pos: int, compressed: bool, message: Seq<u8>)
    -> Option<(bool, Seq<u8>)>
    decreases bytes.len() - pos,
    when 0 <= pos <= bytes.len()
    via parse_fields_dec
{
    if pos == bytes.len() {
        Some(((compressed, message)))
    } else {
        match parse_varint_at(bytes, pos) {
            None => None,
            Some((tag, p1)) => {
                let field = tag / 8;
                let wire = tag % 8;
                if field == 1 && wire == 2 {
                    match parse_varint_at(bytes, p1) {
                        None => None,
                        Some((l, p2)) => if p2 + l <= bytes.len() {
                            parse_fields(bytes, p2 + l, compressed, bytes.subrange(p2, p2 + l))
                        } else {
                            None
                        },
                    }
                } else if field == 2 && wire == 0 {
                    match parse_varint_at(bytes, p1) {
                        None => None,
                        Some((v, p2)) => parse_fields(bytes, p2, v != 0, message),
                    }
                } else if wire == 0 {
                    match parse_varint_at(bytes, p1) {
                        None => None,
                        Some((_v, p2)) => parse_fields(bytes, p2, compressed, message),
                    }
                } else if wire == 2 {
                    match parse_varint_at(bytes, p1) {
                        None => None,
                        Some((l, p2)) => if p2 + l <= bytes.len() {
                            parse_fields(bytes, p2 + l, compressed, message)
                        } else {
                            None
                        },
                    }
                } else if wire == 1 {
                    if p1 + 8 <= bytes.len() {
                        parse_fields(bytes, p1 + 8, compressed, message)
                    } else {
                        None
                    }
                } else if wire == 5 {
                    if p1 + 4 <= bytes.len() {
                        parse_fields(bytes, p1 + 4, compressed, message)
                    } else {
                        None
                    }
                } else {
                    None
                }
            },
        }
    }
}

#[via_fn]
proof fn parse_fields_dec(bytes: Seq<u8>, pos: int, compressed: bool, message: Seq<u8>) {
    lemma_varint_progress(bytes, pos);
    match parse_varint_at(bytes, pos) {
        None => {
        },
        Some((tag, p1)) => {
            lemma_varint_progress(bytes, p1);
        },
    }
}

/// The outer wrapper of an authenticated server response.
#[derive(Debug)]
pub struct Envelope {
    /// Whether `message` is zlib-compressed.
    pub compressed: bool,
    /// The domain response, possibly compressed.
    pub message: Vec<u8>,
}

/// The canonical rendering of an envelope: the message field, then the
/// compressed flag.
pub open spec fn encode_envelope_seq(compressed: bool, message: Seq<u8>) -> Seq<u8> {
    seq![0x0au8] + varint(message.len() as int) + message + seq![
        0x10u8,
        if compressed {
            1u8
        } else {
            0u8
        },
    ]
}

/// Copy of the byte range `[from, to)`.
pub fn copy_byte_range(bytes: &Vec<u8>, from: usize, to: usize) -> (r: Vec<u8>)
    requires
        from <= to <= bytes@.len(),
    ensures
        r@ == bytes@.subrange(from as int, to as int),
{
    let mut out: Vec<u8> = Vec::new();
    let mut i: usize = from;
    while i < to
        invariant
            from <= i <= to <= bytes@.len(),
            out@ == bytes@.subrange(from as int, i as int),
        decreases to - i,
    {
        out.push(bytes[i]);
        proof {
            assert(bytes@.subrange(from as int, i as int + 1) =~= bytes@.subrange(
                from as int,
                i as int,
            ).push(bytes@[i as int]));
        }
        i = i + 1;
    }
    out
}

impl Envelope {
    /// Render in the canonical field order.
    pub fn encode(&self) -> (r: Vec<u8>)
        ensures
            r@ == encode_envelope_seq(self.compressed, self.message@),
    {
        let mut out: Vec<u8> = Vec::new();
        out.push(0x0au8);
        push_varint(&mut out, self.message.len() as u64);
        let mut i: usize = 0;
        while i < self.message.len()
            invariant
                i <= self.message@.len(),
                out@ == seq![0x0au8] + varint(self.message@.len() as int) + self.message@.take(
                    i as int,
                ),
            decreases self.message@.len() - i,
        {
            out.push(self.message[i]);
            proof {
                assert(self.message@.take(i as int + 1) =~= self.message@.take(i as int).push(
                    self.message@[i as int],
                ));
                assert(out@ =~= seq![0x0au8] + varint(self.message@.len() as int)
                    + self.message@.take(i as int + 1));
            }
            i = i + 1;
        }
        out.push(0x10u8);
        if self.compressed {
            out.push(1u8);
        } else {
            out.push(0u8);
        }
        proof {
            assert(self.message@.take(self.message@.len() as int) =~= self.message@);
            assert(out@ =~= encode_envelope_seq(self.compressed, self.message@));
        }
        out
    }
}

/// Read a varint; `None` on truncated, overlong or overflowing input.
pub fn read_varint(bytes: &Vec<u8>, pos: usize) -> (r: Option<(u64, usize)>)
    ensures
        match r {
            Some((v, p)) => parse_varint_at(bytes@, pos as int) == Some(((v as int, p as int)))
                && pos < p <= bytes@.len(),
            None => parse_varint_at(bytes@, pos as int) is None,
        },
    decreases bytes@.len() - pos,
{
    if pos >= bytes.len() {
        return None;
    }
    let b = bytes[pos];
    if b < 0x80 {
        Some((b as u64, pos + 1))
    } else {
        match read_varint(bytes, pos + 1) {
            None => None,
            Some((rest, p2)) => {
                if rest < 1 {
                    return None;
                }
                let low: u64 = (b - 0x80) as u64;
                match rest.checked_mul(0x80) {
                    None => {
                        proof {
                            assert((b - 0x80) + 0x80 * (rest as int) > u64::MAX);
                        }
                        None
                    },
                    Some(shifted) => match shifted.checked_add(low) {
                        None => None,
                        Some(val) => Some((val, p2)),
                    },
                }
            },
        }
    }
}

/// Parse an envelope from raw bytes; `None` when the bytes are not a
/// well-formed envelope message.
pub fn parse_envelope(bytes: &Vec<u8>) -> (r: Option<Envelope>)
    ensures
        match r {
            Some(env) => parse_fields(bytes@, 0, false, Seq::empty()) == Some(
                ((env.compressed, env.message@)),
            ),
            None => parse_fields(bytes@, 0, false, Seq::empty()) is None,
        },
{
    let mut pos: usize = 0;
    let mut compressed: bool = false;
    let mut message: Vec<u8> = Vec::new();
    while pos < bytes.len()
        invariant
            pos <= bytes@.len(),
            parse_fields(bytes@, 0, false, Seq::empty()) == parse_fields(
                bytes@,
                pos as int,
                compressed,
                message@,
            ),
        decreases bytes@.len() - pos,
    {
        let tag_read = read_varint(bytes, pos);
        proof {
            lemma_varint_progress(bytes@, pos as int);
        }
        match tag_read {
            None => {
                return None;
            },
            Some((tag, p1)) => {
                let field = tag / 8;
                let wire = tag % 8;
                if field == 1 && wire == 2 {
                    match read_varint(bytes, p1) {
                        None => {
                            return None;
                        },
                        Some((l, p2)) => {
                            if l <= (bytes.len() - p2) as u64 {
                                let end = p2 + (l as usize);
                                message = copy_byte_range(bytes, p2, end);
                                pos = end;
                            } else {
                                return None;
                            }
                        },
                    }
                } else if field == 2 && wire == 0 {
                    match read_varint(bytes, p1) {
                        None => {
                            return None;
                        },
                        Some((v, p2)) => {
                            compressed = v != 0;
                            pos = p2;
                        },
                    }
                } else if wire == 0 {
                    match read_varint(bytes, p1) {
                        None => {
                            return None;
                        },
                        Some((_v, p2)) => {
                            pos = p2;
                        },
                    }
                } else if wire == 2 {
                    match read_varint(bytes, p1) {
                        None => {
                            return None;
                        },
                        Some((l, p2)) => {
                            if l <= (bytes.len() - p2) as u64 {
                                pos = p2 + (l as usize);
                            } else {
                                return None;
                            }
                        },
                    }
                } else if wire == 1 {
                    if bytes.len() - p1 >= 8 {
                        pos = p1 + 8;
                    } else {
                        return None;
                    }
                } else if wire == 5 {
                    if bytes.len() - p1 >= 4 {
                        pos = p1 + 4;
                    } else {
                        return None;
                    }
                } else {
                    return None;
                }
            },
        }
    }
    Some(Envelope { compressed, message })
}

/// Parsing an envelope inverts rendering it: the canonical bytes of any
/// message and flag parse back to exactly that message and flag.
pub proof fn lemma_envelope_roundtrip(compressed: bool, message: Seq<u8>)
    requires
        message.len() <= u64::MAX,
    ensures
        parse_fields(encode_envelope_seq(compressed, message), 0, false, Seq::empty()) == Some(
            ((compressed, message)),
        ),
{
    let bytes = encode_envelope_seq(compressed, message);
    let l = message.len() as int;
    let vl = varint(l).len() as int;
    lemma_varint_len(l);
    assert(bytes.len() == 1 + vl + l + 2);

    // The leading tag byte: field 1, wire type 2.
    assert(bytes[0] == 0x0au8);
    assert(parse_varint_at(bytes, 0) == Some(((0x0a as int, 1int))));

    // The length varint.
    assert(bytes.subrange(1, 1 + vl) =~= varint(l));
    lemma_varint_roundtrip(bytes, 1, l);

    // The message bytes.
    let p2 = 1 + vl;
    assert(bytes.subrange(p2, p2 + l) =~= message);

    // The trailing compressed field: tag byte then one varint group.
    let p3 = p2 + l;
    assert(bytes[p3] == 0x10u8);
    assert(parse_varint_at(bytes, p3) == Some(((0x10 as int, p3 + 1))));
    let flag: u8 = if compressed {
        1u8
    } else {
        0u8
    };
    assert(bytes[p3 + 1] == flag);
    assert(parse_varint_at(bytes, p3 + 1) == Some(((flag as int, p3 + 2))));
    assert(parse_fields(bytes, p3 + 2, compressed, message) == Some(((compressed, message))));
    assert(parse_fields(bytes, p3, false, message) == Some(((compressed, message))));
    assert(bytes.subrange(p2, p2 + l) == message);
    assert(parse_fields(bytes, 0, false, Seq::empty()) == Some(((compressed, message))));
}

} // verus!
