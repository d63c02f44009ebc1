//! Little-endian integer reads and the type-length-value field reader that
//! the group and entry decoders share. The reader knows nothing about field
//! semantics: it yields `(type, bytes)` pairs from a cursor until its callers
//! see the terminator type.

use vstd::prelude::*;

use crate::parser::Error;

verus! {

/// The little-endian 16-bit value held by a 2-byte sequence.
pub open spec fn spec_le16(b: Seq<u8>) -> u16
    recommends
        b.len() == 2,
{
    (b[0] as u16) | ((b[1] as u16) << 8)
}

/// The little-endian 32-bit value held by a 4-byte sequence.
pub open spec fn spec_le32(b: Seq<u8>) -> u32
    recommends
        b.len() == 4,
{
    (b[0] as u32) | ((b[1] as u32) << 8) | ((b[2] as u32) << 16) | ((b[3] as u32) << 24)
}

/// The 2-byte little-endian encoding of a 16-bit value.
pub open spec fn spec_le16_bytes(x: u16) -> Seq<u8> {
    seq![(x & 0xff) as u8, ((x >> 8) & 0xff) as u8]
}

/// The 4-byte little-endian encoding of a 32-bit value.
pub open spec fn spec_le32_bytes(x: u32) -> Seq<u8> {
    seq![
        (x & 0xff) as u8,
        ((x >> 8) & 0xff) as u8,
        ((x >> 16) & 0xff) as u8,
        ((x >> 24) & 0xff) as u8,
    ]
}

/// Decoding inverts the 16-bit encoding.
pub proof fn lemma_le16_of_bytes(x: u16)
    ensures
        spec_le16_bytes(x).len() == 2,
        spec_le16(spec_le16_bytes(x)) == x,
{
    let b0 = (x & 0xff) as u8;
    let b1 = ((x >> 8) & 0xff) as u8;
    assert((b0 as u16) | ((b1 as u16) << 8) == x) by (bit_vector)
        requires
            b0 == (x & 0xff) as u8,
            b1 == ((x >> 8) & 0xff) as u8,
    ;
}

/// Decoding inverts the 32-bit encoding.
pub proof fn lemma_le32_of_bytes(x: u32)
    ensures
        spec_le32_bytes(x).len() == 4,
        spec_le32(spec_le32_bytes(x)) == x,
{
    let b0 = (x & 0xff) as u8;
    let b1 = ((x >> 8) & 0xff) as u8;
    let b2 = ((x >> 16) & 0xff) as u8;
    let b3 = ((x >> 24) & 0xff) as u8;
    assert((b0 as u32) | ((b1 as u32) << 8) | ((b2 as u32) << 16) | ((b3 as u32) << 24) == x)
        by (bit_vector)
        requires
            b0 == (x & 0xff) as u8,
            b1 == ((x >> 8) & 0xff) as u8,
            b2 == ((x >> 16) & 0xff) as u8,
            b3 == ((x >> 24) & 0xff) as u8,
    ;
}

/// Little-endian 16-bit unsigned int from a cursor; fails with
/// `TruncatedRecord` when fewer than two bytes remain.
pub fn read_u16(data: &[u8], pos: &mut usize) -> (r: Result<u16, Error>)
    requires
        *old(pos) <= data@.len(),
    ensures
        *final(pos) <= data@.len(),
        *old(pos) + 2 <= data@.len() ==> {
            &&& r == Ok::<u16, Error>(spec_le16(data@.subrange(
                *old(pos) as int,
                *old(pos) + 2,
            )))
            &&& *final(pos) == *old(pos) + 2
        },
        *old(pos) + 2 > data@.len() ==> {
            &&& r == Err::<u16, Error>(Error::TruncatedRecord)
            &&& *final(pos) == *old(pos)
        },
{
    if data.len() - *pos < 2 {
        return Err(Error::TruncatedRecord);
    }
    let b0 = *vstd::slice::slice_index_get(data, *pos);
    let b1 = *vstd::slice::slice_index_get(data, *pos + 1);
    proof {
        assert(((b1 as u16) << 8) <= 0xFF00) by (bit_vector);
    }
    let r = (b0 as u16) + ((b1 as u16) << 8);
    proof {
        let s = data@.subrange(*old(pos) as int, *old(pos) + 2);
        assert(s[0] == b0 && s[1] == b1);
        assert((b0 as u16) + ((b1 as u16) << 8) == (b0 as u16) | ((b1 as u16) << 8))
            by (bit_vector);
    }
    *pos = *pos + 2;
    Ok(r)
}

/// Little-endian u32 from a 4-byte array-shaped slice of the stream.
pub fn bytes_to_u32(buf: &[u8]) -> (r: u32)
    requires
        buf@.len() == 4,
    ensures
        r == spec_le32(buf@),
{
    let b0 = *vstd::slice::slice_index_get(buf, 0);
    let b1 = *vstd::slice::slice_index_get(buf, 1);
    let b2 = *vstd::slice::slice_index_get(buf, 2);
    let b3 = *vstd::slice::slice_index_get(buf, 3);
    proof {
        assert(((b1 as u32) << 8) <= 0xFF00) by (bit_vector);
        assert(((b2 as u32) << 16) <= 0xFF0000) by (bit_vector);
        assert(((b3 as u32) << 24) <= 0xFF000000) by (bit_vector);
    }
    let r = (b0 as u32) + ((b1 as u32) << 8) + ((b2 as u32) << 16) + ((b3 as u32) << 24);
    proof {
        assert((b0 as u32) + ((b1 as u32) << 8) + ((b2 as u32) << 16) + ((b3 as u32) << 24)
            == (b0 as u32) | ((b1 as u32) << 8) | ((b2 as u32) << 16) | ((b3 as u32) << 24))
            by (bit_vector);
    }
    r
}

/// Little-endian u32 from a slice that must be exactly four bytes wide;
/// `field_type` only labels the error on a size violation.
pub fn slice_to_u32(field_type: u16, buf: &[u8]) -> (r: Result<u32, Error>)
    ensures
        buf@.len() == 4 ==> r == Ok::<u32, Error>(spec_le32(buf@)),
        buf@.len() != 4 ==> r == Err::<u32, Error>(Error::InvalidFieldSize {
            field_type,
            field_size: buf@.len() as u32,
        }),
{
    if buf.len() != 4 {
        return Err(Error::InvalidFieldSize { field_type, field_size: buf.len() as u32 });
    }
    Ok(bytes_to_u32(buf))
}

/// Little-endian 32-bit unsigned int from a cursor; fails with
/// `TruncatedRecord` when fewer than four bytes remain.
pub fn read_u32(data: &[u8], pos: &mut usize) -> (r: Result<u32, Error>)
    requires
        *old(pos) <= data@.len(),
    ensures
        *final(pos) <= data@.len(),
        *old(pos) + 4 <= data@.len() ==> {
            &&& r == Ok::<u32, Error>(spec_le32(data@.subrange(
                *old(pos) as int,
                *old(pos) + 4,
            )))
            &&& *final(pos) == *old(pos) + 4
        },
        *old(pos) + 4 > data@.len() ==> {
            &&& r == Err::<u32, Error>(Error::TruncatedRecord)
            &&& *final(pos) == *old(pos)
        },
{
    if data.len() - *pos < 4 {
        return Err(Error::TruncatedRecord);
    }
    let b0 = *vstd::slice::slice_index_get(data, *pos);
    let b1 = *vstd::slice::slice_index_get(data, *pos + 1);
    let b2 = *vstd::slice::slice_index_get(data, *pos + 2);
    let b3 = *vstd::slice::slice_index_get(data, *pos + 3);
    proof {
        assert(((b1 as u32) << 8) <= 0xFF00) by (bit_vector);
        assert(((b2 as u32) << 16) <= 0xFF0000) by (bit_vector);
        assert(((b3 as u32) << 24) <= 0xFF000000) by (bit_vector);
    }
    let r = (b0 as u32) + ((b1 as u32) << 8) + ((b2 as u32) << 16) + ((b3 as u32) << 24);
    proof {
        let s = data@.subrange(*old(pos) as int, *old(pos) + 4);
        assert(s[0] == b0 && s[1] == b1 && s[2] == b2 && s[3] == b3);
        assert((b0 as u32) + ((b1 as u32) << 8) + ((b2 as u32) << 16) + ((b3 as u32) << 24)
            == (b0 as u32) | ((b1 as u32) << 8) | ((b2 as u32) << 16) | ((b3 as u32) << 24))
            by (bit_vector);
    }
    *pos = *pos + 4;
    Ok(r)
}

/// Exactly `n` bytes from the cursor; fails with `TruncatedRecord` when fewer
/// remain.
pub fn read_bytes(data: &[u8], pos: &mut usize, n: usize) -> (r: Result<Vec<u8>, Error>)
    requires
        *old(pos) <= data@.len(),
    ensures
        *final(pos) <= data@.len(),
        *old(pos) + n <= data@.len() ==> ({
            &&& r matches Ok(v) && v@ == data@.subrange(*old(pos) as int, *old(pos) + n)
            &&& *final(pos) == *old(pos) + n
        }),
        *old(pos) + n > data@.len() ==> {
            &&& r == Err::<Vec<u8>, Error>(Error::TruncatedRecord)
            &&& *final(pos) == *old(pos)
        },
{
    if data.len() - *pos < n {
        return Err(Error::TruncatedRecord);
    }
    let start: usize = *pos;
    let end: usize = start + n;
    let mut v: Vec<u8> = Vec::new();
    let mut i: usize = 0;
    while i < n
        invariant
            start + n <= data@.len(),
            end == start + n,
            i <= n,
            v@ == data@.subrange(start as int, start + i),
        decreases n - i,
    {
        v.push(*vstd::slice::slice_index_get(data, start + i));
        i = i + 1;
        proof {
            assert(v@ =~= data@.subrange(start as int, start + i));
        }
    }
    *pos = start + n;
    Ok(v)
}

/// What one field read yields at `pos`: a little-endian 16-bit type code, a
/// little-endian 32-bit length, then exactly that many bytes, with the cursor
/// landing just past them; `TruncatedRecord` when the stream is too short.
pub open spec fn spec_read_field(b: Seq<u8>, pos: int) -> Result<(u16, Seq<u8>, int), Error> {
    if pos + 6 <= b.len() {
        let t = spec_le16(b.subrange(pos, pos + 2));
        let n = spec_le32(b.subrange(pos + 2, pos + 6)) as int;
        if pos + 6 + n <= b.len() {
            Ok((t, b.subrange(pos + 6, pos + 6 + n), pos + 6 + n))
        } else {
            Err(Error::TruncatedRecord)
        }
    } else {
        Err(Error::TruncatedRecord)
    }
}

/// One type-length-value field from the cursor. The reader knows nothing of
/// field semantics; terminator fields come back like any other.
pub fn read_field(data: &[u8], pos: &mut usize) -> (r: Result<(u16, Vec<u8>), Error>)
    requires
        *old(pos) <= data@.len(),
    ensures
        *final(pos) <= data@.len(),
        match spec_read_field(data@, *old(pos) as int) {
            Ok(f) => ({
                &&& r matches Ok(g) && g.0 == f.0 && g.1@ == f.1
                &&& *final(pos) == f.2
            }),
            Err(e) => r == Err::<(u16, Vec<u8>), Error>(e),
        },
{
    let field_type = match read_u16(data, pos) {
        Ok(t) => t,
        Err(e) => {
            return Err(e);
        },
    };
    let field_size = match read_u32(data, pos) {
        Ok(n) => n,
        Err(e) => {
            return Err(e);
        },
    };
    let field_data = match read_bytes(data, pos, field_size as usize) {
        Ok(v) => v,
        Err(e) => {
            return Err(e);
        },
    };
    Ok((field_type, field_data))
}

/// The encoding of one field: type, length, then the payload.
pub open spec fn spec_encode_field(t: u16, d: Seq<u8>) -> Seq<u8> {
    spec_le16_bytes(t) + spec_le32_bytes(d.len() as u32) + d
}

/// The encoding of a run of fields, one after the other.
pub open spec fn spec_encode_fields(fs: Seq<(u16, Seq<u8>)>) -> Seq<u8>
    decreases fs.len(),
{
    if fs.len() == 0 {
        Seq::empty()
    } else {
        spec_encode_field(fs[0].0, fs[0].1) + spec_encode_fields(fs.drop_first())
    }
}

/// Every field from `pos` up to and including the first terminator-typed
/// field, in stream order; the terminator itself is consumed but not listed.
pub open spec fn spec_fields_from(b: Seq<u8>, pos: int) -> Result<(Seq<(u16, Seq<u8>)>, int), Error>
    decreases b.len() - pos,
    when 0 <= pos
{
    match spec_read_field(b, pos) {
        Ok(f) => {
            if f.0 == 0xFFFFu16 {
                Ok((Seq::empty(), f.2))
            } else {
                match spec_fields_from(b, f.2) {
                    Ok(rest) => Ok((seq![(f.0, f.1)] + rest.0, rest.1)),
                    Err(e) => Err(e),
                }
            }
        },
        Err(e) => Err(e),
    }
}

/// A single encoded field sitting at `pos` reads back as itself.
pub proof fn lemma_read_encoded_field(b: Seq<u8>, pos: int, t: u16, d: Seq<u8>)
    requires
        0 <= pos,
        d.len() <= u32::MAX,
        pos + 6 + d.len() <= b.len(),
        b.subrange(pos, pos + 6 + d.len()) == spec_encode_field(t, d),
    ensures
        spec_read_field(b, pos) == Ok::<(u16, Seq<u8>, int), Error>((t, d, pos + 6 + d.len())),
{
    lemma_le16_of_bytes(t);
    lemma_le32_of_bytes(d.len() as u32);
    let enc = spec_encode_field(t, d);
    assert(enc.len() == 6 + d.len());
    let sub = b.subrange(pos, pos + 6 + d.len());
    assert forall|i: int| 0 <= i < 6 + d.len() implies b[pos + i] == enc[i] by {
        assert(sub[i] == b[pos + i]);
        assert(sub[i] == enc[i]);
    }
    assert(b.subrange(pos, pos + 2) =~= spec_le16_bytes(t));
    assert(b[pos + 2] == enc[2] && b[pos + 3] == enc[3] && b[pos + 4] == enc[4] && b[pos + 5]
        == enc[5]);
    assert(b.subrange(pos + 2, pos + 6) =~= spec_le32_bytes(d.len() as u32));
    assert forall|i: int| 0 <= i < d.len() implies b[pos + 6 + i] == #[trigger] d[i] by {
        assert(b[pos + (6 + i)] == enc[6 + i]);
    }
    assert(b.subrange(pos + 6, pos + 6 + d.len()) =~= d);
}

/// Round trip for the field reader: a stream holding any run of encoded
/// fields followed by an encoded terminator, starting at `pos`, reads back
/// as exactly those fields, in order, with payloads equal to the originals.
pub proof fn lemma_fields_round_trip_at(b: Seq<u8>, pos: int, fs: Seq<(u16, Seq<u8>)>, term: Seq<
    u8,
>)
    requires
        0 <= pos,
        forall|i: int| 0 <= i < fs.len() ==> (#[trigger] fs[i]).0 != 0xFFFFu16,
        forall|i: int| 0 <= i < fs.len() ==> (#[trigger] fs[i]).1.len() <= u32::MAX,
        term.len() <= u32::MAX,
        pos + spec_encode_fields(fs).len() + 6 + term.len() <= b.len(),
        b.subrange(pos, pos + spec_encode_fields(fs).len() + 6 + term.len())
            == spec_encode_fields(fs) + spec_encode_field(0xFFFFu16, term),
    ensures
        spec_fields_from(b, pos) == Ok::<(Seq<(u16, Seq<u8>)>, int), Error>(
            (fs, pos + spec_encode_fields(fs).len() + 6 + term.len()),
        ),
    decreases fs.len(),
{
    let whole = spec_encode_fields(fs).len() + 6 + term.len();
    if fs.len() == 0 {
        assert(spec_encode_fields(fs) =~= Seq::<u8>::empty());
        assert(b.subrange(pos, pos + 6 + term.len()) =~= spec_encode_field(0xFFFFu16, term));
        lemma_read_encoded_field(b, pos, 0xFFFFu16, term);
        assert(spec_fields_from(b, pos) == Ok::<(Seq<(u16, Seq<u8>)>, int), Error>(
            (Seq::empty(), pos + 6 + term.len()),
        ));
        assert(fs =~= Seq::<(u16, Seq<u8>)>::empty());
    } else {
        let t0 = fs[0].0;
        let d0 = fs[0].1;
        let enc0 = spec_encode_field(t0, d0);
        let rest = fs.drop_first();
        assert(spec_encode_fields(fs) == enc0 + spec_encode_fields(rest));
        assert(enc0.len() == 6 + d0.len());
        assert(b.subrange(pos, pos + 6 + d0.len()) =~= enc0);
        lemma_read_encoded_field(b, pos, t0, d0);
        let pos1 = pos + 6 + d0.len();
        assert(forall|i: int| 0 <= i < rest.len() ==> (#[trigger] rest[i]) == fs[i + 1]);
        let tail = spec_encode_fields(rest) + spec_encode_field(0xFFFFu16, term);
        let big = spec_encode_fields(fs) + spec_encode_field(0xFFFFu16, term);
        assert(big =~= enc0 + tail);
        assert forall|i: int| 0 <= i < whole implies b[pos + i] == big[i] by {
            assert(b.subrange(pos, pos + whole)[i] == b[pos + i]);
        }
        assert forall|j: int| 0 <= j < tail.len() implies b[pos1 + j] == tail[j] by {
            assert(big[enc0.len() + j] == tail[j]);
            assert(b[pos + (enc0.len() + j)] == big[enc0.len() + j]);
        }
        assert(b.subrange(pos1, pos1 + spec_encode_fields(rest).len() + 6 + term.len())
            =~= spec_encode_fields(rest) + spec_encode_field(0xFFFFu16, term));
        lemma_fields_round_trip_at(b, pos1, rest, term);
        assert(seq![(t0, d0)] + rest =~= fs);
    }
}

/// Round trip for the type-length-value reader over a whole buffer: encode
/// any well-formed run of `(type, bytes)` fields, end it with a terminator
/// field, and reading yields exactly that run, in order, with byte payloads
/// equal to the originals.
pub proof fn lemma_tlv_round_trip(fs: Seq<(u16, Seq<u8>)>, term: Seq<u8>)
    requires
        forall|i: int| 0 <= i < fs.len() ==> (#[trigger] fs[i]).0 != 0xFFFFu16,
        forall|i: int| 0 <= i < fs.len() ==> (#[trigger] fs[i]).1.len() <= u32::MAX,
        term.len() <= u32::MAX,
    ensures
        spec_fields_from(spec_encode_fields(fs) + spec_encode_field(0xFFFFu16, term), 0)
            == Ok::<(Seq<(u16, Seq<u8>)>, int), Error>(
            (fs, spec_encode_fields(fs).len() + 6 + term.len() as int),
        ),
{
    let b = spec_encode_fields(fs) + spec_encode_field(0xFFFFu16, term);
    assert(b.len() == spec_encode_fields(fs).len() + 6 + term.len());
    assert(b.subrange(0, b.len() as int) =~= b);
    lemma_fields_round_trip_at(b, 0, fs, term);
}

} // verus!
