//! The record layer: TLS records framed in the caller's byte buffers.
use vstd::prelude::*;

use crate::error::Error;

verus! {

pub const CONTENT_CHANGE_CIPHER_SPEC: u8 = 20;

pub const CONTENT_ALERT: u8 = 21;

pub const CONTENT_HANDSHAKE: u8 = 22;

pub const CONTENT_APPLICATION_DATA: u8 = 23;

/// Length of a record header: content type, protocol version, body length.
pub const HEADER_LEN: usize = 5;

/// Largest plaintext fragment carried by one record.
pub const MAX_FRAGMENT_LEN: usize = 16384;

/// Largest record body accepted from the peer.
pub const MAX_BODY_LEN: usize = 18432;

/// A complete record taken out of the incoming buffer.
pub struct Record {
    pub typ: u8,
    pub payload: Vec<u8>,
}

pub open spec fn known_content_type(t: u8) -> bool {
    CONTENT_CHANGE_CIPHER_SPEC <= t <= CONTENT_APPLICATION_DATA
}

pub open spec fn known_version(major: u8, minor: u8) -> bool {
    major == 3 && minor <= 4
}

/// The body length that the header at the front of `b` announces.
pub open spec fn announced_len(b: Seq<u8>) -> int {
    b[3] as int * 256 + b[4] as int
}

/// The error that the header at the front of `b` is, if it is complete.
pub open spec fn header_error(b: Seq<u8>) -> Option<Error> {
    if b.len() < HEADER_LEN {
        None
    } else if !known_content_type(b[0]) || !known_version(b[1], b[2]) {
        Some(Error::CorruptMessage)
    } else if announced_len(b) > MAX_BODY_LEN {
        Some(Error::RecordTooLarge)
    } else {
        None
    }
}

/// `b` starts with a well-formed record whose body is present in full.
pub open spec fn starts_with_record(b: Seq<u8>) -> bool {
    &&& b.len() >= HEADER_LEN
    &&& header_error(b) is None
    &&& b.len() >= HEADER_LEN + announced_len(b)
}

/// Length of the record at the front of `b`, header included.
pub open spec fn record_len(b: Seq<u8>) -> int {
    HEADER_LEN + announced_len(b)
}

/// `b` is a run of complete, well-formed records and nothing else.
pub open spec fn whole_records(b: Seq<u8>) -> bool
    decreases b.len(),
{
    if b.len() == 0 {
        true
    } else if starts_with_record(b) {
        whole_records(b.skip(record_len(b)))
    } else {
        false
    }
}

/// A run of whole records followed by one more record is still a run of whole records.
pub proof fn lemma_whole_records_append(a: Seq<u8>, c: Seq<u8>)
    requires
        whole_records(a),
        starts_with_record(c),
        c.len() == record_len(c),
    ensures
        whole_records(a + c),
    decreases a.len(),
{
    if a.len() == 0 {
        assert(a + c =~= c);
        assert(c.skip(record_len(c)) =~= Seq::<u8>::empty());
        assert(whole_records(c.skip(record_len(c))));
    } else {
        let k = record_len(a);
        assert((a + c)[0] == a[0] && (a + c)[1] == a[1] && (a + c)[2] == a[2] && (a + c)[3] == a[3] && (a + c)[4] == a[4]);
        assert((a + c).skip(k) =~= a.skip(k) + c);
        lemma_whole_records_append(a.skip(k), c);
        assert(record_len(a + c) == k);
        assert(starts_with_record(a + c));
        assert(whole_records((a + c).skip(k)));
    }
}

/// The bytes of a record of type `typ` carrying `payload`; the length field
/// holds the payload length modulo 65536 (this library never frames more).
pub open spec fn record_bytes(typ: u8, payload: Seq<u8>) -> Seq<u8> {
    seq![typ, 3u8, 3u8, (payload.len() / 256) as u8, (payload.len() % 256) as u8] + payload
}

/// The bytes of a handshake message of type `typ` with `body`.
pub open spec fn handshake_bytes(typ: u8, body: Seq<u8>) -> Seq<u8> {
    seq![typ, 0u8, (body.len() / 256) as u8, (body.len() % 256) as u8] + body
}

/// The bytes of each record in `q`.
pub open spec fn framed(q: Seq<Record>) -> Seq<Seq<u8>> {
    q.map_values(|r: Record| record_bytes(r.typ, r.payload@))
}

/// Reads the record that starts at `start` in `buf`, if it is complete.
pub fn read_record(buf: &[u8], start: usize) -> (r: Result<Option<(Record, usize)>, Error>)
    requires
        start <= buf@.len(),
    ensures
        ({
            let b = buf@.subrange(start as int, buf@.len() as int);
            match r {
                Err(e) => header_error(b) == Some(e),
                Ok(None) => header_error(b) is None && !starts_with_record(b),
                Ok(Some((rec, n))) => {
                    &&& starts_with_record(b)
                    &&& n == HEADER_LEN + announced_len(b)
                    &&& rec.typ == b[0]
                    &&& rec.payload@ == b.subrange(HEADER_LEN as int, n as int)
                },
            }
        }),
{
    let ghost b = buf@.subrange(start as int, buf@.len() as int);
    let avail = buf.len() - start;
    if avail < HEADER_LEN {
        return Ok(None);
    }
    let typ = buf[start];
    if typ < CONTENT_CHANGE_CIPHER_SPEC || typ > CONTENT_APPLICATION_DATA || buf[start + 1] != 3
        || buf[start + 2] > 4 {
        return Err(Error::CorruptMessage);
    }
    let len = (buf[start + 3] as usize) * 256 + buf[start + 4] as usize;
    assert(len == announced_len(b));
    if len > MAX_BODY_LEN {
        return Err(Error::RecordTooLarge);
    }
    if avail - HEADER_LEN < len {
        return Ok(None);
    }
    let body_start = start + HEADER_LEN;
    let payload = copy_range(buf, body_start, body_start + len);
    assert(payload@ =~= b.subrange(HEADER_LEN as int, (HEADER_LEN + len) as int));
    Ok(Some((Record { typ, payload }, HEADER_LEN + len)))
}

/// A fresh vector holding `buf[from..to]`.
pub fn copy_range(buf: &[u8], from: usize, to: usize) -> (r: Vec<u8>)
    requires
        from <= to <= buf@.len(),
    ensures
        r@ == buf@.subrange(from as int, to as int),
{
    let mut r: Vec<u8> = Vec::with_capacity(to - from);
    let mut i: usize = from;
    while i < to
        invariant
            from <= i <= to <= buf@.len(),
            r@ == buf@.subrange(from as int, i as int),
        decreases to - i,
    {
        r.push(buf[i]);
        assert(r@ =~= buf@.subrange(from as int, i + 1));
        i += 1;
    }
    r
}

/// Appends the record of type `typ` carrying `payload` to `out`.
pub fn push_record(out: &mut Vec<u8>, typ: u8, payload: &[u8])
    ensures
        final(out)@ == old(out)@ + record_bytes(typ, payload@),
{
    let n = payload.len();
    out.push(typ);
    out.push(3);
    out.push(3);
    out.push((n / 256) as u8);
    out.push((n % 256) as u8);
    let ghost head = old(out)@ + seq![typ, 3u8, 3u8, (n / 256) as u8, (n % 256) as u8];
    assert(out@ =~= head);
    let mut i: usize = 0;
    while i < n
        invariant
            i <= n == payload@.len(),
            out@ == head + payload@.subrange(0, i as int),
        decreases n - i,
    {
        out.push(payload[i]);
        assert(out@ =~= head + payload@.subrange(0, i + 1));
        i += 1;
    }
    assert(payload@.subrange(0, n as int) =~= payload@);
    assert(final(out)@ =~= old(out)@ + record_bytes(typ, payload@));
}

/// The record of type `typ` carrying `payload`.
pub fn encode_record(typ: u8, payload: &[u8]) -> (r: Vec<u8>)
    ensures
        r@ == record_bytes(typ, payload@),
{
    let mut r: Vec<u8> = Vec::new();
    push_record(&mut r, typ, payload);
    assert(r@ =~= record_bytes(typ, payload@));
    r
}

/// Writes `src` over the front of `dst`, leaving the rest of `dst` as it was.
pub fn copy_into(dst: &mut [u8], src: &[u8])
    requires
        src@.len() <= old(dst)@.len(),
    ensures
        final(dst)@ == src@ + old(dst)@.subrange(src@.len() as int, old(dst)@.len() as int),
{
    let n = src.len();
    let mut i: usize = 0;
    while i < n
        invariant
            i <= n == src@.len() <= dst@.len() == old(dst)@.len(),
            dst@ == src@.subrange(0, i as int) + old(dst)@.subrange(i as int, old(dst)@.len() as int),
        decreases n - i,
    {
        dst[i] = src[i];
        assert(dst@ =~= src@.subrange(0, i + 1) + old(dst)@.subrange(i + 1, old(dst)@.len() as int));
        i += 1;
    }
    assert(src@.subrange(0, n as int) =~= src@);
}

/// The records of type `typ` that carry `data`, cut into fragments of at most
/// `MAX_FRAGMENT_LEN` bytes; empty data still makes one (empty) record.
pub open spec fn fragments(typ: u8, data: Seq<u8>) -> Seq<u8>
    decreases data.len(),
{
    if data.len() <= MAX_FRAGMENT_LEN {
        record_bytes(typ, data)
    } else {
        record_bytes(typ, data.take(MAX_FRAGMENT_LEN as int)) + fragments(
            typ,
            data.skip(MAX_FRAGMENT_LEN as int),
        )
    }
}

/// How many records `fragments` makes of `n` bytes.
pub open spec fn fragment_count(n: nat) -> nat
    decreases n,
{
    if n <= MAX_FRAGMENT_LEN {
        1
    } else {
        1 + fragment_count((n - MAX_FRAGMENT_LEN) as nat)
    }
}

/// Frames `data` as records of type `typ`; also returns how many records.
pub fn frame_fragments(typ: u8, data: &[u8]) -> (r: (Vec<u8>, usize))
    ensures
        r.0@ == fragments(typ, data@),
        r.1 == fragment_count(data@.len()),
{
    let n = data.len();
    let mut out: Vec<u8> = Vec::new();
    let mut i: usize = 0;
    let mut count: usize = 0;
    assert(data@.skip(0) =~= data@);
    assert(out@ + fragments(typ, data@) =~= fragments(typ, data@));
    loop
        invariant
            i <= n == data@.len(),
            i < n || i == 0,
            out@ + fragments(typ, data@.skip(i as int)) == fragments(typ, data@),
            count + fragment_count((n - i) as nat) == fragment_count(n as nat),
            count <= i,
        decreases n - i,
    {
        let end = if n - i > MAX_FRAGMENT_LEN {
            i + MAX_FRAGMENT_LEN
        } else {
            n
        };
        let piece = copy_range(data, i, end);
        let ghost before = out@;
        push_record(&mut out, typ, piece.as_slice());
        let ghost rest = data@.skip(i as int);
        if end == n {
            proof {
                assert(rest =~= piece@);
                assert(before + fragments(typ, rest) == out@);
            }
            return (out, count + 1);
        }
        proof {
            assert(rest.take(MAX_FRAGMENT_LEN as int) =~= piece@);
            assert(rest.skip(MAX_FRAGMENT_LEN as int) =~= data@.skip(end as int));
            assert(before + fragments(typ, rest) == before + record_bytes(typ, piece@) + fragments(typ, data@.skip(end as int)));
        }
        count += 1;
        i = end;
    }
}

} // verus!
