//! The wire layout of schema-registry framed payloads:
//! `[ magic byte ][ registry id, 4 bytes big-endian ][ payload ... ]`.

use vstd::prelude::*;

verus! {

/// The four big-endian bytes of a registry id.
pub open spec fn id_bytes(id: i32) -> Seq<u8> {
    let u = id as u32;
    seq![(u >> 24u32) as u8, (u >> 16u32) as u8, (u >> 8u32) as u8, u as u8]
}

/// The registry id whose big-endian bytes are `b0 b1 b2 b3`.
pub open spec fn id_of_bytes(b0: u8, b1: u8, b2: u8, b3: u8) -> i32 {
    ((((b0 as u32) << 24u32) | ((b1 as u32) << 16u32) | ((b2 as u32) << 8u32) | (b3 as u32))) as i32
}

/// A framed payload: the magic byte, the id's bytes, then the payload.
pub open spec fn framed(magic: u8, id: i32, payload: Seq<u8>) -> Seq<u8> {
    seq![magic] + id_bytes(id) + payload
}

/// The id read back from its own bytes is the id.
pub proof fn lemma_id_bytes_roundtrip(id: i32)
    ensures
        id_of_bytes(id_bytes(id)[0], id_bytes(id)[1], id_bytes(id)[2], id_bytes(id)[3]) == id,
{
    let u = id as u32;
    assert((((((u >> 24u32) as u8) as u32) << 24u32) | ((((u >> 16u32) as u8) as u32) << 16u32)
        | ((((u >> 8u32) as u8) as u32) << 8u32) | ((u as u8) as u32)) == u) by (bit_vector);
    assert((u as i32) == id) by (bit_vector)
        requires
            u == id as u32,
    ;
}

/// The bytes of the id read from four bytes are those four bytes.
pub proof fn lemma_bytes_id_roundtrip(b0: u8, b1: u8, b2: u8, b3: u8)
    ensures
        id_bytes(id_of_bytes(b0, b1, b2, b3)) == seq![b0, b1, b2, b3],
{
    let w: u32 = ((b0 as u32) << 24u32) | ((b1 as u32) << 16u32) | ((b2 as u32) << 8u32) | (b3 as u32);
    assert(((w as i32) as u32) == w) by (bit_vector);
    assert(((w >> 24u32) as u8) == b0 && ((w >> 16u32) as u8) == b1 && ((w >> 8u32) as u8) == b2
        && (w as u8) == b3) by (bit_vector)
        requires
            w == ((b0 as u32) << 24u32) | ((b1 as u32) << 16u32) | ((b2 as u32) << 8u32) | (b3 as u32),
    ;
    assert(id_bytes(id_of_bytes(b0, b1, b2, b3)) =~= seq![b0, b1, b2, b3]);
}

/// Frames `payload` behind `magic` and the big-endian bytes of `id`.
pub fn frame(magic: u8, id: i32, payload: Vec<u8>) -> (buf: Vec<u8>)
    ensures
        buf@ == framed(magic, id, payload@),
{
    let mut payload = payload;
    let ghost data = payload@;
    let u: u32 = id as u32;
    let mut buf: Vec<u8> = Vec::with_capacity(5);
    buf.push(magic);
    buf.push((u >> 24u32) as u8);
    buf.push((u >> 16u32) as u8);
    buf.push((u >> 8u32) as u8);
    buf.push(u as u8);
    buf.append(&mut payload);
    assert(buf@ =~= framed(magic, id, data));
    buf
}

/// Reads the magic byte, the id and the payload of a framed buffer, or `None`
/// when it is shorter than the five header bytes.
pub fn unframe(buffer: &[u8]) -> (r: Option<(u8, i32, &[u8])>)
    ensures
        r is None <==> buffer@.len() < 5,
        r matches Some((magic, id, data)) ==> magic == buffer@[0] && id == id_of_bytes(
            buffer@[1],
            buffer@[2],
            buffer@[3],
            buffer@[4],
        ) && data@ == buffer@.subrange(5, buffer@.len() as int),
{
    if buffer.len() < 5 {
        return None;
    }
    let magic = buffer[0];
    let w: u32 = ((buffer[1] as u32) << 24u32) | ((buffer[2] as u32) << 16u32) | ((buffer[3] as u32)
        << 8u32) | (buffer[4] as u32);
    let id = w as i32;
    let (_, data) = buffer.split_at(5);
    Some((magic, id, data))
}

} // verus!
