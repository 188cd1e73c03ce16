use vstd::prelude::*;

verus! {

/// Marker closing a cell record that is not the last of its row.
pub const CONTINUE: u8 = 2;
/// Marker closing the last record of a row.
pub const END_OF_ROW: u8 = 3;
/// Marker closing the last record of a plane.
pub const END_OF_PLANE: u8 = 4;
/// Marker closing the last record of the volume, and so the frame.
pub const END_OF_VOLUME: u8 = 5;

/// Bytes in one cell record: six 4-byte samples, five separators, one marker.
pub const RECORD_LEN: usize = 30;

/// Bytes in the stream header.
pub const HEADER_LEN: usize = 8;

/// The marker after point `(x, y, z)` of a cube of side `n`: the highest-order
/// boundary that the point closes.
pub open spec fn marker_of(n: int, x: int, y: int, z: int) -> u8 {
    if x == n - 1 && y == n - 1 && z == n - 1 {
        END_OF_VOLUME
    } else if x == n - 1 && y == n - 1 {
        END_OF_PLANE
    } else if x == n - 1 {
        END_OF_ROW
    } else {
        CONTINUE
    }
}

/// The little-endian bytes of `u`.
pub open spec fn le_bytes(u: u32) -> Seq<u8> {
    seq![(u % 256) as u8, ((u / 256) % 256) as u8, ((u / 65536) % 256) as u8, (u / 16777216) as u8]
}

/// The number whose little-endian bytes are `s[at..at + 4]`.
pub open spec fn le_value(s: Seq<u8>, at: int) -> int {
    s[at] + 256 * s[at + 1] + 65536 * s[at + 2] + 16777216 * s[at + 3]
}

/// The record of one cell: the bit patterns of `E` and `B`, interleaved with
/// the fixed separators `0, 0, 1, 0, 0`, and closed by `marker`.
pub open spec fn record_bytes(e: (u32, u32, u32), b: (u32, u32, u32), marker: u8) -> Seq<u8> {
    le_bytes(e.0) + seq![0u8] + le_bytes(e.1) + seq![0u8] + le_bytes(e.2) + seq![1u8]
        + le_bytes(b.0) + seq![0u8] + le_bytes(b.1) + seq![0u8] + le_bytes(b.2) + seq![marker]
}

/// `s` has the layout of a record closed by `marker`.
pub open spec fn record_shape(s: Seq<u8>, marker: u8) -> bool {
    &&& s.len() == RECORD_LEN
    &&& s[4] == 0 && s[9] == 0 && s[14] == 1 && s[19] == 0 && s[24] == 0
    &&& s[29] == marker
}

/// The stream header: the bit patterns of the effective spatial scale and of
/// the effective timestep.
pub open spec fn header_bytes(scale: u32, dt: u32) -> Seq<u8> {
    le_bytes(scale) + le_bytes(dt)
}

/// The marker after point `(x, y, z)` of a cube of side `n`.
pub fn marker(n: usize, x: usize, y: usize, z: usize) -> (r: u8)
    requires
        1 <= n,
    ensures
        r == marker_of(n as int, x as int, y as int, z as int),
{
    let last = n - 1;
    if x == last && y == last && z == last {
        END_OF_VOLUME
    } else if x == last && y == last {
        END_OF_PLANE
    } else if x == last {
        END_OF_ROW
    } else {
        CONTINUE
    }
}

/// Appends the little-endian bytes of `u`.
pub fn push_le(out: &mut Vec<u8>, u: u32)
    ensures
        final(out)@ == old(out)@ + le_bytes(u),
{
    out.push((u % 256) as u8);
    out.push(((u / 256) % 256) as u8);
    out.push(((u / 65536) % 256) as u8);
    out.push((u / 16777216) as u8);
    assert(final(out)@ =~= old(out)@ + le_bytes(u));
}

/// Appends the record of one cell.
pub fn push_record(out: &mut Vec<u8>, e: (u32, u32, u32), b: (u32, u32, u32), marker: u8)
    ensures
        final(out)@ == old(out)@ + record_bytes(e, b, marker),
{
    let ghost start = out@;
    push_le(out, e.0);
    out.push(0);
    push_le(out, e.1);
    out.push(0);
    push_le(out, e.2);
    out.push(1);
    push_le(out, b.0);
    out.push(0);
    push_le(out, b.1);
    out.push(0);
    push_le(out, b.2);
    out.push(marker);
    assert(out@ =~= start + record_bytes(e, b, marker));
}

/// Every record has the record layout.
pub proof fn lemma_record_shape(e: (u32, u32, u32), b: (u32, u32, u32), marker: u8)
    ensures
        record_shape(record_bytes(e, b, marker), marker),
{
}

/// Appends the stream header.
pub fn push_header(out: &mut Vec<u8>, scale: u32, dt: u32)
    ensures
        final(out)@ == old(out)@ + header_bytes(scale, dt),
{
    let ghost start = out@;
    push_le(out, scale);
    push_le(out, dt);
    assert(out@ =~= start + header_bytes(scale, dt));
}

/// Reading four little-endian bytes back gives the number they were written from.
pub proof fn lemma_le_round_trip(u: u32)
    ensures
        le_value(le_bytes(u), 0) == u,
{
    let v = u as int;
    vstd::arithmetic::div_mod::lemma_fundamental_div_mod(v, 256);
    vstd::arithmetic::div_mod::lemma_fundamental_div_mod(v / 256, 256);
    vstd::arithmetic::div_mod::lemma_fundamental_div_mod(v / 65536, 256);
    vstd::arithmetic::div_mod::lemma_div_denominator(v, 256, 256);
    vstd::arithmetic::div_mod::lemma_div_denominator(v, 65536, 256);
    assert(v / 16777216 < 256) by {
        vstd::arithmetic::div_mod::lemma_div_is_ordered(v, 4294967295, 16777216);
    }
}

/// The two numbers at the start of a stream, read back from its header; `None`
/// when the stream is shorter than a header.
pub fn decode_header(bytes: &Vec<u8>) -> (r: Option<(u32, u32)>)
    ensures
        r is None <==> bytes@.len() < HEADER_LEN,
        r matches Some(h) ==> h.0 == le_value(bytes@, 0) && h.1 == le_value(bytes@, 4),
{
    if bytes.len() < HEADER_LEN {
        return None;
    }
    let scale = read_le(bytes, 0);
    let dt = read_le(bytes, 4);
    Some((scale, dt))
}

/// The number whose little-endian bytes are `bytes[at..at + 4]`.
pub fn read_le(bytes: &Vec<u8>, at: usize) -> (r: u32)
    requires
        at + 4 <= bytes@.len(),
    ensures
        r == le_value(bytes@, at as int),
{
    let len = bytes.len();
    assert(at + 4 <= len);
    let b0 = bytes[at] as u32;
    let b1 = bytes[at + 1] as u32;
    let b2 = bytes[at + 2] as u32;
    let b3 = bytes[at + 3] as u32;
    b0 + 256 * b1 + 65536 * b2 + 16777216 * b3
}

/// Decoding a written header gives back the two numbers it was written from,
/// whatever bytes follow it.
pub proof fn header_round_trip(scale: u32, dt: u32, rest: Seq<u8>)
    ensures
        le_value(header_bytes(scale, dt) + rest, 0) == scale,
        le_value(header_bytes(scale, dt) + rest, 4) == dt,
{
    lemma_le_round_trip(scale);
    lemma_le_round_trip(dt);
    let s = header_bytes(scale, dt) + rest;
    assert(s.subrange(0, 4) =~= le_bytes(scale));
    assert(s.subrange(4, 8) =~= le_bytes(dt));
    assert(s[0] == le_bytes(scale)[0] && s[1] == le_bytes(scale)[1] && s[2] == le_bytes(scale)[2] && s[3] == le_bytes(scale)[3]);
    assert(s[4] == le_bytes(dt)[0] && s[5] == le_bytes(dt)[1] && s[6] == le_bytes(dt)[2] && s[7] == le_bytes(dt)[3]);
}

} // verus!
