//! CRC-32 as used by Ethernet and zlib: reflected polynomial `0xEDB88320`,
//! initial register `0xFFFFFFFF`, final XOR `0xFFFFFFFF`.
//!
//! Every authentication chunk and every status report carries this checksum,
//! little-endian, in its last four bytes.

use vstd::prelude::*;

verus! {

/// The reflected generator polynomial.
pub const POLYNOMIAL: u32 = 0xEDB8_8320;

/// The checksum of any message that is followed by its own checksum.
pub const RESIDUE: u32 = 0x2144_DF1C;

/// One bit of polynomial division on the reflected register.
pub open spec fn shift_bit(c: u32) -> u32 {
    if c & 1 == 1 {
        (c >> 1) ^ 0xEDB8_8320u32
    } else {
        c >> 1
    }
}

/// The register after one more message byte.
pub open spec fn feed_byte(c: u32, b: u8) -> u32 {
    shift_bit(
        shift_bit(
            shift_bit(shift_bit(shift_bit(shift_bit(shift_bit(shift_bit(c ^ (b as u32))))))),
        ),
    )
}

/// The register after the whole message, starting from all ones.
pub open spec fn register(data: Seq<u8>) -> u32
    decreases data.len(),
{
    if data.len() == 0 {
        0xFFFF_FFFFu32
    } else {
        feed_byte(register(data.drop_last()), data.last())
    }
}

/// The CRC-32 of a message.
pub open spec fn crc32(data: Seq<u8>) -> u32 {
    register(data) ^ 0xFFFF_FFFFu32
}

/// The four bytes of a word, least significant first.
pub open spec fn le_bytes(x: u32) -> Seq<u8> {
    seq![
        (x & 0xFF) as u8,
        ((x >> 8) & 0xFF) as u8,
        ((x >> 16) & 0xFF) as u8,
        ((x >> 24) & 0xFF) as u8,
    ]
}

/// A message followed by its little-endian checksum.
pub open spec fn sealed(data: Seq<u8>) -> Seq<u8> {
    data + le_bytes(crc32(data))
}

/// Whether the last four bytes of `bytes` are the checksum of what precedes them.
pub open spec fn is_sealed(bytes: Seq<u8>) -> bool {
    bytes.len() >= 4 && bytes.subrange(bytes.len() - 4, bytes.len() as int) == le_bytes(
        crc32(bytes.subrange(0, bytes.len() - 4)),
    )
}

fn step(c: u32) -> (r: u32)
    ensures
        r == shift_bit(c),
{
    if c & 1 == 1 {
        (c >> 1) ^ POLYNOMIAL
    } else {
        c >> 1
    }
}

fn update(c: u32, b: u8) -> (r: u32)
    ensures
        r == feed_byte(c, b),
{
    let mut r: u32 = c ^ (b as u32);
    r = step(r);
    r = step(r);
    r = step(r);
    r = step(r);
    r = step(r);
    r = step(r);
    r = step(r);
    r = step(r);
    r
}

/// Computes the CRC-32 of `data`.
pub fn crc(data: &[u8]) -> (r: u32)
    ensures
        r == crc32(data@),
{
    let mut c: u32 = 0xFFFF_FFFF;
    let mut i: usize = 0;
    while i < data.len()
        invariant
            i <= data.len(),
            c == register(data@.subrange(0, i as int)),
        decreases data.len() - i,
    {
        assert(data@.subrange(0, i + 1).drop_last() =~= data@.subrange(0, i as int));
        c = update(c, data[i]);
        i = i + 1;
    }
    assert(data@.subrange(0, i as int) =~= data@);
    c ^ 0xFFFF_FFFF
}

/// Splits a word into its bytes, least significant first.
pub fn to_le_bytes(x: u32) -> (r: [u8; 4])
    ensures
        r@ == le_bytes(x),
{
    let r = [
        (x & 0xFF) as u8,
        ((x >> 8) & 0xFF) as u8,
        ((x >> 16) & 0xFF) as u8,
        ((x >> 24) & 0xFF) as u8,
    ];
    assert(r@ =~= le_bytes(x));
    r
}

/// Whether the last four bytes of `bytes` are the checksum of what precedes
/// them.
pub fn check(bytes: &[u8]) -> (ok: bool)
    ensures
        ok == is_sealed(bytes@),
{
    let len = bytes.len();
    if len < 4 {
        return false;
    }
    let body = len - 4;
    let calculated = to_le_bytes(crc(&bytes[0..body]));
    assert(bytes@.subrange(body as int, len as int) =~= seq![
        bytes@[body as int],
        bytes@[body + 1],
        bytes@[body + 2],
        bytes@[body + 3],
    ]);
    assert(calculated@ =~= seq![calculated@[0], calculated@[1], calculated@[2], calculated@[3]]);
    bytes[body] == calculated[0] && bytes[body + 1] == calculated[1] && bytes[body + 2]
        == calculated[2] && bytes[body + 3] == calculated[3]
}

/// `data` followed by its little-endian checksum.
pub fn seal(data: &[u8]) -> (r: Vec<u8>)
    ensures
        r@ == sealed(data@),
{
    let checksum = to_le_bytes(crc(data));
    let mut r: Vec<u8> = Vec::new();
    let mut i: usize = 0;
    while i < data.len()
        invariant
            i <= data@.len(),
            r@ == data@.subrange(0, i as int),
        decreases data@.len() - i,
    {
        r.push(data[i]);
        assert(r@ =~= data@.subrange(0, i + 1));
        i = i + 1;
    }
    r.push(checksum[0]);
    r.push(checksum[1]);
    r.push(checksum[2]);
    r.push(checksum[3]);
    assert(r@ =~= sealed(data@));
    r
}

/// A message followed by its checksum passes the check.
pub proof fn lemma_sealed_checks(data: Seq<u8>)
    ensures
        is_sealed(sealed(data)),
        sealed(data).len() == data.len() + 4,
        sealed(data).subrange(0, data.len() as int) == data,
{
    let s = sealed(data);
    assert(s.subrange(0, s.len() - 4) =~= data);
    assert(s.subrange(s.len() - 4, s.len() as int) =~= le_bytes(crc32(data)));
}

/// Feeding a byte extends the register by one step.
pub proof fn lemma_register_push(data: Seq<u8>, b: u8)
    ensures
        register(data.push(b)) == feed_byte(register(data), b),
{
    assert(data.push(b).drop_last() =~= data);
}

/// Whatever the register holds, feeding it the complement of its own value,
/// least significant byte first, leaves the same constant.
proof fn lemma_residue_register(r: u32)
    ensures
        feed_byte(
            feed_byte(
                feed_byte(
                    feed_byte(r, ((r ^ 0xFFFF_FFFFu32) & 0xFF) as u8),
                    (((r ^ 0xFFFF_FFFFu32) >> 8) & 0xFF) as u8,
                ),
                (((r ^ 0xFFFF_FFFFu32) >> 16) & 0xFF) as u8,
            ),
            (((r ^ 0xFFFF_FFFFu32) >> 24) & 0xFF) as u8,
        ) ^ 0xFFFF_FFFFu32 == 0x2144_DF1Cu32,
{
    let x = r ^ 0xFFFF_FFFFu32;
    let b0 = (x & 0xFF) as u8;
    let b1 = ((x >> 8) & 0xFF) as u8;
    let b2 = ((x >> 16) & 0xFF) as u8;
    let b3 = ((x >> 24) & 0xFF) as u8;
    let c1 = feed_byte(r, b0);
    assert(c1 == (r >> 8) ^ 0x2D02_EF8Du32) by (bit_vector)
        requires
            x == r ^ 0xFFFF_FFFFu32,
            b0 == (x & 0xFF) as u8,
            c1 == feed_byte(r, b0),
    ;
    let c2 = feed_byte(c1, b1);
    assert(c2 == (r >> 16) ^ 0xBE26_12FFu32) by (bit_vector)
        requires
            x == r ^ 0xFFFF_FFFFu32,
            b1 == ((x >> 8) & 0xFF) as u8,
            c1 == (r >> 8) ^ 0x2D02_EF8Du32,
            c2 == feed_byte(c1, b1),
    ;
    let c3 = feed_byte(c2, b2);
    assert(c3 == (r >> 24) ^ 0x00BE_2612u32) by (bit_vector)
        requires
            x == r ^ 0xFFFF_FFFFu32,
            b2 == ((x >> 16) & 0xFF) as u8,
            c2 == (r >> 16) ^ 0xBE26_12FFu32,
            c3 == feed_byte(c2, b2),
    ;
    let c4 = feed_byte(c3, b3);
    assert(c4 == 0xDEBB_20E3u32) by (bit_vector)
        requires
            x == r ^ 0xFFFF_FFFFu32,
            b3 == ((x >> 24) & 0xFF) as u8,
            c3 == (r >> 24) ^ 0x00BE_2612u32,
            c4 == feed_byte(c3, b3),
    ;
    assert(0xDEBB_20E3u32 ^ 0xFFFF_FFFFu32 == 0x2144_DF1Cu32) by (bit_vector);
}

/// The checksum of a message followed by its own little-endian checksum is
/// the same constant for every message.
pub proof fn lemma_crc_residue(data: Seq<u8>)
    ensures
        crc32(sealed(data)) == RESIDUE,
{
    let r = register(data);
    let t = le_bytes(crc32(data));
    let s0 = data.push(t[0]);
    let s1 = s0.push(t[1]);
    let s2 = s1.push(t[2]);
    let s3 = s2.push(t[3]);
    assert(s3 =~= sealed(data));
    lemma_register_push(data, t[0]);
    lemma_register_push(s0, t[1]);
    lemma_register_push(s1, t[2]);
    lemma_register_push(s2, t[3]);
    lemma_residue_register(r);
}

} // verus!
