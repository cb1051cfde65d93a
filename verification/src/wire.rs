//! The size header that opens every transfer: the payload length as eight
//! little-endian bytes.
use vstd::prelude::*;

verus! {

/// Length in bytes of the size header.
pub const HEADER_LEN: usize = 8;

/// The eight little-endian bytes of `x`, least significant first.
pub open spec fn le_bytes(x: u64) -> Seq<u8> {
    seq![
        (x & 0xff) as u8,
        ((x >> 8u64) & 0xff) as u8,
        ((x >> 16u64) & 0xff) as u8,
        ((x >> 24u64) & 0xff) as u8,
        ((x >> 32u64) & 0xff) as u8,
        ((x >> 40u64) & 0xff) as u8,
        ((x >> 48u64) & 0xff) as u8,
        ((x >> 56u64) & 0xff) as u8,
    ]
}

/// The integer whose little-endian bytes are the first eight of `b`.
pub open spec fn le_value(b: Seq<u8>) -> u64
    recommends
        b.len() == 8,
{
    (b[0] as u64) | ((b[1] as u64) << 8u64) | ((b[2] as u64) << 16u64) | ((b[3] as u64) << 24u64)
        | ((b[4] as u64) << 32u64) | ((b[5] as u64) << 40u64) | ((b[6] as u64) << 48u64) | ((
    b[7] as u64) << 56u64)
}

/// Encodes a payload size as the header that announces it.
pub fn encode_size(x: u64) -> (b: [u8; 8])
    ensures
        b@ == le_bytes(x),
        b[0] == x % 256,
        b[1] == (x / 256) % 256,
        b[2] == (x / 65536) % 256,
        b[3] == (x / 16777216) % 256,
        b[4] == (x / 4294967296) % 256,
        b[5] == (x / 1099511627776) % 256,
        b[6] == (x / 281474976710656) % 256,
        b[7] == x / 72057594037927936,
{
    let b: [u8; 8] = [
        (x & 0xff) as u8,
        ((x >> 8u64) & 0xff) as u8,
        ((x >> 16u64) & 0xff) as u8,
        ((x >> 24u64) & 0xff) as u8,
        ((x >> 32u64) & 0xff) as u8,
        ((x >> 40u64) & 0xff) as u8,
        ((x >> 48u64) & 0xff) as u8,
        ((x >> 56u64) & 0xff) as u8,
    ];
    assert(b@ =~= le_bytes(x));
    proof {
        lemma_le_bytes_digits(x);
    }
    b
}

/// Decodes a header into the payload size it announces.
pub fn decode_size(b: [u8; 8]) -> (x: u64)
    ensures
        x == le_value(b@),
        x == b[0] + 256 * b[1] + 65536 * b[2] + 16777216 * b[3] + 4294967296 * b[4]
            + 1099511627776 * b[5] + 281474976710656 * b[6] + 72057594037927936 * b[7],
{
    proof {
        lemma_le_value_sum(b@);
    }
    (b[0] as u64) | ((b[1] as u64) << 8u64) | ((b[2] as u64) << 16u64) | ((b[3] as u64) << 24u64)
        | ((b[4] as u64) << 32u64) | ((b[5] as u64) << 40u64) | ((b[6] as u64) << 48u64) | ((
    b[7] as u64) << 56u64)
}

/// Decoding the header of a size gives that size back: what a receiver reads
/// from the header is what the sender announced.
pub proof fn lemma_decode_encode(x: u64)
    ensures
        le_bytes(x).len() == 8,
        le_value(le_bytes(x)) == x,
{
    let b = le_bytes(x);
    let b0 = b[0];
    let b1 = b[1];
    let b2 = b[2];
    let b3 = b[3];
    let b4 = b[4];
    let b5 = b[5];
    let b6 = b[6];
    let b7 = b[7];
    assert(b0 == (x & 0xff) as u8 && b1 == ((x >> 8u64) & 0xff) as u8 && b2 == ((x >> 16u64)
        & 0xff) as u8 && b3 == ((x >> 24u64) & 0xff) as u8 && b4 == ((x >> 32u64) & 0xff) as u8
        && b5 == ((x >> 40u64) & 0xff) as u8 && b6 == ((x >> 48u64) & 0xff) as u8 && b7 == ((x
        >> 56u64) & 0xff) as u8);
    assert(
        (b0 == (x & 0xff) as u8 && b1 == ((x >> 8u64) & 0xff) as u8 && b2 == ((x >> 16u64) & 0xff) as u8
        && b3 == ((x >> 24u64) & 0xff) as u8 && b4 == ((x >> 32u64) & 0xff) as u8
        && b5 == ((x >> 40u64) & 0xff) as u8 && b6 == ((x >> 48u64) & 0xff) as u8
        && b7 == ((x >> 56u64) & 0xff) as u8)
        ==> ((b0 as u64) | ((b1 as u64) << 8u64) | ((b2 as u64) << 16u64) | ((b3 as u64) << 24u64)
        | ((b4 as u64) << 32u64) | ((b5 as u64) << 40u64) | ((b6 as u64) << 48u64) | ((b7 as u64)
        << 56u64)) == x
    ) by (bit_vector);
}

/// Encoding the size that a header announces gives that header back: a
/// header is determined by the size it announces.
pub proof fn lemma_encode_decode(b: Seq<u8>)
    requires
        b.len() == 8,
    ensures
        le_bytes(le_value(b)) == b,
{
    let x = le_value(b);
    let b0 = b[0];
    let b1 = b[1];
    let b2 = b[2];
    let b3 = b[3];
    let b4 = b[4];
    let b5 = b[5];
    let b6 = b[6];
    let b7 = b[7];
    assert(x == (b0 as u64) | ((b1 as u64) << 8u64) | ((b2 as u64) << 16u64) | ((b3 as u64)
        << 24u64) | ((b4 as u64) << 32u64) | ((b5 as u64) << 40u64) | ((b6 as u64) << 48u64) | ((
    b7 as u64) << 56u64));
    assert(
        x == (b0 as u64) | ((b1 as u64) << 8u64) | ((b2 as u64) << 16u64) | ((b3 as u64) << 24u64)
        | ((b4 as u64) << 32u64) | ((b5 as u64) << 40u64) | ((b6 as u64) << 48u64) | ((b7 as u64)
        << 56u64)
        ==> b0 == (x & 0xff) as u8 && b1 == ((x >> 8u64) & 0xff) as u8 && b2 == ((x >> 16u64)
        & 0xff) as u8 && b3 == ((x >> 24u64) & 0xff) as u8 && b4 == ((x >> 32u64) & 0xff) as u8
        && b5 == ((x >> 40u64) & 0xff) as u8 && b6 == ((x >> 48u64) & 0xff) as u8 && b7 == ((x
        >> 56u64) & 0xff) as u8
    ) by (bit_vector);
    assert(le_bytes(x) =~= b);
}

/// Byte `k` of the header of `x` is the `k`-th base-256 digit of `x`,
/// least significant first.
pub proof fn lemma_le_bytes_digits(x: u64)
    ensures
        le_bytes(x).len() == 8,
        le_bytes(x)[0] == x % 256,
        le_bytes(x)[1] == (x / 256) % 256,
        le_bytes(x)[2] == (x / 65536) % 256,
        le_bytes(x)[3] == (x / 16777216) % 256,
        le_bytes(x)[4] == (x / 4294967296) % 256,
        le_bytes(x)[5] == (x / 1099511627776) % 256,
        le_bytes(x)[6] == (x / 281474976710656) % 256,
        le_bytes(x)[7] == x / 72057594037927936,
{
    assert((x & 0xff) == x % 256 && ((x >> 8u64) & 0xff) == (x / 256) % 256 && ((x >> 16u64)
        & 0xff) == (x / 65536) % 256 && ((x >> 24u64) & 0xff) == (x / 16777216) % 256 && ((x
        >> 32u64) & 0xff) == (x / 4294967296) % 256 && ((x >> 40u64) & 0xff) == (x
        / 1099511627776) % 256 && ((x >> 48u64) & 0xff) == (x / 281474976710656) % 256 && ((x
        >> 56u64) & 0xff) == x / 72057594037927936) by (bit_vector);
}

/// The size a header announces is its bytes read as base-256 digits, least
/// significant first.
pub proof fn lemma_le_value_sum(b: Seq<u8>)
    requires
        b.len() == 8,
    ensures
        le_value(b) == b[0] + 256 * b[1] + 65536 * b[2] + 16777216 * b[3] + 4294967296 * b[4]
            + 1099511627776 * b[5] + 281474976710656 * b[6] + 72057594037927936 * b[7],
{
    let b0 = b[0];
    let b1 = b[1];
    let b2 = b[2];
    let b3 = b[3];
    let b4 = b[4];
    let b5 = b[5];
    let b6 = b[6];
    let b7 = b[7];
    assert((b0 as u64) | ((b1 as u64) << 8u64) | ((b2 as u64) << 16u64) | ((b3 as u64) << 24u64)
        | ((b4 as u64) << 32u64) | ((b5 as u64) << 40u64) | ((b6 as u64) << 48u64) | ((b7 as u64)
        << 56u64) == b0 + 256 * b1 + 65536 * b2 + 16777216 * b3 + 4294967296 * b4 + 1099511627776
        * b5 + 281474976710656 * b6 + 72057594037927936 * b7) by (bit_vector);
}

} // verus!
