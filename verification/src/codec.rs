//! Little-endian field codec.
//!
//! Every multi-byte field of the on-disk structures is little-endian and
//! is decoded field by field; nothing is reinterpreted from raw bytes.

use vstd::prelude::*;

verus! {

/// The value of a 2-byte little-endian field.
pub open spec fn le16(s: Seq<u8>) -> int
    recommends
        s.len() == 2,
{
    s[0] + 0x100 * s[1]
}

/// The value of a 4-byte little-endian field.
pub open spec fn le32(s: Seq<u8>) -> int
    recommends
        s.len() == 4,
{
    s[0] + 0x100 * s[1] + 0x10000 * s[2] + 0x1000000 * s[3]
}

/// The 2 little-endian bytes of a value below 2^16.
pub open spec fn le16_bytes(x: int) -> Seq<u8> {
    seq![(x % 0x100) as u8, ((x / 0x100) % 0x100) as u8]
}

/// The 4 little-endian bytes of a value below 2^32.
pub open spec fn le32_bytes(x: int) -> Seq<u8> {
    seq![
        (x % 0x100) as u8,
        ((x / 0x100) % 0x100) as u8,
        ((x / 0x10000) % 0x100) as u8,
        ((x / 0x1000000) % 0x100) as u8,
    ]
}

/// Decodes a 2-byte little-endian field.
pub fn arr_to_u16(arr: [u8; 2]) -> (r: u16)
    ensures
        r == le16(arr@),
{
    (arr[0] as u16) + 0x100 * (arr[1] as u16)
}

/// Decodes a 4-byte little-endian field.
pub fn arr_to_u32(arr: [u8; 4]) -> (r: u32)
    ensures
        r == le32(arr@),
{
    (arr[0] as u32) + 0x100 * (arr[1] as u32) + 0x10000 * (arr[2] as u32) + 0x1000000 * (arr[3]
        as u32)
}

/// Decodes a 4-byte little-endian field given as an array.
///
/// The file allocation table stores its entries this way; the chain
/// walk reads them through this function.
pub fn arr_to_u32_le(arr: [u8; 4]) -> (r: u32)
    ensures
        r == le32(arr@),
{
    arr_to_u32(arr)
}

/// Decodes the first 4 bytes of a slice as a little-endian field.
pub fn sl_to_u32(sl: &[u8]) -> (r: u32)
    requires
        sl@.len() >= 4,
    ensures
        r == le32(sl@.subrange(0, 4)),
{
    let r = (sl[0] as u32) + 0x100 * (sl[1] as u32) + 0x10000 * (sl[2] as u32) + 0x1000000 * (sl[3]
        as u32);
    proof {
        assert(sl@.subrange(0, 4)[0] == sl@[0]);
        assert(sl@.subrange(0, 4)[1] == sl@[1]);
        assert(sl@.subrange(0, 4)[2] == sl@[2]);
        assert(sl@.subrange(0, 4)[3] == sl@[3]);
    }
    r
}

/// Encodes a value as a 2-byte little-endian field.
pub fn u16_to_arr(x: u16) -> (r: [u8; 2])
    ensures
        r@ == le16_bytes(x as int),
{
    let r = [(x % 0x100) as u8, (x / 0x100) as u8];
    proof {
        assert(r@ =~= le16_bytes(x as int));
    }
    r
}

/// Encodes a value as a 4-byte little-endian field.
pub fn u32_to_arr(x: u32) -> (r: [u8; 4])
    ensures
        r@ == le32_bytes(x as int),
{
    let r = [(x % 0x100) as u8, ((x / 0x100) % 0x100) as u8, ((x / 0x10000) % 0x100) as u8, (x
        / 0x1000000) as u8];
    proof {
        assert(r@ =~= le32_bytes(x as int));
    }
    r
}

/// Copies the 2 bytes at `off` out of a buffer.
pub fn bytes2(v: &Vec<u8>, off: usize) -> (r: [u8; 2])
    requires
        off + 2 <= v@.len(),
    ensures
        r@ == v@.subrange(off as int, off + 2),
{
    let n: usize = v.len();
    assert(off + 2 <= n);
    let r = [v[off], v[off + 1]];
    proof {
        assert(r@ =~= v@.subrange(off as int, off + 2));
    }
    r
}

/// Copies the 3 bytes at `off` out of a buffer.
pub fn bytes3(v: &Vec<u8>, off: usize) -> (r: [u8; 3])
    requires
        off + 3 <= v@.len(),
    ensures
        r@ == v@.subrange(off as int, off + 3),
{
    let n: usize = v.len();
    assert(off + 3 <= n);
    let r = [v[off], v[off + 1], v[off + 2]];
    proof {
        assert(r@ =~= v@.subrange(off as int, off + 3));
    }
    r
}

/// Copies the 4 bytes at `off` out of a buffer.
pub fn bytes4(v: &Vec<u8>, off: usize) -> (r: [u8; 4])
    requires
        off + 4 <= v@.len(),
    ensures
        r@ == v@.subrange(off as int, off + 4),
{
    let n: usize = v.len();
    assert(off + 4 <= n);
    let r = [v[off], v[off + 1], v[off + 2], v[off + 3]];
    proof {
        assert(r@ =~= v@.subrange(off as int, off + 4));
    }
    r
}

/// Copies the 8 bytes at `off` out of a buffer.
pub fn bytes8(v: &Vec<u8>, off: usize) -> (r: [u8; 8])
    requires
        off + 8 <= v@.len(),
    ensures
        r@ == v@.subrange(off as int, off + 8),
{
    let n: usize = v.len();
    assert(off + 8 <= n);
    let r = [v[off], v[off + 1], v[off + 2], v[off + 3], v[off + 4], v[off + 5], v[off + 6], v[off
        + 7]];
    proof {
        assert(r@ =~= v@.subrange(off as int, off + 8));
    }
    r
}

/// Copies the 11 bytes at `off` out of a buffer.
pub fn bytes11(v: &Vec<u8>, off: usize) -> (r: [u8; 11])
    requires
        off + 11 <= v@.len(),
    ensures
        r@ == v@.subrange(off as int, off + 11),
{
    let n: usize = v.len();
    assert(off + 11 <= n);
    let r = [
        v[off],
        v[off + 1],
        v[off + 2],
        v[off + 3],
        v[off + 4],
        v[off + 5],
        v[off + 6],
        v[off + 7],
        v[off + 8],
        v[off + 9],
        v[off + 10],
    ];
    proof {
        assert(r@ =~= v@.subrange(off as int, off + 11));
    }
    r
}

/// Law: decoding a 2-byte little-endian field and re-encoding the value
/// reproduces the original bytes.
pub proof fn lemma_le16_round_trip(s: Seq<u8>)
    requires
        s.len() == 2,
    ensures
        le16_bytes(le16(s)) == s,
{
    let x = le16(s);
    assert(x % 0x100 == s[0] && (x / 0x100) % 0x100 == s[1]) by (nonlinear_arith)
        requires
            x == s[0] + 0x100 * s[1],
            0 <= s[0] < 0x100,
            0 <= s[1] < 0x100,
    ;
    assert(le16_bytes(x) =~= s);
}

/// Law: decoding a 4-byte little-endian field and re-encoding the value
/// reproduces the original bytes.
pub proof fn lemma_le32_round_trip(s: Seq<u8>)
    requires
        s.len() == 4,
    ensures
        le32_bytes(le32(s)) == s,
{
    let x = le32(s);
    assert(x % 0x100 == s[0] && (x / 0x100) % 0x100 == s[1] && (x / 0x10000) % 0x100 == s[2] && (x
        / 0x1000000) % 0x100 == s[3]) by (nonlinear_arith)
        requires
            x == s[0] + 0x100 * s[1] + 0x10000 * s[2] + 0x1000000 * s[3],
            0 <= s[0] < 0x100,
            0 <= s[1] < 0x100,
            0 <= s[2] < 0x100,
            0 <= s[3] < 0x100,
    ;
    assert(le32_bytes(x) =~= s);
}

} // verus!
