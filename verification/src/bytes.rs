//! Byte-level encodings of the integers that travel over the bus.
//!
//! The chip speaks little-endian in its SDPCM, CDC and BDC headers and
//! big-endian in its event frames. Everything here is stated over plain
//! arithmetic on the integer's value, so that the encodings can be reasoned
//! about without bit-vector proofs.

use vstd::prelude::*;

verus! {

/// The two bytes of `x`, least significant first.
pub open spec fn le16(x: u16) -> Seq<u8> {
    seq![(x % 256) as u8, (x / 256) as u8]
}

/// The four bytes of `x`, least significant first.
pub open spec fn le32(x: u32) -> Seq<u8> {
    seq![
        (x % 256) as u8,
        (x / 256 % 256) as u8,
        (x / 65536 % 256) as u8,
        (x / 16777216) as u8,
    ]
}

/// The integer whose little-endian encoding is the two bytes `s`.
pub open spec fn le16_value(s: Seq<u8>) -> u16
    recommends
        s.len() == 2,
{
    (s[0] + s[1] * 256) as u16
}

/// The integer whose little-endian encoding is the four bytes `s`.
pub open spec fn le32_value(s: Seq<u8>) -> u32
    recommends
        s.len() == 4,
{
    (s[0] + s[1] * 256 + s[2] * 65536 + s[3] * 16777216) as u32
}

/// `x` with its two bytes exchanged.
pub open spec fn swapped16(x: u16) -> u16 {
    ((x % 256) * 256 + x / 256) as u16
}

/// `x` with its four bytes in reverse order.
pub open spec fn swapped32(x: u32) -> u32 {
    ((x % 256) * 16777216 + (x / 256 % 256) * 65536 + (x / 65536 % 256) * 256 + x / 16777216) as u32
}

/// The two's-complement bit pattern of `x`, read as an unsigned integer.
pub open spec fn i32_bits(x: i32) -> u32 {
    if x >= 0 {
        x as u32
    } else {
        (x + 0x1_0000_0000) as u32
    }
}

/// The signed integer whose two's-complement bit pattern is `x`.
pub open spec fn i32_of_bits(x: u32) -> i32 {
    if x < 0x8000_0000 {
        x as i32
    } else {
        (x - 0x1_0000_0000) as i32
    }
}

/// `n` zero bytes; none where `n` is negative.
pub open spec fn zeros(n: int) -> Seq<u8> {
    Seq::new(
        if n > 0 {
            n as nat
        } else {
            0
        },
        |i: int| 0u8,
    )
}

/// `buf` with the bytes from `pos` on replaced by `src`.
pub open spec fn overwrite(buf: Seq<u8>, pos: int, src: Seq<u8>) -> Seq<u8>
    recommends
        0 <= pos,
        pos + src.len() <= buf.len(),
{
    buf.subrange(0, pos) + src + buf.subrange(pos + src.len(), buf.len() as int)
}

/// The four bytes of a 32-bit value put it together again.
proof fn lemma_split32(x: u32)
    by (bit_vector)
    ensures
        x % 256 + (x / 256 % 256) * 256 + (x / 65536 % 256) * 65536 + (x / 16777216) * 16777216
            == x,
        x / 16777216 < 256,
{
}

/// Four bytes put together are a 32-bit value, which has them as its bytes.
proof fn lemma_join32(b0: u8, b1: u8, b2: u8, b3: u8)
    by (bit_vector)
    ensures
        b0 + b1 * 256 + b2 * 65536 + b3 * 16777216 <= 0xffff_ffff,
        (b0 + b1 * 256 + b2 * 65536 + b3 * 16777216) % 256 == b0,
        (b0 + b1 * 256 + b2 * 65536 + b3 * 16777216) / 256 % 256 == b1,
        (b0 + b1 * 256 + b2 * 65536 + b3 * 16777216) / 65536 % 256 == b2,
        (b0 + b1 * 256 + b2 * 65536 + b3 * 16777216) / 16777216 == b3,
{
}

/// Decoding undoes encoding, for 16-bit values.
pub proof fn lemma_le16_value_of_le16(x: u16)
    ensures
        le16(x).len() == 2,
        le16_value(le16(x)) == x,
{
}

/// Encoding undoes decoding, for any two bytes.
pub proof fn lemma_le16_of_le16_value(s: Seq<u8>)
    requires
        s.len() == 2,
    ensures
        le16(le16_value(s)) == s,
{
    assert(le16(le16_value(s)) =~= s);
}

/// Decoding undoes encoding, for 32-bit values.
pub proof fn lemma_le32_value_of_le32(x: u32)
    ensures
        le32(x).len() == 4,
        le32_value(le32(x)) == x,
{
    lemma_split32(x);
}

/// Encoding undoes decoding, for any four bytes.
pub proof fn lemma_le32_of_le32_value(s: Seq<u8>)
    requires
        s.len() == 4,
    ensures
        le32(le32_value(s)) == s,
{
    lemma_join32(s[0], s[1], s[2], s[3]);
    assert(le32(le32_value(s)) =~= s);
}

/// Two 16-bit values with the same encoding are the same value.
pub proof fn lemma_le16_injective(x: u16, y: u16)
    requires
        le16(x) == le16(y),
    ensures
        x == y,
{
    lemma_le16_value_of_le16(x);
    lemma_le16_value_of_le16(y);
}

/// Two 32-bit values with the same encoding are the same value.
pub proof fn lemma_le32_injective(x: u32, y: u32)
    requires
        le32(x) == le32(y),
    ensures
        x == y,
{
    lemma_le32_value_of_le32(x);
    lemma_le32_value_of_le32(y);
}

/// Exchanging the bytes of a 16-bit value reverses its encoding, and doing
/// it twice gives the value back.
pub proof fn lemma_swapped16(x: u16)
    ensures
        le16(swapped16(x)) == le16(x).reverse(),
        swapped16(swapped16(x)) == x,
{
    assert(le16(swapped16(x)) =~= le16(x).reverse());
}

/// The bytes of a reversed 32-bit value, one by one.
proof fn lemma_swapped32_bytes(x: u32)
    by (bit_vector)
    ensures
        swapped32(x) % 256 == x / 16777216,
        swapped32(x) / 256 % 256 == x / 65536 % 256,
        swapped32(x) / 65536 % 256 == x / 256 % 256,
        swapped32(x) / 16777216 == x % 256,
        swapped32(swapped32(x)) == x,
{
}

/// Reversing the bytes of a 32-bit value reverses its encoding, and doing
/// it twice gives the value back.
pub proof fn lemma_swapped32(x: u32)
    ensures
        le32(swapped32(x)) == le32(x).reverse(),
        swapped32(swapped32(x)) == x,
{
    lemma_swapped32_bytes(x);
    assert(le32(swapped32(x)) =~= le32(x).reverse());
}

/// A signed value survives the trip through its bit pattern.
pub proof fn lemma_i32_bits(x: i32)
    ensures
        i32_of_bits(i32_bits(x)) == x,
{
}

/// A bit pattern survives the trip through the signed value it stands for.
pub proof fn lemma_i32_of_bits(x: u32)
    ensures
        i32_bits(i32_of_bits(x)) == x,
{
}

/// Exchanges the two bytes of `x`.
pub fn swap16(x: u16) -> (r: u16)
    ensures
        r == swapped16(x),
{
    (x % 256) * 256 + x / 256
}

/// Reverses the four bytes of `x`.
pub fn swap32(x: u32) -> (r: u32)
    ensures
        r == swapped32(x),
{
    (x % 256) * 16777216 + (x / 256 % 256) * 65536 + (x / 65536 % 256) * 256 + x / 16777216
}

/// The bit pattern of a signed 32-bit value.
pub fn bits_of_i32(x: i32) -> (r: u32)
    ensures
        r == i32_bits(x),
{
    if x >= 0 {
        x as u32
    } else {
        (x as i64 + 0x1_0000_0000) as u32
    }
}

/// The signed 32-bit value of a bit pattern.
pub fn i32_from_bits(x: u32) -> (r: i32)
    ensures
        r == i32_of_bits(x),
{
    if x < 0x8000_0000 {
        x as i32
    } else {
        (x as i64 - 0x1_0000_0000) as i32
    }
}

/// Copies `src` into `buf`, starting at `pos`.
pub fn put_bytes(buf: &mut [u8], pos: usize, src: &[u8])
    requires
        pos + src@.len() <= old(buf)@.len(),
    ensures
        final(buf)@ == overwrite(old(buf)@, pos as int, src@),
{
    let n: usize = src.len();
    let total: usize = buf.len();
    let mut i: usize = 0;
    while i < n
        invariant
            i <= n,
            n == src@.len(),
            total == buf@.len(),
            buf@.len() == old(buf)@.len(),
            pos + n <= total,
            forall|j: int|
                0 <= j < buf@.len() ==> buf@[j] == if pos <= j < pos + i {
                    src@[j - pos]
                } else {
                    old(buf)@[j]
                },
        decreases n - i,
    {
        buf[pos + i] = src[i];
        i += 1;
    }
    assert(buf@ =~= overwrite(old(buf)@, pos as int, src@));
}

/// Writes `x` into `buf` at `pos`, little-endian.
pub fn put_u16(buf: &mut [u8], pos: usize, x: u16)
    requires
        pos + 2 <= old(buf)@.len(),
    ensures
        final(buf)@ == overwrite(old(buf)@, pos as int, le16(x)),
{
    buf[pos] = (x % 256) as u8;
    buf[pos + 1] = (x / 256) as u8;
    assert(buf@ =~= overwrite(old(buf)@, pos as int, le16(x)));
}

/// Writes `x` into `buf` at `pos`, little-endian.
pub fn put_u32(buf: &mut [u8], pos: usize, x: u32)
    requires
        pos + 4 <= old(buf)@.len(),
    ensures
        final(buf)@ == overwrite(old(buf)@, pos as int, le32(x)),
{
    buf[pos] = (x % 256) as u8;
    buf[pos + 1] = (x / 256 % 256) as u8;
    buf[pos + 2] = (x / 65536 % 256) as u8;
    buf[pos + 3] = (x / 16777216) as u8;
    assert(buf@ =~= overwrite(old(buf)@, pos as int, le32(x)));
}

/// Reads the little-endian 16-bit value at `pos`.
pub fn get_u16(buf: &[u8], pos: usize) -> (x: u16)
    requires
        pos + 2 <= buf@.len(),
    ensures
        x == le16_value(buf@.subrange(pos as int, pos + 2)),
        le16(x) == buf@.subrange(pos as int, pos + 2),
{
    let lo: u16 = buf[pos] as u16;
    let hi: u16 = buf[pos + 1] as u16;
    let x: u16 = lo + hi * 256;
    assert(le16(x) =~= buf@.subrange(pos as int, pos + 2));
    x
}

/// Reads the little-endian 32-bit value at `pos`.
pub fn get_u32(buf: &[u8], pos: usize) -> (x: u32)
    requires
        pos + 4 <= buf@.len(),
    ensures
        x == le32_value(buf@.subrange(pos as int, pos + 4)),
        le32(x) == buf@.subrange(pos as int, pos + 4),
{
    let b0: u32 = buf[pos] as u32;
    let b1: u32 = buf[pos + 1] as u32;
    let b2: u32 = buf[pos + 2] as u32;
    let b3: u32 = buf[pos + 3] as u32;
    proof {
        lemma_join32(buf@[pos as int], buf@[pos + 1], buf@[pos + 2], buf@[pos + 3]);
    }
    let x: u32 = b0 + b1 * 256 + b2 * 65536 + b3 * 16777216;
    assert(le32(x) =~= buf@.subrange(pos as int, pos + 4));
    x
}

/// Fills `dst` with the bytes of `src` that start at `pos`.
pub fn get_bytes(dst: &mut [u8], src: &[u8], pos: usize)
    requires
        pos + old(dst)@.len() <= src@.len(),
    ensures
        final(dst)@ == src@.subrange(pos as int, pos + old(dst)@.len()),
{
    let n: usize = dst.len();
    let total: usize = src.len();
    let mut i: usize = 0;
    while i < n
        invariant
            i <= n,
            n == dst@.len(),
            dst@.len() == old(dst)@.len(),
            total == src@.len(),
            pos + n <= total,
            forall|j: int| 0 <= j < i ==> dst@[j] == src@[pos + j],
        decreases n - i,
    {
        dst[i] = src[pos + i];
        i += 1;
    }
    assert(dst@ =~= src@.subrange(pos as int, pos + old(dst)@.len()));
}

/// Appends `src` to `v`.
pub fn append_bytes(v: &mut Vec<u8>, src: &[u8])
    ensures
        final(v)@ == old(v)@ + src@,
{
    let n: usize = src.len();
    let mut i: usize = 0;
    while i < n
        invariant
            i <= n,
            n == src@.len(),
            v@ == old(v)@ + src@.subrange(0, i as int),
        decreases n - i,
    {
        v.push(src[i]);
        i += 1;
        assert(v@ =~= old(v)@ + src@.subrange(0, i as int));
    }
    assert(src@.subrange(0, n as int) =~= src@);
}

/// A fresh copy of `src`.
pub fn copy_bytes(src: &[u8]) -> (v: Vec<u8>)
    ensures
        v@ == src@,
{
    let mut v: Vec<u8> = Vec::new();
    append_bytes(&mut v, src);
    assert(v@ =~= src@);
    v
}

/// Appends `n` zero bytes to `v`.
pub fn append_zeros(v: &mut Vec<u8>, n: usize)
    ensures
        final(v)@ == old(v)@ + Seq::new(n as nat, |i: int| 0u8),
{
    let mut i: usize = 0;
    while i < n
        invariant
            i <= n,
            v@ == old(v)@ + Seq::new(i as nat, |j: int| 0u8),
        decreases n - i,
    {
        v.push(0);
        i += 1;
        assert(v@ =~= old(v)@ + Seq::new(i as nat, |j: int| 0u8));
    }
}

} // verus!
