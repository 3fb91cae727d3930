use vstd::prelude::*;

verus! {

/// The two little-endian bytes of `x`.
pub open spec fn le16(x: u16) -> Seq<u8> {
    seq![(x & 0xff) as u8, ((x >> 8u16) & 0xff) as u8]
}

/// The four little-endian bytes of `x`.
pub open spec fn le32(x: u32) -> Seq<u8> {
    seq![
        (x & 0xff) as u8,
        ((x >> 8u32) & 0xff) as u8,
        ((x >> 16u32) & 0xff) as u8,
        ((x >> 24u32) & 0xff) as u8,
    ]
}

/// The eight little-endian bytes of `x`.
pub open spec fn le64(x: u64) -> Seq<u8> {
    seq![
        (x & 0xff) as u8,
        ((x >> 8u64) & 0xff) as u8,
        ((x >> 16u64) & 0xff) as u8,
        ((x >> 24u64) & 0xff) as u8,
        ((x >> 32u64) & 0xff) as u8,
        ((x >> 40u64) & 0xff) as u8,
        ((x >> 48u64) & 0xff) as u8,
        ((x >> 56u64) & 0xff) as u8,
    ]
}

/// The little-endian two's-complement bytes of a signed 32-bit value.
pub open spec fn le_i32(x: i32) -> Seq<u8> {
    le32(x as u32)
}

/// The little-endian two's-complement bytes of a signed 64-bit value.
pub open spec fn le_i64(x: i64) -> Seq<u8> {
    le64(x as u64)
}

/// The 16-bit value whose little-endian bytes start at `off` in `s`.
pub open spec fn read_le16(s: Seq<u8>, off: int) -> u16 {
    (s[off] as u16) | ((s[off + 1] as u16) << 8u16)
}

/// The 32-bit value whose little-endian bytes start at `off` in `s`.
pub open spec fn read_le32(s: Seq<u8>, off: int) -> u32 {
    (s[off] as u32) | ((s[off + 1] as u32) << 8u32) | ((s[off + 2] as u32) << 16u32) | ((s[off
        + 3] as u32) << 24u32)
}

/// The 64-bit value whose little-endian bytes start at `off` in `s`.
pub open spec fn read_le64(s: Seq<u8>, off: int) -> u64 {
    (read_le32(s, off) as u64) | ((read_le32(s, off + 4) as u64) << 32u64)
}

/// Reading back the little-endian bytes of a 16-bit value gives it.
pub proof fn lemma_le16_readback(x: u16)
    ensures
        read_le16(le16(x), 0) == x,
{
    let b0 = (x & 0xff) as u8;
    let b1 = ((x >> 8u16) & 0xff) as u8;
    assert((b0 as u16) | ((b1 as u16) << 8u16) == x) by (bit_vector)
        requires
            b0 == (x & 0xff) as u8,
            b1 == ((x >> 8u16) & 0xff) as u8,
    ;
}

/// Reading back the little-endian bytes of a 32-bit value gives it.
pub proof fn lemma_le32_readback(x: u32)
    ensures
        read_le32(le32(x), 0) == x,
{
    let b0 = (x & 0xff) as u8;
    let b1 = ((x >> 8u32) & 0xff) as u8;
    let b2 = ((x >> 16u32) & 0xff) as u8;
    let b3 = ((x >> 24u32) & 0xff) as u8;
    assert((b0 as u32) | ((b1 as u32) << 8u32) | ((b2 as u32) << 16u32) | ((b3 as u32) << 24u32)
        == x) by (bit_vector)
        requires
            b0 == (x & 0xff) as u8,
            b1 == ((x >> 8u32) & 0xff) as u8,
            b2 == ((x >> 16u32) & 0xff) as u8,
            b3 == ((x >> 24u32) & 0xff) as u8,
    ;
}

/// Reading back the little-endian bytes of a 64-bit value gives it.
pub proof fn lemma_le64_readback(x: u64)
    ensures
        read_le64(le64(x), 0) == x,
{
    let s = le64(x);
    let b0 = (x & 0xff) as u8;
    let b1 = ((x >> 8u64) & 0xff) as u8;
    let b2 = ((x >> 16u64) & 0xff) as u8;
    let b3 = ((x >> 24u64) & 0xff) as u8;
    let b4 = ((x >> 32u64) & 0xff) as u8;
    let b5 = ((x >> 40u64) & 0xff) as u8;
    let b6 = ((x >> 48u64) & 0xff) as u8;
    let b7 = ((x >> 56u64) & 0xff) as u8;
    let lo = (b0 as u32) | ((b1 as u32) << 8u32) | ((b2 as u32) << 16u32) | ((b3 as u32) << 24u32);
    let hi = (b4 as u32) | ((b5 as u32) << 8u32) | ((b6 as u32) << 16u32) | ((b7 as u32) << 24u32);
    assert(read_le32(s, 0) == lo);
    assert(read_le32(s, 4) == hi);
    assert((lo as u64) | ((hi as u64) << 32u64) == x) by (bit_vector)
        requires
            b0 == (x & 0xff) as u8,
            b1 == ((x >> 8u64) & 0xff) as u8,
            b2 == ((x >> 16u64) & 0xff) as u8,
            b3 == ((x >> 24u64) & 0xff) as u8,
            b4 == ((x >> 32u64) & 0xff) as u8,
            b5 == ((x >> 40u64) & 0xff) as u8,
            b6 == ((x >> 48u64) & 0xff) as u8,
            b7 == ((x >> 56u64) & 0xff) as u8,
            lo == (b0 as u32) | ((b1 as u32) << 8u32) | ((b2 as u32) << 16u32) | ((b3 as u32)
                << 24u32),
            hi == (b4 as u32) | ((b5 as u32) << 8u32) | ((b6 as u32) << 16u32) | ((b7 as u32)
                << 24u32),
    ;
}

/// Appends the little-endian bytes of `x`.
pub fn push_le16(v: &mut Vec<u8>, x: u16)
    ensures
        final(v)@ == old(v)@ + le16(x),
{
    v.push((x & 0xff) as u8);
    v.push(((x >> 8u16) & 0xff) as u8);
    assert(v@ =~= old(v)@ + le16(x));
}

/// Appends the little-endian bytes of `x`.
pub fn push_le32(v: &mut Vec<u8>, x: u32)
    ensures
        final(v)@ == old(v)@ + le32(x),
{
    v.push((x & 0xff) as u8);
    v.push(((x >> 8u32) & 0xff) as u8);
    v.push(((x >> 16u32) & 0xff) as u8);
    v.push(((x >> 24u32) & 0xff) as u8);
    assert(v@ =~= old(v)@ + le32(x));
}

/// Appends the little-endian bytes of `x`.
pub fn push_le64(v: &mut Vec<u8>, x: u64)
    ensures
        final(v)@ == old(v)@ + le64(x),
{
    v.push((x & 0xff) as u8);
    v.push(((x >> 8u64) & 0xff) as u8);
    v.push(((x >> 16u64) & 0xff) as u8);
    v.push(((x >> 24u64) & 0xff) as u8);
    v.push(((x >> 32u64) & 0xff) as u8);
    v.push(((x >> 40u64) & 0xff) as u8);
    v.push(((x >> 48u64) & 0xff) as u8);
    v.push(((x >> 56u64) & 0xff) as u8);
    assert(v@ =~= old(v)@ + le64(x));
}

/// Appends the little-endian two's-complement bytes of `x`.
pub fn push_le_i32(v: &mut Vec<u8>, x: i32)
    ensures
        final(v)@ == old(v)@ + le_i32(x),
{
    push_le32(v, x as u32);
}

/// Appends the little-endian two's-complement bytes of `x`.
pub fn push_le_i64(v: &mut Vec<u8>, x: i64)
    ensures
        final(v)@ == old(v)@ + le_i64(x),
{
    push_le64(v, x as u64);
}

/// Appends all of `bytes`.
pub fn push_all(v: &mut Vec<u8>, bytes: &[u8])
    ensures
        final(v)@ == old(v)@ + bytes@,
{
    let mut i: usize = 0;
    while i < bytes.len()
        invariant
            i <= bytes@.len(),
            v@ == old(v)@ + bytes@.subrange(0, i as int),
        decreases bytes@.len() - i,
    {
        v.push(bytes[i]);
        i = i + 1;
        assert(v@ =~= old(v)@ + bytes@.subrange(0, i as int));
    }
    assert(bytes@.subrange(0, bytes@.len() as int) =~= bytes@);
}

/// A 16-bit value read inside a slice of `s` is the one read at the same place in `s`.
pub proof fn lemma_read_le16_sub(s: Seq<u8>, start: int, end: int, off: int)
    requires
        0 <= start,
        0 <= off,
        start + off + 2 <= end <= s.len(),
    ensures
        read_le16(s, start + off) == read_le16(s.subrange(start, end), off),
{
    let t = s.subrange(start, end);
    assert(t[off] == s[start + off] && t[off + 1] == s[start + off + 1]);
}

/// A 64-bit value read inside a slice of `s` is the one read at the same place in `s`.
pub proof fn lemma_read_le64_sub(s: Seq<u8>, start: int, end: int, off: int)
    requires
        0 <= start,
        0 <= off,
        start + off + 8 <= end <= s.len(),
    ensures
        read_le64(s, start + off) == read_le64(s.subrange(start, end), off),
{
    let t = s.subrange(start, end);
    assert(t[off] == s[start + off] && t[off + 1] == s[start + off + 1]);
    assert(t[off + 2] == s[start + off + 2] && t[off + 3] == s[start + off + 3]);
    assert(t[off + 4] == s[start + off + 4] && t[off + 5] == s[start + off + 5]);
    assert(t[off + 6] == s[start + off + 6] && t[off + 7] == s[start + off + 7]);
    assert(read_le32(s, start + off) == read_le32(t, off));
    assert(read_le32(s, start + off + 4) == read_le32(t, off + 4));
}

/// A 32-bit value read inside a slice of `s` is the one read at the same place in `s`.
pub proof fn lemma_read_le32_sub(s: Seq<u8>, start: int, end: int, off: int)
    requires
        0 <= start,
        0 <= off,
        start + off + 4 <= end <= s.len(),
    ensures
        read_le32(s, start + off) == read_le32(s.subrange(start, end), off),
{
    let t = s.subrange(start, end);
    assert(t[off] == s[start + off] && t[off + 1] == s[start + off + 1]);
    assert(t[off + 2] == s[start + off + 2] && t[off + 3] == s[start + off + 3]);
}

} // verus!
