//! Little-endian wire primitives shared by every protocol module: byte
//! encodings of 16- and 32-bit words, signed-field conversions, and the
//! 4-byte padding rule of the X11 wire format.

use vstd::prelude::*;

verus! {

/// The two little-endian bytes of a 16-bit word.
pub open spec fn u16_le(v: u16) -> Seq<u8> {
    seq![(v & 0xff) as u8, ((v >> 8) & 0xff) as u8]
}

/// The four little-endian bytes of a 32-bit word.
pub open spec fn u32_le(v: u32) -> Seq<u8> {
    seq![
        (v & 0xff) as u8,
        ((v >> 8) & 0xff) as u8,
        ((v >> 16) & 0xff) as u8,
        ((v >> 24) & 0xff) as u8,
    ]
}

/// The 16-bit word encoded by two little-endian bytes.
pub open spec fn u16_from(b0: u8, b1: u8) -> u16 {
    (b0 as u16) | ((b1 as u16) << 8)
}

/// The 32-bit word encoded by four little-endian bytes.
pub open spec fn u32_from(b0: u8, b1: u8, b2: u8, b3: u8) -> u32 {
    (b0 as u32) | ((b1 as u32) << 8) | ((b2 as u32) << 16) | ((b3 as u32) << 24)
}

/// The 16-bit word stored at offset `i` of `s`.
pub open spec fn u16_at(s: Seq<u8>, i: int) -> u16 {
    u16_from(s[i], s[i + 1])
}

/// The 32-bit word stored at offset `i` of `s`.
pub open spec fn u32_at(s: Seq<u8>, i: int) -> u32 {
    u32_from(s[i], s[i + 1], s[i + 2], s[i + 3])
}

/// `n` rounded up to the next multiple of four, the padding rule for
/// variable-length fields on the wire.
pub open spec fn pad4(n: int) -> int {
    ((n + 3) / 4) * 4
}

/// Two's-complement reading of a 16-bit word as a signed field.
pub open spec fn u16_as_i16(v: u16) -> i16 {
    if v < 0x8000 {
        v as i16
    } else {
        (v - 0x10000) as i16
    }
}

/// Two's-complement encoding of a signed 16-bit field.
pub open spec fn i16_as_u16(x: i16) -> u16 {
    if x >= 0 {
        x as u16
    } else {
        (x + 0x10000) as u16
    }
}

/// Two's-complement reading of a 32-bit word as a signed field.
pub open spec fn u32_as_i32(v: u32) -> i32 {
    if v < 0x8000_0000 {
        v as i32
    } else {
        (v - 0x1_0000_0000) as i32
    }
}

/// Two's-complement encoding of a signed 32-bit field.
pub open spec fn i32_as_u32(x: i32) -> u32 {
    if x >= 0 {
        x as u32
    } else {
        (x + 0x1_0000_0000) as u32
    }
}

/// The little-endian bytes of a list of 32-bit words, packed contiguously.
pub open spec fn u32_list_le(xs: Seq<u32>) -> Seq<u8> {
    Seq::new((4 * xs.len()) as nat, |i: int| u32_le(xs[i / 4])[i % 4])
}

/// The `count` 32-bit words packed at offset `off` of `s`.
pub open spec fn u32_list_at(s: Seq<u8>, off: int, count: int) -> Seq<u32> {
    Seq::new(count as nat, |i: int| u32_at(s, off + 4 * i))
}

/// Reading back the two bytes of `u16_le` recovers the word.
pub proof fn lemma_u16_le_from(v: u16)
    ensures
        u16_from(u16_le(v)[0], u16_le(v)[1]) == v,
{
    assert(((v & 0xff) as u8 as u16) | ((((v >> 8) & 0xff) as u8 as u16) << 8) == v)
        by (bit_vector);
}

/// Reading back the four bytes of `u32_le` recovers the word.
pub proof fn lemma_u32_le_from(v: u32)
    ensures
        u32_from(u32_le(v)[0], u32_le(v)[1], u32_le(v)[2], u32_le(v)[3]) == v,
{
    assert(((v & 0xff) as u8 as u32) | ((((v >> 8) & 0xff) as u8 as u32) << 8)
        | ((((v >> 16) & 0xff) as u8 as u32) << 16) | ((((v >> 24) & 0xff) as u8 as u32) << 24)
        == v) by (bit_vector);
}

/// Rounding up to a 4-byte boundary adds at most three bytes.
pub proof fn lemma_pad4_bounds(n: int)
    requires
        n >= 0,
    ensures
        n <= pad4(n),
        pad4(n) <= n + 3,
        pad4(n) % 4 == 0,
{
    assert((n + 3) == 4 * ((n + 3) / 4) + (n + 3) % 4) by (nonlinear_arith)
        requires
            n >= 0,
    ;
    assert(((n + 3) / 4) * 4 % 4 == 0) by (nonlinear_arith);
}

/// Round-trip of the signed 16-bit conversions.
pub proof fn lemma_i16_roundtrip(x: i16)
    ensures
        u16_as_i16(i16_as_u16(x)) == x,
{
}

/// Round-trip of the signed 32-bit conversions.
pub proof fn lemma_i32_roundtrip(x: i32)
    ensures
        u32_as_i32(i32_as_u32(x)) == x,
{
}

/// Appends the little-endian bytes of a 16-bit word.
pub fn push_u16_le(out: &mut Vec<u8>, v: u16)
    ensures
        final(out)@ == old(out)@ + u16_le(v),
{
    out.push((v & 0xff) as u8);
    out.push(((v >> 8) & 0xff) as u8);
    assert(final(out)@ =~= old(out)@ + u16_le(v));
}

/// Appends the little-endian bytes of a 32-bit word.
pub fn push_u32_le(out: &mut Vec<u8>, v: u32)
    ensures
        final(out)@ == old(out)@ + u32_le(v),
{
    out.push((v & 0xff) as u8);
    out.push(((v >> 8) & 0xff) as u8);
    out.push(((v >> 16) & 0xff) as u8);
    out.push(((v >> 24) & 0xff) as u8);
    assert(final(out)@ =~= old(out)@ + u32_le(v));
}

/// Appends `n` zero bytes, the zero-fill used for padding.
pub fn push_zeros(out: &mut Vec<u8>, n: usize)
    ensures
        final(out)@ == old(out)@ + Seq::new(n as nat, |i: int| 0u8),
{
    let mut k: usize = 0;
    while k < n
        invariant
            k <= n,
            out@ == old(out)@ + Seq::new(k as nat, |i: int| 0u8),
        decreases n - k,
    {
        out.push(0u8);
        assert(out@ =~= old(out)@ + Seq::new((k + 1) as nat, |i: int| 0u8));
        k = k + 1;
    }
    assert(out@ =~= old(out)@ + Seq::new(n as nat, |i: int| 0u8));
}

/// Byte-string equality.
pub fn bytes_eq(a: &Vec<u8>, b: &Vec<u8>) -> (r: bool)
    ensures
        r == (a@ == b@),
{
    let n = a.len();
    if n != b.len() {
        return false;
    }
    let mut k: usize = 0;
    while k < n
        invariant
            k <= n,
            n == a@.len(),
            n == b@.len(),
            forall|i: int| 0 <= i < k ==> a@[i] == b@[i],
        decreases n - k,
    {
        if a[k] != b[k] {
            return false;
        }
        k = k + 1;
    }
    proof {
        assert(a@ =~= b@);
    }
    true
}

/// Appends a whole byte string.
pub fn push_bytes(out: &mut Vec<u8>, b: &Vec<u8>)
    ensures
        final(out)@ == old(out)@ + b@,
{
    let n = b.len();
    let mut k: usize = 0;
    while k < n
        invariant
            k <= n,
            n == b@.len(),
            out@ == old(out)@ + b@.subrange(0, k as int),
        decreases n - k,
    {
        out.push(b[k]);
        assert(out@ =~= old(out)@ + b@.subrange(0, (k + 1) as int));
        k = k + 1;
    }
    assert(out@ =~= old(out)@ + b@);
}

/// Appends the little-endian bytes of each 32-bit word in order.
pub fn push_u32_list(out: &mut Vec<u8>, xs: &Vec<u32>)
    ensures
        final(out)@ == old(out)@ + u32_list_le(xs@),
{
    let n = xs.len();
    let mut k: usize = 0;
    while k < n
        invariant
            k <= n,
            n == xs@.len(),
            out@ == old(out)@ + u32_list_le(xs@.subrange(0, k as int)),
        decreases n - k,
    {
        push_u32_le(out, xs[k]);
        proof {
            let pre = xs@.subrange(0, k as int);
            let post = xs@.subrange(0, (k + 1) as int);
            assert forall|i: int| 0 <= i < 4 * post.len() implies u32_list_le(post)[i] == (
            u32_list_le(pre) + u32_le(xs@[k as int]))[i] by {
                assert(post[i / 4] == xs@[i / 4]);
                if i / 4 < k {
                    assert(pre[i / 4] == xs@[i / 4]);
                }
            }
            assert(u32_list_le(post) =~= u32_list_le(pre) + u32_le(xs@[k as int]));
            assert(out@ =~= old(out)@ + u32_list_le(post));
        }
        k = k + 1;
    }
    proof {
        assert(xs@.subrange(0, n as int) =~= xs@);
    }
}

/// Reads the `count` 32-bit words packed at offset `off`.
pub fn read_u32_list(buf: &Vec<u8>, off: usize, count: usize) -> (r: Vec<u32>)
    requires
        off + 4 * count <= buf@.len(),
    ensures
        r@ == u32_list_at(buf@, off as int, count as int),
{
    let n = buf.len();
    let mut out: Vec<u32> = Vec::new();
    let mut k: usize = 0;
    while k < count
        invariant
            k <= count,
            n == buf@.len(),
            off + 4 * count <= n,
            out@ == u32_list_at(buf@, off as int, k as int),
        decreases count - k,
    {
        let v = read_u32_le(buf, off + 4 * k);
        out.push(v);
        assert(out@ =~= u32_list_at(buf@, off as int, (k + 1) as int));
        k = k + 1;
    }
    out
}

/// Copies the bytes of the half-open range `[start, start + len)`.
pub fn copy_range(buf: &Vec<u8>, start: usize, len: usize) -> (r: Vec<u8>)
    requires
        start + len <= buf@.len(),
    ensures
        r@ == buf@.subrange(start as int, start as int + len as int),
{
    let n = buf.len();
    let mut out: Vec<u8> = Vec::new();
    let mut k: usize = 0;
    while k < len
        invariant
            k <= len,
            n == buf@.len(),
            start + len <= n,
            out@ == buf@.subrange(start as int, start as int + k as int),
        decreases len - k,
    {
        out.push(buf[start + k]);
        assert(out@ =~= buf@.subrange(start as int, start as int + (k + 1) as int));
        k = k + 1;
    }
    out
}

/// Reads the 16-bit word at offset `off`.
pub fn read_u16_le(buf: &Vec<u8>, off: usize) -> (r: u16)
    requires
        off + 2 <= buf@.len(),
    ensures
        r == u16_at(buf@, off as int),
{
    let n = buf.len();
    let b0 = buf[off];
    let b1 = buf[off + 1];
    (b0 as u16) | ((b1 as u16) << 8)
}

/// Reads the 32-bit word at offset `off`.
pub fn read_u32_le(buf: &Vec<u8>, off: usize) -> (r: u32)
    requires
        off + 4 <= buf@.len(),
    ensures
        r == u32_at(buf@, off as int),
{
    let n = buf.len();
    let b0 = buf[off];
    let b1 = buf[off + 1];
    let b2 = buf[off + 2];
    let b3 = buf[off + 3];
    (b0 as u32) | ((b1 as u32) << 8) | ((b2 as u32) << 16) | ((b3 as u32) << 24)
}

/// Rounds a length up to the next multiple of four.
pub fn pad4_len(n: usize) -> (r: usize)
    requires
        n + 3 <= usize::MAX,
    ensures
        r == pad4(n as int),
{
    ((n + 3) / 4) * 4
}

/// Two's-complement reading of a 16-bit word as a signed field.
pub fn u16_to_i16(v: u16) -> (r: i16)
    ensures
        r == u16_as_i16(v),
{
    if v < 0x8000 {
        v as i16
    } else {
        ((v as i32) - 0x10000) as i16
    }
}

/// Two's-complement encoding of a signed 16-bit field.
pub fn i16_to_u16(x: i16) -> (r: u16)
    ensures
        r == i16_as_u16(x),
{
    if x >= 0 {
        x as u16
    } else {
        ((x as i32) + 0x10000) as u16
    }
}

/// Two's-complement reading of a 32-bit word as a signed field.
pub fn u32_to_i32(v: u32) -> (r: i32)
    ensures
        r == u32_as_i32(v),
{
    if v < 0x8000_0000 {
        v as i32
    } else {
        ((v as i64) - 0x1_0000_0000) as i32
    }
}

/// Two's-complement encoding of a signed 32-bit field.
pub fn i32_to_u32(x: i32) -> (r: u32)
    ensures
        r == i32_as_u32(x),
{
    if x >= 0 {
        x as u32
    } else {
        ((x as i64) + 0x1_0000_0000) as u32
    }
}

} // verus!
