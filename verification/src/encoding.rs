//! Byte layout of the values stored in accounts and carried in instruction
//! data: little-endian integers, one-byte booleans, fixed 32-byte keys and
//! strings prefixed by their UTF-8 length as a little-endian `u32`.
use vstd::prelude::*;
use vstd::utf8::{decode_utf8, encode_utf8, valid_utf8};

verus! {

/// The four little-endian bytes of `x`.
pub open spec fn le_u32_bytes(x: u32) -> Seq<u8> {
    seq![(x & 0xff) as u8, ((x >> 8) & 0xff) as u8, ((x >> 16) & 0xff) as u8, ((x >> 24) & 0xff) as u8]
}

/// The `u32` whose little-endian bytes are `b[0..4]`.
pub open spec fn le_u32_value(b: Seq<u8>) -> u32
    recommends
        b.len() >= 4,
{
    (b[0] as u32) | (b[1] as u32) << 8 | (b[2] as u32) << 16 | (b[3] as u32) << 24
}

/// The eight little-endian bytes of `x`.
pub open spec fn le_u64_bytes(x: u64) -> Seq<u8> {
    seq![
        (x & 0xff) as u8,
        ((x >> 8) & 0xff) as u8,
        ((x >> 16) & 0xff) as u8,
        ((x >> 24) & 0xff) as u8,
        ((x >> 32) & 0xff) as u8,
        ((x >> 40) & 0xff) as u8,
        ((x >> 48) & 0xff) as u8,
        ((x >> 56) & 0xff) as u8,
    ]
}

/// The eight big-endian bytes of `x`.
pub open spec fn be_u64_bytes(x: u64) -> Seq<u8> {
    seq![
        ((x >> 56) & 0xff) as u8,
        ((x >> 48) & 0xff) as u8,
        ((x >> 40) & 0xff) as u8,
        ((x >> 32) & 0xff) as u8,
        ((x >> 24) & 0xff) as u8,
        ((x >> 16) & 0xff) as u8,
        ((x >> 8) & 0xff) as u8,
        (x & 0xff) as u8,
    ]
}

/// The `u64` whose little-endian bytes are `b[0..8]`.
pub open spec fn le_u64_value(b: Seq<u8>) -> u64
    recommends
        b.len() >= 8,
{
    (b[0] as u64) | (b[1] as u64) << 8 | (b[2] as u64) << 16 | (b[3] as u64) << 24 | (b[4] as u64)
        << 32 | (b[5] as u64) << 40 | (b[6] as u64) << 48 | (b[7] as u64) << 56
}

/// Reading back the bytes of a `u32` gives the `u32`.
pub proof fn lemma_le_u32_roundtrip(x: u32)
    ensures
        le_u32_bytes(x).len() == 4,
        le_u32_value(le_u32_bytes(x)) == x,
{
    let b = le_u32_bytes(x);
    assert(b[0] == (x & 0xff) as u8 && b[1] == ((x >> 8) & 0xff) as u8 && b[2] == ((x >> 16)
        & 0xff) as u8 && b[3] == ((x >> 24) & 0xff) as u8);
    assert(x == (((x & 0xff) as u8) as u32) | (((x >> 8) & 0xff) as u8 as u32) << 8 | (((x >> 16)
        & 0xff) as u8 as u32) << 16 | (((x >> 24) & 0xff) as u8 as u32) << 24) by (bit_vector);
}

/// Reading back the bytes of a `u64` gives the `u64`.
pub proof fn lemma_le_u64_roundtrip(x: u64)
    ensures
        le_u64_bytes(x).len() == 8,
        le_u64_value(le_u64_bytes(x)) == x,
{
    let b = le_u64_bytes(x);
    assert(x == (((x & 0xff) as u8) as u64) | (((x >> 8) & 0xff) as u8 as u64) << 8 | (((x >> 16)
        & 0xff) as u8 as u64) << 16 | (((x >> 24) & 0xff) as u8 as u64) << 24 | (((x >> 32) & 0xff)
        as u8 as u64) << 32 | (((x >> 40) & 0xff) as u8 as u64) << 40 | (((x >> 48) & 0xff) as u8
        as u64) << 48 | (((x >> 56) & 0xff) as u8 as u64) << 56) by (bit_vector);
}

/// One byte: 1 for `true`, 0 for `false`.
pub open spec fn bool_layout(b: bool) -> Seq<u8> {
    seq![if b { 1u8 } else { 0u8 }]
}

/// A string is laid out as its UTF-8 length, as a little-endian `u32`, then its UTF-8 bytes.
pub open spec fn string_layout(s: Seq<char>) -> Seq<u8> {
    le_u32_bytes(encode_utf8(s).len() as u32) + encode_utf8(s)
}

/// A string can be laid out when its UTF-8 length fits in a `u32`.
pub open spec fn string_fits(s: Seq<char>) -> bool {
    encode_utf8(s).len() <= u32::MAX
}

/// Reads one byte at `pos`: the byte and the position after it.
pub open spec fn read_u8(d: Seq<u8>, pos: int) -> Option<(u8, int)> {
    if 0 <= pos && pos + 1 <= d.len() {
        Some((d[pos], pos + 1))
    } else {
        None
    }
}

/// Reads a boolean at `pos`; only the bytes 0 and 1 are booleans.
pub open spec fn read_bool(d: Seq<u8>, pos: int) -> Option<(bool, int)> {
    match read_u8(d, pos) {
        Some((b, next)) => if b == 0 {
            Some((false, next))
        } else if b == 1 {
            Some((true, next))
        } else {
            None
        },
        None => None,
    }
}

/// Reads a little-endian `u64` at `pos`.
pub open spec fn read_u64(d: Seq<u8>, pos: int) -> Option<(u64, int)> {
    if 0 <= pos && pos + 8 <= d.len() {
        Some((le_u64_value(d.subrange(pos, pos + 8)), pos + 8))
    } else {
        None
    }
}

/// Reads a 32-byte key at `pos`.
pub open spec fn read_key(d: Seq<u8>, pos: int) -> Option<(Seq<u8>, int)> {
    if 0 <= pos && pos + 32 <= d.len() {
        Some((d.subrange(pos, pos + 32), pos + 32))
    } else {
        None
    }
}

/// Reads a length-prefixed string at `pos`; its bytes must be valid UTF-8.
pub open spec fn read_string(d: Seq<u8>, pos: int) -> Option<(Seq<char>, int)> {
    if 0 <= pos && pos + 4 <= d.len() {
        let n = le_u32_value(d.subrange(pos, pos + 4)) as int;
        if pos + 4 + n <= d.len() && valid_utf8(d.subrange(pos + 4, pos + 4 + n)) {
            Some((decode_utf8(d.subrange(pos + 4, pos + 4 + n)), pos + 4 + n))
        } else {
            None
        }
    } else {
        None
    }
}

/// Reading a laid-out string back, whatever follows it, gives the string and
/// the position just past it.
pub proof fn lemma_read_string_layout(s: Seq<char>, pre: Seq<u8>, rest: Seq<u8>)
    requires
        string_fits(s),
    ensures
        read_string(pre + string_layout(s) + rest, pre.len() as int) == Some(
            (s, pre.len() + string_layout(s).len() as int),
        ),
        string_layout(s).len() == 4 + encode_utf8(s).len(),
{
    let e = encode_utf8(s);
    let d = pre + string_layout(s) + rest;
    let p = pre.len() as int;
    lemma_le_u32_roundtrip(e.len() as u32);
    assert(d.subrange(p, p + 4) =~= le_u32_bytes(e.len() as u32));
    assert(d.subrange(p + 4, p + 4 + e.len()) =~= e);
    vstd::utf8::encode_utf8_valid_utf8(s);
    vstd::utf8::encode_utf8_decode_utf8(s);
}

/// Reading a laid-out `u64` back gives the `u64`.
pub proof fn lemma_read_u64_layout(x: u64, pre: Seq<u8>, rest: Seq<u8>)
    ensures
        read_u64(pre + le_u64_bytes(x) + rest, pre.len() as int) == Some((x, pre.len() + 8int)),
{
    let d = pre + le_u64_bytes(x) + rest;
    let p = pre.len() as int;
    lemma_le_u64_roundtrip(x);
    assert(d.subrange(p, p + 8) =~= le_u64_bytes(x));
}

/// Reading a laid-out boolean back gives the boolean.
pub proof fn lemma_read_bool_layout(b: bool, pre: Seq<u8>, rest: Seq<u8>)
    ensures
        read_bool(pre + bool_layout(b) + rest, pre.len() as int) == Some((b, pre.len() + 1int)),
{
    let d = pre + bool_layout(b) + rest;
    assert(d[pre.len() as int] == bool_layout(b)[0]);
}

/// Reading a laid-out key back gives the key.
pub proof fn lemma_read_key_layout(k: Seq<u8>, pre: Seq<u8>, rest: Seq<u8>)
    requires
        k.len() == 32,
    ensures
        read_key(pre + k + rest, pre.len() as int) == Some((k, pre.len() + 32int)),
{
    let d = pre + k + rest;
    assert(d.subrange(pre.len() as int, pre.len() + 32int) =~= k);
}

/// Appends `src` to `out`.
pub fn append_bytes(out: &mut Vec<u8>, src: &[u8])
    ensures
        final(out)@ == old(out)@ + src@,
{
    let n = src.len();
    for i in 0..n
        invariant
            n == src@.len(),
            out@ == old(out)@ + src@.subrange(0, i as int),
    {
        out.push(src[i]);
        assert(src@.subrange(0, i + 1) =~= src@.subrange(0, i as int).push(src@[i as int]));
    }
    assert(src@.subrange(0, n as int) =~= src@);
}

/// Appends the little-endian bytes of `x`.
pub fn push_u32_le(out: &mut Vec<u8>, x: u32)
    ensures
        final(out)@ == old(out)@ + le_u32_bytes(x),
{
    out.push((x & 0xff) as u8);
    out.push(((x >> 8) & 0xff) as u8);
    out.push(((x >> 16) & 0xff) as u8);
    out.push(((x >> 24) & 0xff) as u8);
    assert(final(out)@ =~= old(out)@ + le_u32_bytes(x));
}

/// Appends the little-endian bytes of `x`.
pub fn push_u64_le(out: &mut Vec<u8>, x: u64)
    ensures
        final(out)@ == old(out)@ + le_u64_bytes(x),
{
    out.push((x & 0xff) as u8);
    out.push(((x >> 8) & 0xff) as u8);
    out.push(((x >> 16) & 0xff) as u8);
    out.push(((x >> 24) & 0xff) as u8);
    out.push(((x >> 32) & 0xff) as u8);
    out.push(((x >> 40) & 0xff) as u8);
    out.push(((x >> 48) & 0xff) as u8);
    out.push(((x >> 56) & 0xff) as u8);
    assert(final(out)@ =~= old(out)@ + le_u64_bytes(x));
}

/// The big-endian bytes of `x`.
pub fn u64_be_bytes(x: u64) -> (out: Vec<u8>)
    ensures
        out@ == be_u64_bytes(x),
{
    let mut out: Vec<u8> = Vec::new();
    out.push(((x >> 56) & 0xff) as u8);
    out.push(((x >> 48) & 0xff) as u8);
    out.push(((x >> 40) & 0xff) as u8);
    out.push(((x >> 32) & 0xff) as u8);
    out.push(((x >> 24) & 0xff) as u8);
    out.push(((x >> 16) & 0xff) as u8);
    out.push(((x >> 8) & 0xff) as u8);
    out.push((x & 0xff) as u8);
    assert(out@ =~= be_u64_bytes(x));
    out
}

/// Appends the boolean's byte.
pub fn push_bool(out: &mut Vec<u8>, b: bool)
    ensures
        final(out)@ == old(out)@ + bool_layout(b),
{
    out.push(if b { 1u8 } else { 0u8 });
    assert(final(out)@ =~= old(out)@ + bool_layout(b));
}

/// Appends a length-prefixed string; `false`, with `out` unchanged, when the
/// string's UTF-8 length does not fit in a `u32`.
pub fn push_string(out: &mut Vec<u8>, s: &str) -> (ok: bool)
    ensures
        ok == string_fits(s@),
        ok ==> final(out)@ == old(out)@ + string_layout(s@),
        !ok ==> final(out)@ == old(out)@,
{
    let bytes = s.as_bytes();
    let n = bytes.len();
    if n > 0xffff_ffffusize {
        return false;
    }
    push_u32_le(out, n as u32);
    append_bytes(out, bytes);
    assert(final(out)@ =~= old(out)@ + string_layout(s@));
    true
}

/// Reads one byte at `pos`.
pub fn take_u8(d: &[u8], pos: usize) -> (r: Option<(u8, usize)>)
    ensures
        match r {
            Some((v, next)) => read_u8(d@, pos as int) == Some((v, next as int)),
            None => read_u8(d@, pos as int) is None,
        },
{
    if pos < d.len() {
        Some((d[pos], pos + 1))
    } else {
        None
    }
}

/// Reads a boolean at `pos`.
pub fn take_bool(d: &[u8], pos: usize) -> (r: Option<(bool, usize)>)
    ensures
        match r {
            Some((v, next)) => read_bool(d@, pos as int) == Some((v, next as int)),
            None => read_bool(d@, pos as int) is None,
        },
{
    match take_u8(d, pos) {
        Some((b, next)) => if b == 0 {
            Some((false, next))
        } else if b == 1 {
            Some((true, next))
        } else {
            None
        },
        None => None,
    }
}

/// Reads a little-endian `u64` at `pos`.
pub fn take_u64(d: &[u8], pos: usize) -> (r: Option<(u64, usize)>)
    ensures
        match r {
            Some((v, next)) => read_u64(d@, pos as int) == Some((v, next as int)),
            None => read_u64(d@, pos as int) is None,
        },
{
    if pos <= d.len() && d.len() - pos >= 8 {
        let v = (d[pos] as u64) | (d[pos + 1] as u64) << 8 | (d[pos + 2] as u64) << 16 | (d[pos
            + 3] as u64) << 24 | (d[pos + 4] as u64) << 32 | (d[pos + 5] as u64) << 40 | (d[pos
            + 6] as u64) << 48 | (d[pos + 7] as u64) << 56;
        let ghost w = d@.subrange(pos as int, pos + 8);
        assert(w[0] == d@[pos as int] && w[1] == d@[pos + 1] && w[2] == d@[pos + 2] && w[3]
            == d@[pos + 3] && w[4] == d@[pos + 4] && w[5] == d@[pos + 5] && w[6] == d@[pos + 6]
            && w[7] == d@[pos + 7]);
        Some((v, pos + 8))
    } else {
        None
    }
}

/// Reads a 32-byte key at `pos`.
pub fn take_key(d: &[u8], pos: usize) -> (r: Option<([u8; 32], usize)>)
    ensures
        match r {
            Some((v, next)) => read_key(d@, pos as int) == Some((v@, next as int)),
            None => read_key(d@, pos as int) is None,
        },
{
    if pos <= d.len() && d.len() - pos >= 32 {
        let mut k: [u8; 32] = [0u8; 32];
        for i in 0..32
            invariant
                pos + 32 <= d.len(),
                d.len() == d@.len(),
                forall|j: int| 0 <= j < i ==> k@[j] == d@[pos + j],
        {
            k[i] = d[pos + i];
        }
        assert(k@ =~= d@.subrange(pos as int, pos + 32));
        Some((k, pos + 32))
    } else {
        None
    }
}

/// Reads a length-prefixed UTF-8 string at `pos`.
pub fn take_string(d: &[u8], pos: usize) -> (r: Option<(String, usize)>)
    ensures
        match r {
            Some((v, next)) => read_string(d@, pos as int) == Some((v@, next as int)),
            None => read_string(d@, pos as int) is None,
        },
{
    if pos <= d.len() && d.len() - pos >= 4 {
        let n = ((d[pos] as u32) | (d[pos + 1] as u32) << 8 | (d[pos + 2] as u32) << 16 | (d[pos
            + 3] as u32) << 24) as usize;
        let ghost w = d@.subrange(pos as int, pos + 4);
        assert(w[0] == d@[pos as int] && w[1] == d@[pos + 1] && w[2] == d@[pos + 2] && w[3]
            == d@[pos + 3]);
        if d.len() - pos - 4 >= n {
            let bytes = vstd::slice::slice_subrange(d, pos + 4, pos + 4 + n);
            match crate::outside::utf8_str(bytes) {
                Some(s) => {
                    proof {
                        vstd::utf8::encode_utf8_decode_utf8(s@);
                    }
                    Some((String::from_str(s), pos + 4 + n))
                },
                None => None,
            }
        } else {
            None
        }
    } else {
        None
    }
}

/// The layout of a `u32` is its little-endian base-256 digits: byte `i` is
/// `x / 256^i % 256`, as `u32::to_le_bytes` gives them.
pub proof fn law_le_u32_bytes_are_digits(x: u32)
    ensures
        le_u32_bytes(x).len() == 4,
        le_u32_bytes(x)[0] as int == x as int % 256,
        le_u32_bytes(x)[1] as int == x as int / 0x100 % 256,
        le_u32_bytes(x)[2] as int == x as int / 0x1_0000 % 256,
        le_u32_bytes(x)[3] as int == x as int / 0x100_0000 % 256,
{
    assert((x & 0xff) == x % 256 && ((x >> 8) & 0xff) == x / 0x100 % 256 && ((x >> 16) & 0xff)
        == x / 0x1_0000 % 256 && ((x >> 24) & 0xff) == x / 0x100_0000 % 256) by (bit_vector);
}

/// Reading a `u32` takes its four bytes as little-endian base-256 digits.
pub proof fn law_le_u32_value_is_digits(b: Seq<u8>)
    requires
        b.len() >= 4,
    ensures
        le_u32_value(b) as int == b[0] as int + 0x100 * b[1] + 0x1_0000 * b[2] + 0x100_0000 * b[3],
{
    let (b0, b1, b2, b3) = (b[0], b[1], b[2], b[3]);
    assert((b0 as u32) | (b1 as u32) << 8 | (b2 as u32) << 16 | (b3 as u32) << 24 == (b0 as u32)
        + 0x100 * (b1 as u32) + 0x1_0000 * (b2 as u32) + 0x100_0000 * (b3 as u32)) by (bit_vector);
}

/// The layout of a `u64` is its little-endian base-256 digits: byte `i` is
/// `x / 256^i % 256`, as `u64::to_le_bytes` gives them.
pub proof fn law_le_u64_bytes_are_digits(x: u64)
    ensures
        le_u64_bytes(x).len() == 8,
        le_u64_bytes(x)[0] as int == x as int % 256,
        le_u64_bytes(x)[1] as int == x as int / 0x100 % 256,
        le_u64_bytes(x)[2] as int == x as int / 0x1_0000 % 256,
        le_u64_bytes(x)[3] as int == x as int / 0x100_0000 % 256,
        le_u64_bytes(x)[4] as int == x as int / 0x1_0000_0000 % 256,
        le_u64_bytes(x)[5] as int == x as int / 0x100_0000_0000 % 256,
        le_u64_bytes(x)[6] as int == x as int / 0x1_0000_0000_0000 % 256,
        le_u64_bytes(x)[7] as int == x as int / 0x100_0000_0000_0000 % 256,
{
    assert((x & 0xff) == x % 256 && ((x >> 8) & 0xff) == x / 0x100 % 256 && ((x >> 16) & 0xff)
        == x / 0x1_0000 % 256 && ((x >> 24) & 0xff) == x / 0x100_0000 % 256) by (bit_vector);
    assert(((x >> 32) & 0xff) == x / 0x1_0000_0000 % 256 && ((x >> 40) & 0xff) == x
        / 0x100_0000_0000 % 256 && ((x >> 48) & 0xff) == x / 0x1_0000_0000_0000 % 256 && ((x >> 56)
        & 0xff) == x / 0x100_0000_0000_0000 % 256) by (bit_vector);
}

/// Reading a `u64` takes its eight bytes as little-endian base-256 digits.
pub proof fn law_le_u64_value_is_digits(b: Seq<u8>)
    requires
        b.len() >= 8,
    ensures
        le_u64_value(b) as int == b[0] as int + 0x100 * b[1] + 0x1_0000 * b[2] + 0x100_0000 * b[3]
            + 0x1_0000_0000 * b[4] + 0x100_0000_0000 * b[5] + 0x1_0000_0000_0000 * b[6]
            + 0x100_0000_0000_0000 * b[7],
{
    let (b0, b1, b2, b3, b4, b5, b6, b7) = (b[0], b[1], b[2], b[3], b[4], b[5], b[6], b[7]);
    assert((b0 as u64) | (b1 as u64) << 8 | (b2 as u64) << 16 | (b3 as u64) << 24 | (b4 as u64)
        << 32 | (b5 as u64) << 40 | (b6 as u64) << 48 | (b7 as u64) << 56 == (b0 as u64) + 0x100
        * (b1 as u64) + 0x1_0000 * (b2 as u64) + 0x100_0000 * (b3 as u64) + 0x1_0000_0000 * (
    b4 as u64) + 0x100_0000_0000 * (b5 as u64) + 0x1_0000_0000_0000 * (b6 as u64)
        + 0x100_0000_0000_0000 * (b7 as u64)) by (bit_vector);
}

/// The big-endian bytes of a `u64` are its base-256 digits, most significant
/// first, as `u64::to_be_bytes` gives them: byte `i` is `x / 256^(7-i) % 256`.
pub proof fn law_be_u64_bytes_are_digits(x: u64)
    ensures
        be_u64_bytes(x).len() == 8,
        be_u64_bytes(x)[0] as int == x as int / 0x100_0000_0000_0000 % 256,
        be_u64_bytes(x)[1] as int == x as int / 0x1_0000_0000_0000 % 256,
        be_u64_bytes(x)[2] as int == x as int / 0x100_0000_0000 % 256,
        be_u64_bytes(x)[3] as int == x as int / 0x1_0000_0000 % 256,
        be_u64_bytes(x)[4] as int == x as int / 0x100_0000 % 256,
        be_u64_bytes(x)[5] as int == x as int / 0x1_0000 % 256,
        be_u64_bytes(x)[6] as int == x as int / 0x100 % 256,
        be_u64_bytes(x)[7] as int == x as int % 256,
{
    assert((x & 0xff) == x % 256 && ((x >> 8) & 0xff) == x / 0x100 % 256 && ((x >> 16) & 0xff)
        == x / 0x1_0000 % 256 && ((x >> 24) & 0xff) == x / 0x100_0000 % 256) by (bit_vector);
    assert(((x >> 32) & 0xff) == x / 0x1_0000_0000 % 256 && ((x >> 40) & 0xff) == x
        / 0x100_0000_0000 % 256 && ((x >> 48) & 0xff) == x / 0x1_0000_0000_0000 % 256 && ((x >> 56)
        & 0xff) == x / 0x100_0000_0000_0000 % 256) by (bit_vector);
}

/// Different counters give different big-endian seeds: the eight bytes
/// determine the `u64`.
pub proof fn law_be_u64_bytes_injective(x: u64, y: u64)
    requires
        be_u64_bytes(x) == be_u64_bytes(y),
    ensures
        x == y,
{
    let (bx, by) = (be_u64_bytes(x), be_u64_bytes(y));
    assert(bx[0] == by[0] && bx[1] == by[1] && bx[2] == by[2] && bx[3] == by[3] && bx[4] == by[4]
        && bx[5] == by[5] && bx[6] == by[6] && bx[7] == by[7]);
    law_be_u64_bytes_are_digits(x);
    law_be_u64_bytes_are_digits(y);
    assert(x == y) by (bit_vector)
        requires
            x % 256 == y % 256,
            x / 0x100 % 256 == y / 0x100 % 256,
            x / 0x1_0000 % 256 == y / 0x1_0000 % 256,
            x / 0x100_0000 % 256 == y / 0x100_0000 % 256,
            x / 0x1_0000_0000 % 256 == y / 0x1_0000_0000 % 256,
            x / 0x100_0000_0000 % 256 == y / 0x100_0000_0000 % 256,
            x / 0x1_0000_0000_0000 % 256 == y / 0x1_0000_0000_0000 % 256,
            x / 0x100_0000_0000_0000 % 256 == y / 0x100_0000_0000_0000 % 256,
    ;
}

} // verus!
