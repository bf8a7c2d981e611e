//! The "minimal i64" wire format: one byte holding the byte count
//! (1, 2, 4 or 8) followed by that many bytes of the value in
//! little-endian two's complement form.
use vstd::prelude::*;

verus! {

/// Byte `i` (little-endian, counted from zero) of `v` in two's complement form.
pub open spec fn le_byte(v: i64, i: nat) -> u8 {
    ((v as u64) >> ((8 * i) as u64)) as u8
}

/// Smallest byte count out of 1, 2, 4 and 8 that holds `v`.
pub open spec fn minimal_len(v: i64) -> nat {
    if -0x80 <= v < 0x80 {
        1
    } else if -0x8000 <= v < 0x8000 {
        2
    } else if -0x8000_0000 <= v < 0x8000_0000 {
        4
    } else {
        8
    }
}

/// The encoding that the writer produces for `v`.
pub open spec fn spec_encode(v: i64) -> Seq<u8> {
    let n = minimal_len(v);
    seq![n as u8] + Seq::new(n, |i: int| le_byte(v, i as nat))
}

/// Value of `n` little-endian bytes starting at `pos`, sign-extended.
pub open spec fn decode_le(s: Seq<u8>, pos: int, n: nat) -> i64 {
    if n == 1 {
        s[pos] as i8 as i64
    } else if n == 2 {
        (s[pos] as u16 | (s[pos + 1] as u16) << 8u16) as i16 as i64
    } else if n == 4 {
        (s[pos] as u32 | (s[pos + 1] as u32) << 8u32 | (s[pos + 2] as u32) << 16u32
            | (s[pos + 3] as u32) << 24u32) as i32 as i64
    } else {
        (s[pos] as u64 | (s[pos + 1] as u64) << 8u64 | (s[pos + 2] as u64) << 16u64
            | (s[pos + 3] as u64) << 24u64 | (s[pos + 4] as u64) << 32u64
            | (s[pos + 5] as u64) << 40u64 | (s[pos + 6] as u64) << 48u64
            | (s[pos + 7] as u64) << 56u64) as i64
    }
}

/// Whether `c` is one of the byte counts that the format allows.
pub open spec fn is_valid_len(c: u8) -> bool {
    c == 1 || c == 2 || c == 4 || c == 8
}

/// Reads one value at `pos`; gives the value and the position after it.
pub open spec fn spec_parse(s: Seq<u8>, pos: int) -> Option<(i64, int)> {
    if 0 <= pos < s.len() && is_valid_len(s[pos]) && pos + 1 + s[pos] <= s.len() {
        Some((decode_le(s, pos + 1, s[pos] as nat), pos + 1 + s[pos]))
    } else {
        None
    }
}

proof fn lemma_bytes_1(v: i64)
    requires -0x80 <= v < 0x80,
    ensures ((v as u64) as u8) as i8 as i64 == v,
{
    assert(-0x80 <= v < 0x80 ==> ((v as u64) as u8) as i8 as i64 == v) by (bit_vector);
}

proof fn lemma_bytes_2(v: i64)
    requires -0x8000 <= v < 0x8000,
    ensures
        (((v as u64) as u8) as u16 | (((v as u64) >> 8u64) as u8 as u16) << 8u16) as i16 as i64 == v,
{
    assert(-0x8000 <= v < 0x8000 ==>
        (((v as u64) as u8) as u16 | (((v as u64) >> 8u64) as u8 as u16) << 8u16) as i16 as i64 == v)
        by (bit_vector);
}

proof fn lemma_bytes_4(v: i64)
    requires -0x8000_0000 <= v < 0x8000_0000,
    ensures
        (((v as u64) as u8) as u32 | (((v as u64) >> 8u64) as u8 as u32) << 8u32
            | (((v as u64) >> 16u64) as u8 as u32) << 16u32
            | (((v as u64) >> 24u64) as u8 as u32) << 24u32) as i32 as i64 == v,
{
    assert(-0x8000_0000 <= v < 0x8000_0000 ==>
        (((v as u64) as u8) as u32 | (((v as u64) >> 8u64) as u8 as u32) << 8u32
            | (((v as u64) >> 16u64) as u8 as u32) << 16u32
            | (((v as u64) >> 24u64) as u8 as u32) << 24u32) as i32 as i64 == v)
        by (bit_vector);
}

proof fn lemma_bytes_8(v: i64)
    ensures
        (((v as u64) as u8) as u64 | (((v as u64) >> 8u64) as u8 as u64) << 8u64
            | (((v as u64) >> 16u64) as u8 as u64) << 16u64
            | (((v as u64) >> 24u64) as u8 as u64) << 24u64
            | (((v as u64) >> 32u64) as u8 as u64) << 32u64
            | (((v as u64) >> 40u64) as u8 as u64) << 40u64
            | (((v as u64) >> 48u64) as u8 as u64) << 48u64
            | (((v as u64) >> 56u64) as u8 as u64) << 56u64) as i64 == v,
{
    assert(
        (((v as u64) as u8) as u64 | (((v as u64) >> 8u64) as u8 as u64) << 8u64
            | (((v as u64) >> 16u64) as u8 as u64) << 16u64
            | (((v as u64) >> 24u64) as u8 as u64) << 24u64
            | (((v as u64) >> 32u64) as u8 as u64) << 32u64
            | (((v as u64) >> 40u64) as u8 as u64) << 40u64
            | (((v as u64) >> 48u64) as u8 as u64) << 48u64
            | (((v as u64) >> 56u64) as u8 as u64) << 56u64) as i64 == v)
        by (bit_vector);
}

/// The value bytes come least significant first: a value from 0 to 127 is
/// the count 1 and the value itself, -128 to -1 the count 1 and the value
/// plus 256, 128 to 32767 the count 2, the low byte and the high byte, and
/// 32768 to 2^31 - 1 the count 4 and its four bytes from the lowest up.
pub proof fn lemma_encode_byte_order(v: i64)
    ensures
        0 <= v < 0x80 ==> spec_encode(v) == seq![1u8, v as u8],
        -0x80 <= v < 0 ==> spec_encode(v) == seq![1u8, (v + 256) as u8],
        0x80 <= v < 0x8000 ==> spec_encode(v) == seq![2u8, (v % 256) as u8, (v / 256) as u8],
        0x8000 <= v < 0x8000_0000 ==> spec_encode(v) == seq![
            4u8,
            (v % 256) as u8,
            ((v / 0x100) % 256) as u8,
            ((v / 0x1_0000) % 256) as u8,
            (v / 0x100_0000) as u8,
        ],
{
    let e = spec_encode(v);
    let u = v as u64;
    assert(u >> 0u64 == u) by (bit_vector);
    if 0 <= v < 0x80 {
        assert(0 <= v < 0x80 ==> (v as u64) as u8 == v as u8) by (bit_vector);
        assert(e =~= seq![1u8, v as u8]);
    } else if -0x80 <= v < 0 {
        assert(-0x80 <= v < 0 ==> (v as u64) as u8 == (v + 256) as u8) by (bit_vector);
        assert(e =~= seq![1u8, (v + 256) as u8]);
    } else if 0x80 <= v < 0x8000 {
        assert(0x80 <= v < 0x8000 ==> (v as u64) as u8 == (v % 256) as u8 && ((v as u64) >> 8u64) as u8 == (v / 256)
            as u8) by (bit_vector);
        assert(le_byte(v, 1) == ((v as u64) >> 8u64) as u8);
        assert(e =~= seq![2u8, (v % 256) as u8, (v / 256) as u8]);
    } else if 0x8000 <= v < 0x8000_0000 {
        assert(0x8000 <= v < 0x8000_0000 ==> (v as u64) as u8 == (v % 256) as u8 && ((v as u64) >> 8u64) as u8 == ((v
            / 0x100) % 256) as u8 && ((v as u64) >> 16u64) as u8 == ((v / 0x1_0000) % 256) as u8 && ((v as u64)
            >> 24u64) as u8 == (v / 0x100_0000) as u8) by (bit_vector);
        assert(le_byte(v, 1) == ((v as u64) >> 8u64) as u8);
        assert(le_byte(v, 2) == ((v as u64) >> 16u64) as u8);
        assert(le_byte(v, 3) == ((v as u64) >> 24u64) as u8);
        assert(e =~= seq![
            4u8,
            (v % 256) as u8,
            ((v / 0x100) % 256) as u8,
            ((v / 0x1_0000) % 256) as u8,
            (v / 0x100_0000) as u8,
        ]);
    }
}

/// Decoding the bytes that `spec_encode` writes gives the value back,
/// whatever stands before and after them.
pub proof fn lemma_parse_encode(pre: Seq<u8>, v: i64, post: Seq<u8>)
    ensures
        spec_parse(pre + spec_encode(v) + post, pre.len() as int)
            == Some((v, (pre.len() + spec_encode(v).len()) as int)),
        spec_encode(v).len() == 1 + minimal_len(v),
        spec_encode(v)[0] != 0,
{
    let s = pre + spec_encode(v) + post;
    let p = pre.len() as int;
    let n = minimal_len(v);
    let e = spec_encode(v);
    assert(e.len() == 1 + n);
    assert(s[p] == n as u8);
    let u = v as u64;
    assert(u >> 0u64 == u) by (bit_vector);
    assert(le_byte(v, 0) == u as u8);
    assert forall|i: int| 0 <= i < n implies #[trigger] s[p + 1 + i] == le_byte(v, i as nat) by {
        assert(s[p + 1 + i] == e[1 + i]);
    }
    if n == 1 {
        assert(s[p + 1] == le_byte(v, 0));
        lemma_bytes_1(v);
    } else if n == 2 {
        assert(s[p + 1] == le_byte(v, 0));
        assert(s[p + 2] == le_byte(v, 1));
        lemma_bytes_2(v);
    } else if n == 4 {
        assert(s[p + 1] == le_byte(v, 0));
        assert(s[p + 2] == le_byte(v, 1));
        assert(s[p + 3] == le_byte(v, 2));
        assert(s[p + 4] == le_byte(v, 3));
        lemma_bytes_4(v);
    } else {
        assert(s[p + 1] == le_byte(v, 0));
        assert(s[p + 2] == le_byte(v, 1));
        assert(s[p + 3] == le_byte(v, 2));
        assert(s[p + 4] == le_byte(v, 3));
        assert(s[p + 5] == le_byte(v, 4));
        assert(s[p + 6] == le_byte(v, 5));
        assert(s[p + 7] == le_byte(v, 6));
        assert(s[p + 8] == le_byte(v, 7));
        lemma_bytes_8(v);
    }
}

/// Appends the minimal encoding of `value` to `buffer`.
pub fn add_minimal_i64(buffer: &mut Vec<u8>, value: i64)
    ensures
        final(buffer)@ == old(buffer)@ + spec_encode(value),
{
    let n: u8 = if -0x80 <= value && value < 0x80 {
        1
    } else if -0x8000 <= value && value < 0x8000 {
        2
    } else if -0x8000_0000 <= value && value < 0x8000_0000 {
        4
    } else {
        8
    };
    let ghost start = buffer@;
    buffer.push(n);
    let u = value as u64;
    let mut i: u8 = 0;
    while i < n
        invariant
            i <= n,
            n as nat == minimal_len(value),
            u == value as u64,
            buffer@ == start + seq![n] + Seq::new(i as nat, |k: int| le_byte(value, k as nat)),
        decreases n - i,
    {
        let shift: u64 = 8 * (i as u64);
        let b = (u >> shift) as u8;
        let ghost before = buffer@;
        buffer.push(b);
        assert(buffer@ =~= start + seq![n] + Seq::new((i + 1) as nat, |k: int| le_byte(value, k as nat)));
        i = i + 1;
    }
    assert(buffer@ =~= start + spec_encode(value));
}

/// Reads one minimal i64 value that starts at `pos`.
pub fn parse_minimal_i64(s: &[u8], pos: usize) -> (res: Option<(i64, usize)>)
    ensures
        match res {
            Some((v, next)) => spec_parse(s@, pos as int) == Some((v, next as int)),
            None => spec_parse(s@, pos as int) is None,
        },
{
    if pos >= s.len() {
        return None;
    }
    let c = s[pos];
    if !(c == 1 || c == 2 || c == 4 || c == 8) {
        return None;
    }
    if (c as usize) > s.len() - pos - 1 {
        return None;
    }
    let p = pos + 1;
    let v: i64 = if c == 1 {
        s[p] as i8 as i64
    } else if c == 2 {
        (s[p] as u16 | (s[p + 1] as u16) << 8u16) as i16 as i64
    } else if c == 4 {
        (s[p] as u32 | (s[p + 1] as u32) << 8u32 | (s[p + 2] as u32) << 16u32
            | (s[p + 3] as u32) << 24u32) as i32 as i64
    } else {
        (s[p] as u64 | (s[p + 1] as u64) << 8u64 | (s[p + 2] as u64) << 16u64
            | (s[p + 3] as u64) << 24u64 | (s[p + 4] as u64) << 32u64
            | (s[p + 5] as u64) << 40u64 | (s[p + 6] as u64) << 48u64
            | (s[p + 7] as u64) << 56u64) as i64
    };
    Some((v, p + c as usize))
}

} // verus!
