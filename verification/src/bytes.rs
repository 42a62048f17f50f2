//! Little-endian integers and fixed-width fields inside byte strings.

use vstd::prelude::*;

verus! {

/// The number that `hi` and one lower byte `lo` make together.
pub open spec fn join(lo: u8, hi: int) -> int {
    lo as int + 0x100 * hi
}

/// The unsigned integer that four bytes denote, least significant first.
pub open spec fn u32_from_le(s: Seq<u8>) -> int
    recommends
        s.len() == 4,
{
    join(s[0], join(s[1], join(s[2], s[3] as int)))
}

/// The four bytes of `v`, least significant first.
pub open spec fn u32_le_bytes(v: int) -> Seq<u8>
    recommends
        0 <= v < 0x1_0000_0000,
{
    let q1 = v / 0x100;
    let q2 = q1 / 0x100;
    let q3 = q2 / 0x100;
    seq![(v % 0x100) as u8, (q1 % 0x100) as u8, (q2 % 0x100) as u8, (q3 % 0x100) as u8]
}

/// The unsigned integer that eight bytes denote, least significant first.
pub open spec fn u64_from_le(s: Seq<u8>) -> int
    recommends
        s.len() == 8,
{
    u32_from_le(s.subrange(0, 4)) + 0x1_0000_0000 * u32_from_le(s.subrange(4, 8))
}

/// The eight bytes of `v`, least significant first.
pub open spec fn u64_le_bytes(v: int) -> Seq<u8>
    recommends
        0 <= v < 0x1_0000_0000_0000_0000,
{
    u32_le_bytes(v % 0x1_0000_0000) + u32_le_bytes(v / 0x1_0000_0000)
}

/// The signed integer that eight bytes denote in two's complement.
pub open spec fn i64_from_le(s: Seq<u8>) -> int
    recommends
        s.len() == 8,
{
    let u = u64_from_le(s);
    if u >= 0x8000_0000_0000_0000 {
        u - 0x1_0000_0000_0000_0000
    } else {
        u
    }
}

/// The eight bytes of `v` in two's complement, least significant first.
pub open spec fn i64_le_bytes(v: int) -> Seq<u8>
    recommends
        -0x8000_0000_0000_0000 <= v < 0x8000_0000_0000_0000,
{
    u64_le_bytes(
        if v < 0 {
            v + 0x1_0000_0000_0000_0000
        } else {
            v
        },
    )
}

/// The byte that stores a flag: 1 for true, 0 for false.
pub open spec fn bool_byte(b: bool) -> u8 {
    if b {
        1
    } else {
        0
    }
}

/// A byte string of `n` zero bytes.
pub open spec fn zeros(n: nat) -> Seq<u8> {
    Seq::new(n, |i: int| 0u8)
}

/// Decoding what `u32_le_bytes` wrote gives the number back.
pub proof fn lemma_u32_le_round_trip(v: int)
    requires
        0 <= v < 0x1_0000_0000,
    ensures
        u32_le_bytes(v).len() == 4,
        u32_from_le(u32_le_bytes(v)) == v,
{
    let q1 = v / 0x100;
    let q2 = q1 / 0x100;
    let q3 = q2 / 0x100;
    let s = u32_le_bytes(v);
    assert(0 <= q3 < 0x100);
    assert(s[3] as int == q3);
    assert(join(s[2], q3) == q2);
    assert(join(s[1], q2) == q1);
    assert(join(s[0], q1) == v);
}

/// Encoding what `u32_from_le` read gives the bytes back.
pub proof fn lemma_u32_le_bytes_of_value(s: Seq<u8>)
    requires
        s.len() == 4,
    ensures
        0 <= u32_from_le(s) < 0x1_0000_0000,
        u32_le_bytes(u32_from_le(s)) == s,
{
    let v = u32_from_le(s);
    let r3 = s[3] as int;
    let r2 = join(s[2], r3);
    let r1 = join(s[1], r2);
    assert(v == join(s[0], r1));
    assert(v / 0x100 == r1 && v % 0x100 == s[0]);
    assert(r1 / 0x100 == r2 && r1 % 0x100 == s[1]);
    assert(r2 / 0x100 == r3 && r2 % 0x100 == s[2]);
    assert(u32_le_bytes(v) =~= s);
}

/// Decoding what `u64_le_bytes` wrote gives the number back.
pub proof fn lemma_u64_le_round_trip(v: int)
    requires
        0 <= v < 0x1_0000_0000_0000_0000,
    ensures
        u64_le_bytes(v).len() == 8,
        u64_from_le(u64_le_bytes(v)) == v,
{
    let lo = v % 0x1_0000_0000;
    let hi = v / 0x1_0000_0000;
    lemma_u32_le_round_trip(lo);
    lemma_u32_le_round_trip(hi);
    let s = u64_le_bytes(v);
    assert(s.subrange(0, 4) =~= u32_le_bytes(lo));
    assert(s.subrange(4, 8) =~= u32_le_bytes(hi));
}

/// Encoding what `u64_from_le` read gives the bytes back.
pub proof fn lemma_u64_le_bytes_of_value(s: Seq<u8>)
    requires
        s.len() == 8,
    ensures
        0 <= u64_from_le(s) < 0x1_0000_0000_0000_0000,
        u64_le_bytes(u64_from_le(s)) == s,
{
    let lo = u32_from_le(s.subrange(0, 4));
    let hi = u32_from_le(s.subrange(4, 8));
    lemma_u32_le_bytes_of_value(s.subrange(0, 4));
    lemma_u32_le_bytes_of_value(s.subrange(4, 8));
    let v = u64_from_le(s);
    assert(v % 0x1_0000_0000 == lo && v / 0x1_0000_0000 == hi);
    assert(u64_le_bytes(v) =~= s);
}

/// Decoding what `i64_le_bytes` wrote gives the number back.
pub proof fn lemma_i64_le_round_trip(v: int)
    requires
        -0x8000_0000_0000_0000 <= v < 0x8000_0000_0000_0000,
    ensures
        i64_le_bytes(v).len() == 8,
        i64_from_le(i64_le_bytes(v)) == v,
{
    let u = if v < 0 {
        v + 0x1_0000_0000_0000_0000
    } else {
        v
    };
    lemma_u64_le_round_trip(u);
}

/// Encoding what `i64_from_le` read gives the bytes back.
pub proof fn lemma_i64_le_bytes_of_value(s: Seq<u8>)
    requires
        s.len() == 8,
    ensures
        -0x8000_0000_0000_0000 <= i64_from_le(s) < 0x8000_0000_0000_0000,
        i64_le_bytes(i64_from_le(s)) == s,
{
    lemma_u64_le_bytes_of_value(s);
}

/// Reads four bytes at `at` as an unsigned integer, least significant first.
pub fn read_u32_le(data: &[u8], at: usize) -> (v: u32)
    requires
        at + 4 <= data@.len(),
    ensures
        v as int == u32_from_le(data@.subrange(at as int, at + 4)),
{
    let b0: u32 = data[at] as u32;
    let b1: u32 = data[at + 1] as u32;
    let b2: u32 = data[at + 2] as u32;
    let b3: u32 = data[at + 3] as u32;
    b0 + 0x100 * (b1 + 0x100 * (b2 + 0x100 * b3))
}

/// Reads eight bytes at `at` as an unsigned integer, least significant first.
pub fn read_u64_le(data: &[u8], at: usize) -> (v: u64)
    requires
        at + 8 <= data@.len(),
    ensures
        v as int == u64_from_le(data@.subrange(at as int, at + 8)),
{
    let len: usize = data.len();
    assert(at + 8 <= len);
    let lo: u64 = read_u32_le(data, at) as u64;
    let hi: u64 = read_u32_le(data, at + 4) as u64;
    proof {
        let s = data@.subrange(at as int, at + 8);
        assert(s.subrange(0, 4) =~= data@.subrange(at as int, at + 4));
        assert(s.subrange(4, 8) =~= data@.subrange(at + 4, at + 8));
    }
    lo + 0x1_0000_0000 * hi
}

/// Reads eight bytes at `at` as a signed integer in two's complement.
pub fn read_i64_le(data: &[u8], at: usize) -> (v: i64)
    requires
        at + 8 <= data@.len(),
    ensures
        v as int == i64_from_le(data@.subrange(at as int, at + 8)),
{
    let u: u64 = read_u64_le(data, at);
    if u >= 0x8000_0000_0000_0000 {
        let low: i64 = (u - 0x8000_0000_0000_0000) as i64;
        low + i64::MIN
    } else {
        u as i64
    }
}

/// Copies the `N` bytes at `at` into an array.
pub fn read_array<const N: usize>(data: &[u8], at: usize) -> (r: [u8; N])
    requires
        at + N <= data@.len(),
    ensures
        r@ == data@.subrange(at as int, at + N),
{
    let len: usize = data.len();
    let mut r: [u8; N] = [0u8; N];
    let mut i: usize = 0;
    while i < N
        invariant
            i <= N,
            at + N <= data@.len(),
            len == data@.len(),
            forall|j: int| 0 <= j < i ==> r@[j] == data@[at + j],
        decreases N - i,
    {
        r[i] = data[at + i];
        i += 1;
    }
    assert(r@ =~= data@.subrange(at as int, at + N));
    r
}

/// Appends the four bytes of `v`, least significant first.
pub fn push_u32_le(out: &mut Vec<u8>, v: u32)
    ensures
        final(out)@ == old(out)@ + u32_le_bytes(v as int),
{
    let q1: u32 = v / 0x100;
    let q2: u32 = q1 / 0x100;
    let q3: u32 = q2 / 0x100;
    out.push((v % 0x100) as u8);
    out.push((q1 % 0x100) as u8);
    out.push((q2 % 0x100) as u8);
    out.push((q3 % 0x100) as u8);
    assert(out@ =~= old(out)@ + u32_le_bytes(v as int));
}

/// Appends the eight bytes of `v`, least significant first.
pub fn push_u64_le(out: &mut Vec<u8>, v: u64)
    ensures
        final(out)@ == old(out)@ + u64_le_bytes(v as int),
{
    push_u32_le(out, (v % 0x1_0000_0000) as u32);
    push_u32_le(out, (v / 0x1_0000_0000) as u32);
    assert(out@ =~= old(out)@ + u64_le_bytes(v as int));
}

/// Appends the eight bytes of `v` in two's complement, least significant first.
pub fn push_i64_le(out: &mut Vec<u8>, v: i64)
    ensures
        final(out)@ == old(out)@ + i64_le_bytes(v as int),
{
    let u: u64 = if v < 0 {
        let low: u64 = (v - i64::MIN) as u64;
        low + 0x8000_0000_0000_0000
    } else {
        v as u64
    };
    push_u64_le(out, u);
}

/// Appends a copy of `src`.
pub fn push_bytes(out: &mut Vec<u8>, src: &[u8])
    ensures
        final(out)@ == old(out)@ + src@,
{
    let mut i: usize = 0;
    while i < src.len()
        invariant
            i <= src@.len(),
            out@ == old(out)@ + src@.subrange(0, i as int),
        decreases src@.len() - i,
    {
        out.push(src[i]);
        i += 1;
        assert(out@ =~= old(out)@ + src@.subrange(0, i as int));
    }
    assert(src@.subrange(0, i as int) =~= src@);
}

/// Whether two byte strings hold the same bytes.
pub fn bytes_equal(a: &[u8], b: &[u8]) -> (r: bool)
    ensures
        r == (a@ == b@),
{
    if a.len() != b.len() {
        return false;
    }
    let mut i: usize = 0;
    while i < a.len()
        invariant
            i <= a@.len(),
            a@.len() == b@.len(),
            forall|j: int| 0 <= j < i ==> a@[j] == b@[j],
        decreases a@.len() - i,
    {
        if a[i] != b[i] {
            return false;
        }
        i += 1;
    }
    assert(a@ =~= b@);
    true
}

/// Whether the bytes of `data` from `at` on begin with `pattern`.
pub fn starts_with_at(data: &[u8], at: usize, pattern: &[u8]) -> (r: bool)
    requires
        at + pattern@.len() <= data@.len(),
    ensures
        r == (data@.subrange(at as int, at + pattern@.len()) == pattern@),
{
    let len: usize = data.len();
    let mut i: usize = 0;
    while i < pattern.len()
        invariant
            i <= pattern@.len(),
            at + pattern@.len() <= data@.len(),
            len == data@.len(),
            forall|j: int| 0 <= j < i ==> data@[at + j] == pattern@[j],
        decreases pattern@.len() - i,
    {
        if data[at + i] != pattern[i] {
            assert(data@.subrange(at as int, at + pattern@.len())[i as int] != pattern@[i as int]);
            return false;
        }
        i += 1;
    }
    assert(data@.subrange(at as int, at + pattern@.len()) =~= pattern@);
    true
}

} // verus!
