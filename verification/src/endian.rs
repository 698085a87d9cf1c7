//! Byte order conversion and byte-array editing.
//!
//! UFS protocol units carry multi-byte integers in big-endian order, host
//! controller descriptors in little-endian order.

use vstd::prelude::*;

verus! {

/// The number that a big-endian byte string denotes.
pub open spec fn be_value(b: Seq<u8>) -> nat
    decreases b.len(),
{
    if b.len() == 0 {
        0
    } else {
        be_value(b.drop_last()) * 256 + b.last() as nat
    }
}

/// The `n` low-order bytes of `v`, most significant byte first.
pub open spec fn be_bytes(v: nat, n: nat) -> Seq<u8>
    decreases n,
{
    if n == 0 {
        Seq::empty()
    } else {
        be_bytes(v / 256, (n - 1) as nat).push((v % 256) as u8)
    }
}

/// The number that a little-endian byte string denotes.
pub open spec fn le_value(b: Seq<u8>) -> nat {
    be_value(b.reverse())
}

/// The `n` low-order bytes of `v`, least significant byte first.
pub open spec fn le_bytes(v: nat, n: nat) -> Seq<u8> {
    be_bytes(v, n).reverse()
}

/// The number of values that `n` bytes can hold.
pub open spec fn byte_range(n: nat) -> nat
    decreases n,
{
    if n == 0 {
        1
    } else {
        256 * byte_range((n - 1) as nat)
    }
}

/// `s` with the bytes from `at` on replaced by `t`.
pub open spec fn splice(s: Seq<u8>, at: int, t: Seq<u8>) -> Seq<u8> {
    Seq::new(
        s.len(),
        |i: int| if at <= i < at + t.len() { t[i - at] } else { s[i] },
    )
}

/// `n` zero bytes.
pub open spec fn zeros(n: nat) -> Seq<u8> {
    Seq::new(n, |i: int| 0u8)
}

/// The length of an encoding is the requested number of bytes.
pub proof fn lemma_be_bytes_len(v: nat, n: nat)
    ensures
        be_bytes(v, n).len() == n,
        le_bytes(v, n).len() == n,
    decreases n,
{
    if n > 0 {
        lemma_be_bytes_len(v / 256, (n - 1) as nat);
    }
}

/// Decoding an encoded value gives the value back when it fits.
pub proof fn law_be_decode_encode(v: nat, n: nat)
    requires
        v < byte_range(n),
    ensures
        be_value(be_bytes(v, n)) == v,
        le_value(le_bytes(v, n)) == v,
    decreases n,
{
    lemma_be_bytes_len(v, n);
    assert(be_bytes(v, n).reverse().reverse() =~= be_bytes(v, n));
    if n > 0 {
        assert(v / 256 < byte_range((n - 1) as nat));
        law_be_decode_encode(v / 256, (n - 1) as nat);
        let b = be_bytes(v, n);
        assert(b.drop_last() =~= be_bytes(v / 256, (n - 1) as nat));
        assert(be_value(b) == (v / 256) * 256 + v % 256);
    }
}

/// Encoding a decoded byte string gives the byte string back.
pub proof fn law_be_encode_decode(b: Seq<u8>)
    ensures
        be_bytes(be_value(b), b.len()) == b,
        be_value(b) < byte_range(b.len()),
    decreases b.len(),
{
    if b.len() > 0 {
        law_be_encode_decode(b.drop_last());
        let v = be_value(b);
        assert(v / 256 == be_value(b.drop_last()));
        assert(v % 256 == b.last());
        assert(be_bytes(v, b.len()) =~= b.drop_last().push(b.last()));
        assert(b.drop_last().push(b.last()) =~= b);
    } else {
        assert(be_bytes(be_value(b), b.len()) =~= b);
    }
}

/// Encoding a decoded little-endian byte string gives the byte string back.
pub proof fn law_le_encode_decode(b: Seq<u8>)
    ensures
        le_bytes(le_value(b), b.len()) == b,
        le_value(b) < byte_range(b.len()),
{
    law_be_encode_decode(b.reverse());
    assert(b.reverse().reverse() =~= b);
}

/// Reading back a spliced range gives the bytes that were put there, and a
/// range that the splice does not touch is unchanged.
pub proof fn law_splice_reads(s: Seq<u8>, at: int, t: Seq<u8>, from: int, to: int)
    requires
        0 <= at,
        at + t.len() <= s.len(),
        0 <= from <= to <= s.len(),
    ensures
        splice(s, at, t).subrange(at, at + t.len()) == t,
        to <= at || at + t.len() <= from ==> splice(s, at, t).subrange(from, to) == s.subrange(
            from,
            to,
        ),
{
    assert(splice(s, at, t).subrange(at, at + t.len()) =~= t);
    if to <= at || at + t.len() <= from {
        assert(splice(s, at, t).subrange(from, to) =~= s.subrange(from, to));
    }
}

/// Big-endian bytes of a 16-bit value.
pub fn be16(v: u16) -> (r: [u8; 2])
    ensures
        r@ == be_bytes(v as nat, 2),
{
    proof {
        reveal_with_fuel(be_bytes, 3);
    }
    let r = [(v / 256) as u8, (v % 256) as u8];
    assert(r@ =~= be_bytes(v as nat, 2));
    r
}

/// Big-endian bytes of a 32-bit value.
pub fn be32(v: u32) -> (r: [u8; 4])
    ensures
        r@ == be_bytes(v as nat, 4),
{
    proof {
        reveal_with_fuel(be_bytes, 5);
    }
    let r = [
        (v / 256 / 256 / 256 % 256) as u8,
        (v / 256 / 256 % 256) as u8,
        (v / 256 % 256) as u8,
        (v % 256) as u8,
    ];
    assert(r@ =~= be_bytes(v as nat, 4));
    r
}

/// Big-endian bytes of a 64-bit value.
pub fn be64(v: u64) -> (r: [u8; 8])
    ensures
        r@ == be_bytes(v as nat, 8),
{
    proof {
        reveal_with_fuel(be_bytes, 9);
    }
    let r = [
        (v / 256 / 256 / 256 / 256 / 256 / 256 / 256 % 256) as u8,
        (v / 256 / 256 / 256 / 256 / 256 / 256 % 256) as u8,
        (v / 256 / 256 / 256 / 256 / 256 % 256) as u8,
        (v / 256 / 256 / 256 / 256 % 256) as u8,
        (v / 256 / 256 / 256 % 256) as u8,
        (v / 256 / 256 % 256) as u8,
        (v / 256 % 256) as u8,
        (v % 256) as u8,
    ];
    assert(r@ =~= be_bytes(v as nat, 8));
    r
}

/// Little-endian bytes of a 16-bit value.
pub fn le16(v: u16) -> (r: [u8; 2])
    ensures
        r@ == le_bytes(v as nat, 2),
{
    let b = be16(v);
    let r = [b[1], b[0]];
    proof {
        lemma_be_bytes_len(v as nat, 2);
    }
    assert(r@ =~= le_bytes(v as nat, 2));
    r
}

/// Little-endian bytes of a 32-bit value.
pub fn le32(v: u32) -> (r: [u8; 4])
    ensures
        r@ == le_bytes(v as nat, 4),
{
    let b = be32(v);
    let r = [b[3], b[2], b[1], b[0]];
    proof {
        lemma_be_bytes_len(v as nat, 4);
    }
    assert(r@ =~= le_bytes(v as nat, 4));
    r
}

/// Little-endian bytes of a 64-bit value.
pub fn le64(v: u64) -> (r: [u8; 8])
    ensures
        r@ == le_bytes(v as nat, 8),
{
    let b = be64(v);
    let r = [b[7], b[6], b[5], b[4], b[3], b[2], b[1], b[0]];
    proof {
        lemma_be_bytes_len(v as nat, 8);
    }
    assert(r@ =~= le_bytes(v as nat, 8));
    r
}

/// Reads a big-endian 16-bit value at `at`.
pub fn get_be16<const N: usize>(b: &[u8; N], at: usize) -> (r: u16)
    requires
        at + 2 <= N,
    ensures
        r == be_value(b@.subrange(at as int, at + 2)),
{
    let ghost s = b@.subrange(at as int, at + 2);
    proof {
        reveal_with_fuel(be_value, 3);
        assert(s.drop_last().drop_last() =~= Seq::<u8>::empty());
    }
    (b[at] as u16) * 256 + b[at + 1] as u16
}

/// Reads a big-endian 32-bit value at `at`.
pub fn get_be32<const N: usize>(b: &[u8; N], at: usize) -> (r: u32)
    requires
        at + 4 <= N,
    ensures
        r == be_value(b@.subrange(at as int, at + 4)),
{
    let hi = get_be16(b, at);
    let lo = get_be16(b, at + 2);
    proof {
        let s = b@.subrange(at as int, at + 4);
        lemma_be_value_split(s, 2);
        assert(s.subrange(0, 2) =~= b@.subrange(at as int, at + 2));
        assert(s.subrange(2, 4) =~= b@.subrange(at + 2, at + 4));
        reveal_with_fuel(byte_range, 3);
    }
    assert(hi * 0x1_0000 + lo <= 0xffff_ffff);
    (hi as u32) * 0x1_0000 + lo as u32
}

/// Reads a big-endian 64-bit value at `at`.
pub fn get_be64<const N: usize>(b: &[u8; N], at: usize) -> (r: u64)
    requires
        at + 8 <= N,
    ensures
        r == be_value(b@.subrange(at as int, at + 8)),
{
    let hi = get_be32(b, at);
    let lo = get_be32(b, at + 4);
    proof {
        let s = b@.subrange(at as int, at + 8);
        lemma_be_value_split(s, 4);
        assert(s.subrange(0, 4) =~= b@.subrange(at as int, at + 4));
        assert(s.subrange(4, 8) =~= b@.subrange(at + 4, at + 8));
        reveal_with_fuel(byte_range, 5);
    }
    (hi as u64) * 0x1_0000_0000 + lo as u64
}

/// Reads a little-endian 16-bit value at `at`.
pub fn get_le16<const N: usize>(b: &[u8; N], at: usize) -> (r: u16)
    requires
        at + 2 <= N,
    ensures
        r == le_value(b@.subrange(at as int, at + 2)),
{
    let ghost s = b@.subrange(at as int, at + 2).reverse();
    proof {
        reveal_with_fuel(be_value, 3);
        assert(s.drop_last().drop_last() =~= Seq::<u8>::empty());
    }
    (b[at + 1] as u16) * 256 + b[at] as u16
}

/// Reads a little-endian 32-bit value at `at`.
pub fn get_le32<const N: usize>(b: &[u8; N], at: usize) -> (r: u32)
    requires
        at + 4 <= N,
    ensures
        r == le_value(b@.subrange(at as int, at + 4)),
{
    let lo = get_le16(b, at);
    let hi = get_le16(b, at + 2);
    proof {
        let s = b@.subrange(at as int, at + 4).reverse();
        lemma_be_value_split(s, 2);
        assert(s.subrange(0, 2) =~= b@.subrange(at + 2, at + 4).reverse());
        assert(s.subrange(2, 4) =~= b@.subrange(at as int, at + 2).reverse());
        reveal_with_fuel(byte_range, 3);
    }
    assert(hi * 0x1_0000 + lo <= 0xffff_ffff);
    (hi as u32) * 0x1_0000 + lo as u32
}

/// Reads a little-endian 64-bit value at `at`.
pub fn get_le64<const N: usize>(b: &[u8; N], at: usize) -> (r: u64)
    requires
        at + 8 <= N,
    ensures
        r == le_value(b@.subrange(at as int, at + 8)),
{
    let lo = get_le32(b, at);
    let hi = get_le32(b, at + 4);
    proof {
        let s = b@.subrange(at as int, at + 8).reverse();
        lemma_be_value_split(s, 4);
        assert(s.subrange(0, 4) =~= b@.subrange(at + 4, at + 8).reverse());
        assert(s.subrange(4, 8) =~= b@.subrange(at as int, at + 4).reverse());
        reveal_with_fuel(byte_range, 5);
    }
    (hi as u64) * 0x1_0000_0000 + lo as u64
}

/// A big-endian number is its high part scaled by the width of its low part,
/// plus the low part.
proof fn lemma_be_value_split(b: Seq<u8>, k: int)
    requires
        0 <= k <= b.len(),
    ensures
        be_value(b) == be_value(b.subrange(0, k)) * byte_range((b.len() - k) as nat) + be_value(
            b.subrange(k, b.len() as int),
        ),
    decreases b.len() - k,
{
    if k == b.len() {
        assert(b.subrange(0, k) =~= b);
        assert(b.subrange(k, k) =~= Seq::<u8>::empty());
        assert(be_value(b) * 1 == be_value(b));
    } else {
        let c = b.drop_last();
        lemma_be_value_split(c, k);
        assert(c.subrange(0, k) =~= b.subrange(0, k));
        assert(b.subrange(k, b.len() as int).drop_last() =~= c.subrange(k, c.len() as int));
        let h = be_value(b.subrange(0, k));
        let r = byte_range((c.len() - k) as nat);
        assert((h * r) * 256 == h * (256 * r)) by (nonlinear_arith);
    }
}

/// An array of zero bytes.
pub fn zeroed<const N: usize>() -> (r: [u8; N])
    ensures
        r@ == zeros(N as nat),
{
    let r = [0u8; N];
    assert(r@ =~= zeros(N as nat));
    r
}

/// Overwrites the bytes of `buf` from `at` on with `src`.
pub fn put_bytes<const N: usize, const M: usize>(buf: &mut [u8; N], at: usize, src: &[u8; M])
    requires
        at + M <= N,
    ensures
        final(buf)@ == splice(old(buf)@, at as int, src@),
{
    let ghost before = buf@;
    for i in 0..M
        invariant
            at + M <= N,
            buf@.len() == N,
            before.len() == N,
            src@.len() == M,
            forall|j: int|
                0 <= j < N ==> buf@[j] == if at <= j < at + i {
                    src@[j - at]
                } else {
                    before[j]
                },
    {
        buf[at + i] = src[i];
    }
    assert(buf@ =~= splice(before, at as int, src@));
}

/// Copies `M` bytes of `buf` from `at` on.
pub fn take_bytes<const N: usize, const M: usize>(buf: &[u8; N], at: usize) -> (r: [u8; M])
    requires
        at + M <= N,
    ensures
        r@ == buf@.subrange(at as int, at + M),
{
    let mut r = [0u8; M];
    for i in 0..M
        invariant
            at + M <= N,
            r@.len() == M,
            forall|j: int| 0 <= j < i ==> r@[j] == buf@[at + j],
    {
        r[i] = buf[at + i];
    }
    assert(r@ =~= buf@.subrange(at as int, at + M));
    r
}

/// A big-endian number gives each byte 256 times the weight of the byte behind it.
pub proof fn law_be_value_is_positional(b: Seq<u8>)
    ensures
        b.len() == 1 ==> be_value(b) == b[0],
        b.len() == 2 ==> be_value(b) == b[0] * 0x100 + b[1],
        b.len() == 4 ==> be_value(b) == b[0] * 0x100_0000 + b[1] * 0x1_0000 + b[2] * 0x100 + b[3],
        b.len() == 8 ==> be_value(b) == b[0] * 0x100_0000_0000_0000 + b[1] * 0x1_0000_0000_0000
            + b[2] * 0x100_0000_0000 + b[3] * 0x1_0000_0000 + b[4] * 0x100_0000 + b[5] * 0x1_0000
            + b[6] * 0x100 + b[7],
{
    reveal_with_fuel(be_value, 9);
}

/// A little-endian number gives each byte 256 times the weight of the byte before
/// it.
pub proof fn law_le_value_is_positional(b: Seq<u8>)
    ensures
        b.len() == 1 ==> le_value(b) == b[0],
        b.len() == 2 ==> le_value(b) == b[0] + b[1] * 0x100,
        b.len() == 4 ==> le_value(b) == b[0] + b[1] * 0x100 + b[2] * 0x1_0000 + b[3] * 0x100_0000,
        b.len() == 8 ==> le_value(b) == b[0] + b[1] * 0x100 + b[2] * 0x1_0000 + b[3] * 0x100_0000
            + b[4] * 0x1_0000_0000 + b[5] * 0x100_0000_0000 + b[6] * 0x1_0000_0000_0000 + b[7]
            * 0x100_0000_0000_0000,
{
    law_be_value_is_positional(b.reverse());
}

/// A fresh array holds nothing but zeros.
pub proof fn law_zeros_are_zero(n: nat, i: int)
    requires
        0 <= i < n,
    ensures
        zeros(n).len() == n,
        zeros(n)[i] == 0,
{
}

/// What a number is encoded to holds its digits to base 256: the most significant
/// one first in big-endian order, last in little-endian order.
pub proof fn law_encoded_numbers(
    a: u16,
    b: u32,
    big_a: [u8; 2],
    big_b: [u8; 4],
    little_a: [u8; 2],
    little_b: [u8; 4],
)
    requires
        call_ensures(be16, (a,), big_a),
        call_ensures(be32, (b,), big_b),
        call_ensures(le16, (a,), little_a),
        call_ensures(le32, (b,), little_b),
    ensures
        a == big_a@[0] * 0x100 + big_a@[1],
        a == little_a@[1] * 0x100 + little_a@[0],
        b == big_b@[0] * 0x100_0000 + big_b@[1] * 0x1_0000 + big_b@[2] * 0x100 + big_b@[3],
        b == little_b@[3] * 0x100_0000 + little_b@[2] * 0x1_0000 + little_b@[1] * 0x100
            + little_b@[0],
{
    reveal_with_fuel(byte_range, 5);
    law_be_decode_encode(a as nat, 2);
    law_be_decode_encode(b as nat, 4);
    law_be_value_is_positional(big_a@);
    law_be_value_is_positional(big_b@);
    reveal_with_fuel(be_bytes, 5);
    assert(big_a@ =~= little_a@.reverse());
    assert(big_b@ =~= little_b@.reverse());
}

/// Bytes that were put into a buffer are taken out of it as they were, and the
/// others stay.
pub proof fn law_put_bytes_are_taken_out<const N: usize, const M: usize>(
    buf: &mut [u8; N],
    at: usize,
    src: [u8; M],
    taken: [u8; M],
    i: int,
)
    requires
        at + M <= N,
        call_ensures(put_bytes::<N, M>, (buf, at, &src), ()),
        call_ensures(take_bytes::<N, M>, (&*final(buf), at), taken),
    ensures
        taken@ == src@,
        0 <= i < N && !(at <= i < at + M) ==> final(buf)@[i] == old(buf)@[i],
{
    law_splice_reads(old(buf)@, at as int, src@, at as int, at + M);
    assert(src@.subrange(0, M as int) =~= src@);
    assert(taken@ =~= src@);
}

} // verus!
