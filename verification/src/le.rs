//! Little-endian encoding of the fixed-width integers and byte arrays that
//! frames are made of.
//!
//! The arithmetic is kept behind `byte_of`, `u32_of`, `low_half`, `high_half`
//! and `u64_of`, which are opaque: a proof about the layout of a struct needs
//! only the lemmas of this file, and one about given bytes reveals the
//! functions.

use vstd::prelude::*;
use vstd::arithmetic::div_mod::lemma_fundamental_div_mod_converse;

verus! {

/// Byte `k` of `x`, for `k` from 0 to 3, where byte 0 is the least
/// significant.
#[verifier::opaque]
pub open spec fn byte_of(x: u32, k: int) -> u8 {
    if k == 0 {
        (x % 0x100) as u8
    } else if k == 1 {
        (x / 0x100 % 0x100) as u8
    } else if k == 2 {
        (x / 0x1_0000 % 0x100) as u8
    } else {
        (x / 0x100_0000 % 0x100) as u8
    }
}

/// The number whose bytes are `b0` to `b3`, least significant first.
#[verifier::opaque]
pub open spec fn u32_of(b0: u8, b1: u8, b2: u8, b3: u8) -> u32 {
    (b0 + 0x100 * b1 + 0x1_0000 * b2 + 0x100_0000 * b3) as u32
}

/// The low 32 bits of `x`.
#[verifier::opaque]
pub open spec fn low_half(x: u64) -> u32 {
    (x % 0x1_0000_0000) as u32
}

/// The high 32 bits of `x`.
#[verifier::opaque]
pub open spec fn high_half(x: u64) -> u32 {
    (x / 0x1_0000_0000) as u32
}

/// The number whose low 32 bits are `lo` and whose high 32 bits are `hi`.
#[verifier::opaque]
pub open spec fn u64_of(lo: u32, hi: u32) -> u64 {
    (lo + 0x1_0000_0000 * hi) as u64
}

/// The four bytes of `x`, least significant first.
pub open spec fn u32_le(x: u32) -> Seq<u8> {
    seq![byte_of(x, 0), byte_of(x, 1), byte_of(x, 2), byte_of(x, 3)]
}

/// The eight bytes of `x`, least significant first: its low half, then its
/// high half.
pub open spec fn u64_le(x: u64) -> Seq<u8> {
    u32_le(low_half(x)) + u32_le(high_half(x))
}

/// The number that the four bytes of `s` from index `at` on spell.
pub open spec fn le_u32(s: Seq<u8>, at: int) -> u32 {
    u32_of(s[at], s[at + 1], s[at + 2], s[at + 3])
}

/// The number that the eight bytes of `s` from index `at` on spell.
pub open spec fn le_u64(s: Seq<u8>, at: int) -> u64 {
    u64_of(le_u32(s, at), le_u32(s, at + 4))
}

/// The array whose `N` bytes are those of `s` from index `at` on.
pub open spec fn le_array<const N: usize>(s: Seq<u8>, at: int) -> [u8; N] {
    choose|a: [u8; N]| a@ == s.subrange(at, at + N)
}

/// The array of `N` zero bytes.
pub open spec fn zeros<const N: usize>() -> [u8; N] {
    vstd::array::spec_array_fill_for_copy_type::<u8, N>(0u8)
}

/// A number is the one that its own four bytes spell.
pub proof fn lemma_u32_of_bytes(x: u32)
    ensures
        u32_of(byte_of(x, 0), byte_of(x, 1), byte_of(x, 2), byte_of(x, 3)) == x,
{
    reveal(byte_of);
    reveal(u32_of);
}

/// Four bytes are the bytes of the number that they spell.
pub proof fn lemma_bytes_of_u32(b0: u8, b1: u8, b2: u8, b3: u8)
    ensures
        byte_of(u32_of(b0, b1, b2, b3), 0) == b0,
        byte_of(u32_of(b0, b1, b2, b3), 1) == b1,
        byte_of(u32_of(b0, b1, b2, b3), 2) == b2,
        byte_of(u32_of(b0, b1, b2, b3), 3) == b3,
{
    reveal(byte_of);
    reveal(u32_of);
    let x: int = b0 + 0x100 * b1 + 0x1_0000 * b2 + 0x100_0000 * b3;
    lemma_fundamental_div_mod_converse(x, 0x100, b1 + 0x100 * b2 + 0x1_0000 * b3, b0 as int);
    lemma_fundamental_div_mod_converse(x / 0x100, 0x100, b2 + 0x100 * b3, b1 as int);
    lemma_fundamental_div_mod_converse(x, 0x1_0000, b2 + 0x100 * b3, b0 + 0x100 * b1);
    lemma_fundamental_div_mod_converse(x / 0x1_0000, 0x100, b3 as int, b2 as int);
    lemma_fundamental_div_mod_converse(x, 0x100_0000, b3 as int, b0 + 0x100 * b1 + 0x1_0000 * b2);
}

/// A number is the one that its own two halves make.
pub proof fn lemma_u64_of_halves(x: u64)
    ensures
        u64_of(low_half(x), high_half(x)) == x,
{
    reveal(low_half);
    reveal(high_half);
    reveal(u64_of);
}

/// Two halves are the halves of the number that they make.
pub proof fn lemma_halves_of_u64(lo: u32, hi: u32)
    ensures
        low_half(u64_of(lo, hi)) == lo,
        high_half(u64_of(lo, hi)) == hi,
{
    reveal(low_half);
    reveal(high_half);
    reveal(u64_of);
    lemma_fundamental_div_mod_converse(lo + 0x1_0000_0000 * hi, 0x1_0000_0000, hi as int, lo as int);
}

/// The zero array holds zero bytes.
pub proof fn lemma_zeros_view<const N: usize>()
    ensures
        zeros::<N>()@ == Seq::new(N as nat, |i: int| 0u8),
{
    assert(zeros::<N>()@ =~= Seq::new(N as nat, |i: int| 0u8));
}

/// Zero is written as zero bytes.
pub proof fn lemma_zero_bytes()
    ensures
        u32_le(0) == Seq::new(4, |i: int| 0u8),
        u64_le(0) == Seq::new(8, |i: int| 0u8),
{
    reveal(byte_of);
    reveal(low_half);
    reveal(high_half);
    assert(u32_le(0) =~= Seq::new(4, |i: int| 0u8));
    assert(u64_le(0) =~= Seq::new(8, |i: int| 0u8));
}

/// Reading back what `u32_le` wrote gives the number again, wherever in a
/// buffer the four bytes stand.
pub proof fn lemma_u32_placed(s: Seq<u8>, at: int, x: u32)
    requires
        0 <= at,
        at + 4 <= s.len(),
        s.subrange(at, at + 4) == u32_le(x),
    ensures
        le_u32(s, at) == x,
{
    let w = s.subrange(at, at + 4);
    assert(s[at] == w[0] && s[at + 1] == w[1] && s[at + 2] == w[2] && s[at + 3] == w[3]);
    lemma_u32_of_bytes(x);
}

/// Reading back what `u64_le` wrote gives the number again, wherever in a
/// buffer the eight bytes stand.
pub proof fn lemma_u64_placed(s: Seq<u8>, at: int, x: u64)
    requires
        0 <= at,
        at + 8 <= s.len(),
        s.subrange(at, at + 8) == u64_le(x),
    ensures
        le_u64(s, at) == x,
{
    let w = s.subrange(at, at + 8);
    let lo = low_half(x);
    let hi = high_half(x);
    assert forall|i: int| 0 <= i < 4 implies s.subrange(at, at + 4)[i] == u32_le(lo)[i] by {
        assert(w[i] == u32_le(lo)[i]);
    }
    assert forall|i: int| 0 <= i < 4 implies s.subrange(at + 4, at + 8)[i] == u32_le(hi)[i] by {
        assert(w[i + 4] == u32_le(hi)[i]);
    }
    assert(s.subrange(at, at + 4) =~= u32_le(lo));
    assert(s.subrange(at + 4, at + 8) =~= u32_le(hi));
    lemma_u32_placed(s, at, lo);
    lemma_u32_placed(s, at + 4, hi);
    lemma_u64_of_halves(x);
}

/// An array is the only one with its bytes: reading them back gives it again.
pub proof fn lemma_array_placed<const N: usize>(s: Seq<u8>, at: int, a: [u8; N])
    requires
        0 <= at,
        at + N <= s.len(),
        s.subrange(at, at + N) == a@,
    ensures
        le_array::<N>(s, at) == a,
{
    let b = le_array::<N>(s, at);
    assert(b@ == a@);
    assert(b =~= a);
}

/// Writing the number that four bytes of a buffer spell gives these bytes
/// again.
pub proof fn lemma_u32_rewritten(s: Seq<u8>, at: int)
    requires
        0 <= at,
        at + 4 <= s.len(),
    ensures
        u32_le(le_u32(s, at)) == s.subrange(at, at + 4),
{
    lemma_bytes_of_u32(s[at], s[at + 1], s[at + 2], s[at + 3]);
    assert(u32_le(le_u32(s, at)) =~= s.subrange(at, at + 4));
}

/// Writing the number that eight bytes of a buffer spell gives these bytes
/// again.
pub proof fn lemma_u64_rewritten(s: Seq<u8>, at: int)
    requires
        0 <= at,
        at + 8 <= s.len(),
    ensures
        u64_le(le_u64(s, at)) == s.subrange(at, at + 8),
{
    lemma_halves_of_u64(le_u32(s, at), le_u32(s, at + 4));
    lemma_u32_rewritten(s, at);
    lemma_u32_rewritten(s, at + 4);
    assert(u64_le(le_u64(s, at)) =~= s.subrange(at, at + 8));
}

/// The array whose first `k` bytes are those of `s` and whose others are
/// zero.
spec fn filled<const N: usize>(s: Seq<u8>, k: nat) -> [u8; N]
    decreases k,
{
    if k == 0 {
        zeros()
    } else {
        vstd::array::spec_array_update(filled::<N>(s, (k - 1) as nat), k - 1, s[k - 1])
    }
}

proof fn lemma_filled<const N: usize>(s: Seq<u8>, k: nat)
    requires
        k <= N,
    ensures
        forall|i: int| 0 <= i < k ==> filled::<N>(s, k)@[i] == s[i],
    decreases k,
{
    if k > 0 {
        lemma_filled::<N>(s, (k - 1) as nat);
    }
}

/// There is an array for every `N` bytes of a buffer: the array that is
/// read there has exactly these bytes.
pub proof fn lemma_array_rewritten<const N: usize>(s: Seq<u8>, at: int)
    requires
        0 <= at,
        at + N <= s.len(),
    ensures
        le_array::<N>(s, at)@ == s.subrange(at, at + N),
{
    let part = s.subrange(at, at + N);
    let a = filled::<N>(part, N as nat);
    lemma_filled::<N>(part, N as nat);
    assert(a@ =~= part);
}

/// Appends the four bytes of `x` to `out`.
pub(crate) fn put_u32(out: &mut Vec<u8>, x: u32)
    ensures
        final(out)@ == old(out)@ + u32_le(x),
{
    proof {
        reveal(byte_of);
    }
    out.push((x % 0x100) as u8);
    out.push((x / 0x100 % 0x100) as u8);
    out.push((x / 0x1_0000 % 0x100) as u8);
    out.push((x / 0x100_0000 % 0x100) as u8);
    assert(out@ =~= old(out)@ + u32_le(x));
}

/// Appends the eight bytes of `x` to `out`.
pub(crate) fn put_u64(out: &mut Vec<u8>, x: u64)
    ensures
        final(out)@ == old(out)@ + u64_le(x),
{
    proof {
        reveal(low_half);
        reveal(high_half);
    }
    put_u32(out, (x % 0x1_0000_0000) as u32);
    put_u32(out, (x / 0x1_0000_0000) as u32);
    assert(out@ =~= old(out)@ + u64_le(x));
}

/// Appends the bytes of `src` to `out`.
pub(crate) fn put_bytes(out: &mut Vec<u8>, src: &[u8])
    ensures
        final(out)@ == old(out)@ + src@,
{
    out.extend_from_slice(src);
}

/// Reads the number that stands at index `at` of `bytes`.
pub(crate) fn get_u32(bytes: &[u8], at: usize) -> (x: u32)
    requires
        at + 4 <= bytes.len(),
    ensures
        x == le_u32(bytes@, at as int),
{
    proof {
        reveal(u32_of);
    }
    let b0: u32 = bytes[at] as u32;
    let b1: u32 = bytes[at + 1] as u32;
    let b2: u32 = bytes[at + 2] as u32;
    let b3: u32 = bytes[at + 3] as u32;
    b0 + 0x100 * b1 + 0x1_0000 * b2 + 0x100_0000 * b3
}

/// Reads the number that stands at index `at` of `bytes`.
pub(crate) fn get_u64(bytes: &[u8], at: usize) -> (x: u64)
    requires
        at + 8 <= bytes.len(),
    ensures
        x == le_u64(bytes@, at as int),
{
    proof {
        reveal(u64_of);
    }
    let lo: u64 = get_u32(bytes, at) as u64;
    let hi: u64 = get_u32(bytes, at + 4) as u64;
    lo + 0x1_0000_0000 * hi
}

/// Reads the `N` bytes that stand at index `at` of `bytes`.
pub(crate) fn get_array<const N: usize>(bytes: &[u8], at: usize) -> (a: [u8; N])
    requires
        at + N <= bytes.len(),
    ensures
        a@ == bytes@.subrange(at as int, at + N),
        a == le_array::<N>(bytes@, at as int),
{
    let mut a: [u8; N] = [0u8; N];
    let mut i: usize = 0;
    while i < N
        invariant
            i <= N,
            at + N <= bytes.len(),
            forall|k: int| 0 <= k < i ==> a@[k] == bytes@[at + k],
        decreases N - i,
    {
        a[i] = bytes[at + i];
        i += 1;
    }
    assert(a@ =~= bytes@.subrange(at as int, at + N));
    proof {
        lemma_array_placed::<N>(bytes@, at as int, a);
    }
    a
}

} // verus!
