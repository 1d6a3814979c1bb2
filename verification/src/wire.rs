//! Byte order of the integers that the frame header carries.

use vstd::prelude::*;

verus! {

/// The two bytes of `v`, most significant first.
pub open spec fn be16(v: u16) -> Seq<u8> {
    seq![(v / 256) as u8, (v % 256) as u8]
}

/// The four bytes of `v`, most significant first.
pub open spec fn be32(v: u32) -> Seq<u8> {
    seq![
        (v / 0x100_0000) as u8,
        ((v / 0x1_0000) % 256) as u8,
        ((v / 0x100) % 256) as u8,
        (v % 256) as u8,
    ]
}

/// The four bytes of `v`, least significant first.
pub open spec fn le32(v: u32) -> Seq<u8> {
    seq![
        (v % 256) as u8,
        ((v / 0x100) % 256) as u8,
        ((v / 0x1_0000) % 256) as u8,
        (v / 0x100_0000) as u8,
    ]
}

/// The sixteen bytes of `v`, most significant first.
pub open spec fn be128(v: u128) -> Seq<u8> {
    Seq::new(16, |i: int| byte_of(v, 15 - i))
}

/// Byte number `k` of `v`, counting from the least significant one.
pub open spec fn byte_of(v: u128, k: int) -> u8
    decreases k,
{
    if k <= 0 {
        (v % 256) as u8
    } else {
        byte_of(v / 256, k - 1)
    }
}

/// The number that the two bytes of `s` from `at` on spell, most significant
/// first.
pub open spec fn be16_at(s: Seq<u8>, at: int) -> u16
    recommends
        0 <= at,
        at + 2 <= s.len(),
{
    (s[at] as int * 256 + s[at + 1] as int) as u16
}

/// The number that the four bytes of `s` from `at` on spell, most
/// significant first.
pub open spec fn be32_at(s: Seq<u8>, at: int) -> u32
    recommends
        0 <= at,
        at + 4 <= s.len(),
{
    (s[at] as int * 0x100_0000 + s[at + 1] as int * 0x1_0000 + s[at + 2] as int * 0x100 + s[at
        + 3] as int) as u32
}

/// The number that the four bytes of `s` from `at` on spell, least
/// significant first.
pub open spec fn le32_at(s: Seq<u8>, at: int) -> u32
    recommends
        0 <= at,
        at + 4 <= s.len(),
{
    (s[at + 3] as int * 0x100_0000 + s[at + 2] as int * 0x1_0000 + s[at + 1] as int * 0x100
        + s[at] as int) as u32
}

/// Sixteen zero bytes.
pub open spec fn zeros16() -> Seq<u8> {
    Seq::new(16, |i: int| 0u8)
}

/// Every byte of zero is zero.
pub proof fn lemma_be128_zero()
    ensures
        be128(0) == zeros16(),
{
    assert forall|k: int| 0 <= k < 16 implies byte_of(0, k) == 0u8 by {
        lemma_byte_of_zero(k);
    }
    assert(be128(0) =~= zeros16());
}

proof fn lemma_byte_of_zero(k: int)
    ensures
        byte_of(0, k) == 0u8,
    decreases k,
{
    if k > 0 {
        lemma_byte_of_zero(k - 1);
    }
}

} // verus!
