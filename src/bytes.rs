//! Little-endian and fixed-width field helpers shared by the record codecs.

use vstd::bytes::{
    spec_u32_from_le_bytes, spec_u32_to_le_bytes, spec_u64_from_le_bytes, spec_u64_to_le_bytes,
    u32_from_le_bytes, u32_to_le_bytes, u64_from_le_bytes, u64_to_le_bytes,
};
use vstd::prelude::*;
use vstd::slice::slice_subrange;

use crate::pubkey::Pubkey;

verus! {

/// The byte a boolean field is stored as.
pub open spec fn bool_byte(b: bool) -> u8 {
    if b {
        1u8
    } else {
        0u8
    }
}

/// The eight little-endian bytes of `x`.
pub open spec fn le_u64(x: u64) -> Seq<u8> {
    spec_u64_to_le_bytes(x)
}

/// The value of the eight little-endian bytes of `s` starting at `at`.
pub open spec fn u64_at(s: Seq<u8>, at: int) -> u64 {
    spec_u64_from_le_bytes(s.subrange(at, at + 8))
}

/// The four little-endian bytes of `x`.
pub open spec fn le_u32(x: u32) -> Seq<u8> {
    spec_u32_to_le_bytes(x)
}

/// The value of the four little-endian bytes of `s` starting at `at`.
pub open spec fn u32_at(s: Seq<u8>, at: int) -> u32 {
    spec_u32_from_le_bytes(s.subrange(at, at + 4))
}

/// `d` with the bytes from `at` on replaced by `s`, and its length kept.
pub open spec fn splice(d: Seq<u8>, at: int, s: Seq<u8>) -> Seq<u8> {
    d.subrange(0, at) + s + d.subrange(at + s.len(), d.len() as int)
}

/// Eight bytes always decode to the value they were encoded from.
pub proof fn lemma_le_u64_round_trip(x: u64)
    ensures
        le_u64(x).len() == 8,
        spec_u64_from_le_bytes(le_u64(x)) == x,
{
    vstd::bytes::lemma_auto_spec_u64_to_from_le_bytes();
}

/// Four bytes always decode to the value they were encoded from.
pub proof fn lemma_le_u32_round_trip(x: u32)
    ensures
        le_u32(x).len() == 4,
        spec_u32_from_le_bytes(le_u32(x)) == x,
{
    vstd::bytes::lemma_auto_spec_u32_to_from_le_bytes();
    assert(spec_u32_to_le_bytes(x).len() == 4);
}

/// Appends the four little-endian bytes of `x`.
pub fn push_u32(v: &mut Vec<u8>, x: u32)
    ensures
        final(v)@ == old(v)@ + le_u32(x),
{
    let mut b = u32_to_le_bytes(x);
    v.append(&mut b);
}

/// Reads the four little-endian bytes at `at`.
pub fn read_u32(src: &[u8], at: usize) -> (r: u32)
    requires
        at + 4 <= src@.len(),
    ensures
        r == u32_at(src@, at as int),
{
    let _n = src.len();
    u32_from_le_bytes(slice_subrange(src, at, at + 4))
}

/// Appends the byte of a boolean field.
pub fn push_bool(v: &mut Vec<u8>, b: bool)
    ensures
        final(v)@ == old(v)@.push(bool_byte(b)),
{
    if b {
        v.push(1u8);
    } else {
        v.push(0u8);
    }
}

/// Appends the eight little-endian bytes of `x`.
pub fn push_u64(v: &mut Vec<u8>, x: u64)
    ensures
        final(v)@ == old(v)@ + le_u64(x),
{
    let mut b = u64_to_le_bytes(x);
    v.append(&mut b);
}

/// Appends the 32 bytes of an identity.
pub fn push_key(v: &mut Vec<u8>, k: &Pubkey)
    ensures
        final(v)@ == old(v)@ + k@,
{
    let s = k.bytes.as_slice();
    let mut i: usize = 0;
    while i < 32
        invariant
            0 <= i <= 32,
            s@ == k@,
            k@.len() == 32,
            v@ == old(v)@ + k@.subrange(0, i as int),
        decreases 32 - i,
    {
        v.push(s[i]);
        i = i + 1;
        assert(k@.subrange(0, i as int) =~= k@.subrange(0, i - 1) + seq![k@[i - 1]]);
    }
    assert(k@.subrange(0, 32) =~= k@);
}

/// Appends raw bytes.
pub fn push_slice(v: &mut Vec<u8>, s: &[u8])
    ensures
        final(v)@ == old(v)@ + s@,
{
    let mut i: usize = 0;
    while i < s.len()
        invariant
            0 <= i <= s@.len(),
            v@ == old(v)@ + s@.subrange(0, i as int),
        decreases s@.len() - i,
    {
        v.push(s[i]);
        i = i + 1;
        assert(s@.subrange(0, i as int) =~= s@.subrange(0, i - 1) + seq![s@[i - 1]]);
    }
    assert(s@.subrange(0, s@.len() as int) =~= s@);
}

/// Reads the eight little-endian bytes at `at`.
pub fn read_u64(src: &[u8], at: usize) -> (r: u64)
    requires
        at + 8 <= src@.len(),
    ensures
        r == u64_at(src@, at as int),
{
    let _n = src.len();
    u64_from_le_bytes(slice_subrange(src, at, at + 8))
}

/// Reads the 32 bytes of an identity at `at`.
pub fn read_key(src: &[u8], at: usize) -> (r: Pubkey)
    requires
        at + 32 <= src@.len(),
    ensures
        r@ == src@.subrange(at as int, at + 32),
{
    let _n = src.len();
    let mut a = [0u8; 32];
    let mut i: usize = 0;
    while i < 32
        invariant
            0 <= i <= 32,
            at + 32 <= src@.len(),
            src@.len() <= usize::MAX,
            a@.len() == 32,
            forall|k: int| 0 <= k < i ==> a@[k] == src@[at + k],
        decreases 32 - i,
    {
        a[i] = src[at + i];
        i = i + 1;
    }
    let r = Pubkey { bytes: a };
    assert(r@ =~= src@.subrange(at as int, at + 32));
    r
}

/// Copies `src` into `dst` from `at` on, keeping every other byte of `dst`.
pub fn write_at(dst: &mut Vec<u8>, at: usize, src: &[u8])
    requires
        at + src@.len() <= old(dst)@.len(),
    ensures
        final(dst)@ == splice(old(dst)@, at as int, src@),
{
    let _n = dst.len();
    let mut i: usize = 0;
    while i < src.len()
        invariant
            0 <= i <= src@.len(),
            at + src@.len() <= dst@.len(),
            dst@.len() <= usize::MAX,
            dst@.len() == old(dst)@.len(),
            forall|k: int|
                0 <= k < dst@.len() ==> #[trigger] dst@[k] == if at <= k < at + i {
                    src@[k - at]
                } else {
                    old(dst)@[k]
                },
        decreases src@.len() - i,
    {
        dst.set(at + i, src[i]);
        i = i + 1;
    }
    assert(dst@ =~= splice(old(dst)@, at as int, src@));
}

} // verus!
