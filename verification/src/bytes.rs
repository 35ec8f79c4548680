//! Little-endian field access over byte buffers.
//!
//! Every header and table record of the executable is read and written through
//! these accessors; no native struct layout or alignment is assumed.

use vstd::bytes::*;
use vstd::prelude::*;
use vstd::slice::slice_subrange;

verus! {

/// True when `width` bytes starting at `at` lie inside `s`.
pub open spec fn fits(s: Seq<u8>, at: int, width: int) -> bool {
    0 <= at && 0 <= width && at + width <= s.len()
}

/// `s` with the bytes starting at `at` replaced by `patch`.
pub open spec fn splice(s: Seq<u8>, at: int, patch: Seq<u8>) -> Seq<u8>
    recommends
        fits(s, at, patch.len() as int),
{
    s.subrange(0, at) + patch + s.subrange(at + patch.len(), s.len() as int)
}

/// The 16-bit little-endian value stored at `at`.
pub open spec fn u16_at(s: Seq<u8>, at: int) -> u16
    recommends
        fits(s, at, 2),
{
    spec_u16_from_le_bytes(s.subrange(at, at + 2))
}

/// The 32-bit little-endian value stored at `at`.
pub open spec fn u32_at(s: Seq<u8>, at: int) -> u32
    recommends
        fits(s, at, 4),
{
    spec_u32_from_le_bytes(s.subrange(at, at + 4))
}

/// The 64-bit little-endian value stored at `at`.
pub open spec fn u64_at(s: Seq<u8>, at: int) -> u64
    recommends
        fits(s, at, 8),
{
    spec_u64_from_le_bytes(s.subrange(at, at + 8))
}

/// `s` with the 16-bit value `v` stored little-endian at `at`.
pub open spec fn put_u16(s: Seq<u8>, at: int, v: u16) -> Seq<u8>
    recommends
        fits(s, at, 2),
{
    splice(s, at, spec_u16_to_le_bytes(v))
}

/// `s` with the 32-bit value `v` stored little-endian at `at`.
pub open spec fn put_u32(s: Seq<u8>, at: int, v: u32) -> Seq<u8>
    recommends
        fits(s, at, 4),
{
    splice(s, at, spec_u32_to_le_bytes(v))
}

/// `s` with the 64-bit value `v` stored little-endian at `at`.
pub open spec fn put_u64(s: Seq<u8>, at: int, v: u64) -> Seq<u8>
    recommends
        fits(s, at, 8),
{
    splice(s, at, spec_u64_to_le_bytes(v))
}

/// `count` copies of `byte`.
pub open spec fn repeated(byte: u8, count: int) -> Seq<u8> {
    Seq::new(count as nat, |i: int| byte)
}

/// A 64-bit value that was stored is read back unchanged.
pub proof fn lemma_u64_read_back(s: Seq<u8>, at: int, v: u64)
    requires
        fits(s, at, 8),
    ensures
        u64_at(put_u64(s, at, v), at) == v,
        put_u64(s, at, v).len() == s.len(),
{
    lemma_auto_spec_u64_to_from_le_bytes();
    assert(put_u64(s, at, v).subrange(at, at + 8) =~= spec_u64_to_le_bytes(v));
}

/// A 32-bit value that was stored is read back unchanged.
pub proof fn lemma_u32_read_back(s: Seq<u8>, at: int, v: u32)
    requires
        fits(s, at, 4),
    ensures
        u32_at(put_u32(s, at, v), at) == v,
        put_u32(s, at, v).len() == s.len(),
{
    lemma_auto_spec_u32_to_from_le_bytes();
    assert(put_u32(s, at, v).subrange(at, at + 4) =~= spec_u32_to_le_bytes(v));
}

/// A 16-bit value that was stored is read back unchanged.
pub proof fn lemma_u16_read_back(s: Seq<u8>, at: int, v: u16)
    requires
        fits(s, at, 2),
    ensures
        u16_at(put_u16(s, at, v), at) == v,
        put_u16(s, at, v).len() == s.len(),
{
    lemma_auto_spec_u16_to_from_le_bytes();
    assert(put_u16(s, at, v).subrange(at, at + 2) =~= spec_u16_to_le_bytes(v));
}

/// Storing a 64-bit value keeps the length.
pub proof fn lemma_put_u64_len(s: Seq<u8>, at: int, v: u64)
    requires
        fits(s, at, 8),
    ensures
        put_u64(s, at, v).len() == s.len(),
{
    lemma_auto_spec_u64_to_from_le_bytes();
}

/// Storing a 32-bit value keeps the length.
pub proof fn lemma_put_u32_len(s: Seq<u8>, at: int, v: u32)
    requires
        fits(s, at, 4),
    ensures
        put_u32(s, at, v).len() == s.len(),
{
    lemma_auto_spec_u32_to_from_le_bytes();
}

/// Storing a 64-bit value changes no byte outside the field.
pub proof fn lemma_put_u64_frame(s: Seq<u8>, at: int, v: u64)
    requires
        fits(s, at, 8),
    ensures
        forall|j: int| 0 <= j < s.len() && !(at <= j < at + 8) ==> put_u64(s, at, v)[j] == s[j],
{
    lemma_auto_spec_u64_to_from_le_bytes();
}

/// Storing a 32-bit value changes no byte outside the field.
pub proof fn lemma_put_u32_frame(s: Seq<u8>, at: int, v: u32)
    requires
        fits(s, at, 4),
    ensures
        forall|j: int| 0 <= j < s.len() && !(at <= j < at + 4) ==> put_u32(s, at, v)[j] == s[j],
{
    lemma_auto_spec_u32_to_from_le_bytes();
}

/// Storing a 16-bit value changes no byte outside the field.
pub proof fn lemma_put_u16_frame(s: Seq<u8>, at: int, v: u16)
    requires
        fits(s, at, 2),
    ensures
        forall|j: int| 0 <= j < s.len() && !(at <= j < at + 2) ==> put_u16(s, at, v)[j] == s[j],
{
    lemma_auto_spec_u16_to_from_le_bytes();
}

/// Storing a 16-bit value keeps the length.
pub proof fn lemma_put_u16_len(s: Seq<u8>, at: int, v: u16)
    requires
        fits(s, at, 2),
    ensures
        put_u16(s, at, v).len() == s.len(),
{
    lemma_auto_spec_u16_to_from_le_bytes();
}

/// Reads the 16-bit little-endian value stored at `at`.
pub fn read_u16(data: &[u8], at: usize) -> (r: u16)
    requires
        fits(data@, at as int, 2),
    ensures
        r == u16_at(data@, at as int),
{
    let len: usize = data.len();
    u16_from_le_bytes(slice_subrange(data, at, at + 2))
}

/// Reads the 32-bit little-endian value stored at `at`.
pub fn read_u32(data: &[u8], at: usize) -> (r: u32)
    requires
        fits(data@, at as int, 4),
    ensures
        r == u32_at(data@, at as int),
{
    let len: usize = data.len();
    u32_from_le_bytes(slice_subrange(data, at, at + 4))
}

/// Reads the 64-bit little-endian value stored at `at`.
pub fn read_u64(data: &[u8], at: usize) -> (r: u64)
    requires
        fits(data@, at as int, 8),
    ensures
        r == u64_at(data@, at as int),
{
    let len: usize = data.len();
    u64_from_le_bytes(slice_subrange(data, at, at + 8))
}

/// Overwrites the bytes of `buf` starting at `at` with `patch`.
pub fn write_bytes(buf: &mut Vec<u8>, at: usize, patch: &[u8])
    requires
        fits(old(buf)@, at as int, patch@.len() as int),
    ensures
        final(buf)@ == splice(old(buf)@, at as int, patch@),
        final(buf)@.len() == old(buf)@.len(),
{
    let n: usize = patch.len();
    let total: usize = buf.len();
    let mut k: usize = 0;
    while k < n
        invariant
            n == patch@.len(),
            k <= n,
            at + n <= buf@.len(),
            buf@.len() == total,
            total == old(buf)@.len(),
            buf@ == splice(old(buf)@, at as int, patch@.subrange(0, k as int)),
        decreases n - k,
    {
        buf.set(at + k, patch[k]);
        k += 1;
        proof {
            assert(buf@ =~= splice(old(buf)@, at as int, patch@.subrange(0, k as int)));
        }
    }
    proof {
        assert(patch@.subrange(0, n as int) =~= patch@);
    }
}

/// Overwrites `count` bytes of `buf` starting at `at` with `byte`.
pub fn fill_bytes(buf: &mut Vec<u8>, at: usize, count: usize, byte: u8)
    requires
        fits(old(buf)@, at as int, count as int),
    ensures
        final(buf)@ == splice(old(buf)@, at as int, repeated(byte, count as int)),
        final(buf)@.len() == old(buf)@.len(),
{
    let total: usize = buf.len();
    let mut k: usize = 0;
    while k < count
        invariant
            k <= count,
            at + count <= buf@.len(),
            buf@.len() == total,
            total == old(buf)@.len(),
            buf@ == splice(old(buf)@, at as int, repeated(byte, k as int)),
        decreases count - k,
    {
        buf.set(at + k, byte);
        k += 1;
        proof {
            assert(buf@ =~= splice(old(buf)@, at as int, repeated(byte, k as int)));
        }
    }
}

/// Stores the 16-bit value `v` little-endian at `at`.
pub fn write_u16(buf: &mut Vec<u8>, at: usize, v: u16)
    requires
        fits(old(buf)@, at as int, 2),
    ensures
        final(buf)@ == put_u16(old(buf)@, at as int, v),
        final(buf)@.len() == old(buf)@.len(),
        u16_at(final(buf)@, at as int) == v,
{
    let bytes = u16_to_le_bytes(v);
    write_bytes(buf, at, bytes.as_slice());
    proof {
        lemma_u16_read_back(old(buf)@, at as int, v);
    }
}

/// Stores the 32-bit value `v` little-endian at `at`.
pub fn write_u32(buf: &mut Vec<u8>, at: usize, v: u32)
    requires
        fits(old(buf)@, at as int, 4),
    ensures
        final(buf)@ == put_u32(old(buf)@, at as int, v),
        final(buf)@.len() == old(buf)@.len(),
        u32_at(final(buf)@, at as int) == v,
{
    let bytes = u32_to_le_bytes(v);
    write_bytes(buf, at, bytes.as_slice());
    proof {
        lemma_u32_read_back(old(buf)@, at as int, v);
    }
}

/// Stores the 64-bit value `v` little-endian at `at`.
pub fn write_u64(buf: &mut Vec<u8>, at: usize, v: u64)
    requires
        fits(old(buf)@, at as int, 8),
    ensures
        final(buf)@ == put_u64(old(buf)@, at as int, v),
        final(buf)@.len() == old(buf)@.len(),
        u64_at(final(buf)@, at as int) == v,
{
    let bytes = u64_to_le_bytes(v);
    write_bytes(buf, at, bytes.as_slice());
    proof {
        lemma_u64_read_back(old(buf)@, at as int, v);
    }
}

/// A buffer of `len` zero bytes.
pub fn zeroed(len: usize) -> (r: Vec<u8>)
    ensures
        r@ == repeated(0, len as int),
{
    let mut r: Vec<u8> = Vec::new();
    let mut k: usize = 0;
    while k < len
        invariant
            k <= len,
            r@ == repeated(0, k as int),
        decreases len - k,
    {
        r.push(0);
        k += 1;
        proof {
            assert(r@ =~= repeated(0, k as int));
        }
    }
    r
}

/// Appends the bytes `src[from..to]` to `dst`.
pub fn append_range(dst: &mut Vec<u8>, src: &[u8], from: usize, to: usize)
    requires
        from <= to <= src@.len(),
    ensures
        final(dst)@ == old(dst)@ + src@.subrange(from as int, to as int),
{
    let mut i: usize = from;
    while i < to
        invariant
            from <= i <= to <= src@.len(),
            dst@ == old(dst)@ + src@.subrange(from as int, i as int),
        decreases to - i,
    {
        dst.push(src[i]);
        i += 1;
        proof {
            assert(dst@ =~= old(dst)@ + src@.subrange(from as int, i as int));
        }
    }
    proof {
        assert(old(dst)@ + src@.subrange(from as int, from as int) =~= old(dst)@);
    }
}

} // verus!
