//! Arithmetic modulo two to the 64th power, as the processor does it when a
//! displacement is stored into a field of fixed width.

use vstd::arithmetic::div_mod::lemma_mod_multiples_vanish;
use vstd::prelude::*;

verus! {

/// The value of `v` modulo two to the 64th power.
pub open spec fn wrap64(v: int) -> u64 {
    (v % 0x1_0000_0000_0000_0000) as u64
}

/// Reduces `v` modulo two to the 64th power.
pub fn wrap(v: i128) -> (r: u64)
    requires
        -0x2_0000_0000_0000_0000 <= v < 0x2_0000_0000_0000_0000,
    ensures
        r == wrap64(v as int),
{
    let lifted: u128 = (v + 0x2_0000_0000_0000_0000) as u128;
    proof {
        lemma_mod_multiples_vanish(2, v as int, 0x1_0000_0000_0000_0000);
    }
    (lifted % 0x1_0000_0000_0000_0000) as u64
}

/// The distance from `from` to `to`, plus `addend`, modulo two to the 64th power.
pub fn wrap_distance(to: u64, from: u64, addend: i64) -> (r: u64)
    ensures
        r == wrap64(to - from + addend),
{
    wrap(to as i128 - from as i128 + addend as i128)
}

/// The sum of `to` and `addend` modulo two to the 64th power.
pub fn wrap_sum(to: u64, addend: i64) -> (r: u64)
    ensures
        r == wrap64(to + addend),
{
    wrap(to as i128 + addend as i128)
}

/// Adding a distance to the place it was measured from gives back the
/// target, modulo two to the 64th power.
pub proof fn lemma_distance_recovers(to: u64, from: u64)
    ensures
        wrap64(from + wrap64(to - from)) == to,
{
    let m = 0x1_0000_0000_0000_0000int;
    let d = to - from;
    if d >= 0 {
        assert(d % m == d);
        assert((from + d) % m == to);
    } else {
        lemma_mod_multiples_vanish(1, d, m);
        assert((d + m) % m == d + m);
        assert(d % m == d + m);
        lemma_mod_multiples_vanish(1, to as int, m);
        assert((from + (d + m)) % m == to);
    }
}

/// The value of a 32-bit field read as a signed number.
pub open spec fn signed32(v: u32) -> int {
    if v >= 0x8000_0000 {
        v - 0x1_0000_0000
    } else {
        v as int
    }
}

/// A distance that fits in a signed 32-bit field is recovered from the
/// low half of its 64-bit form.
pub proof fn lemma_near_distance(to: u64, from: u64)
    requires
        -0x8000_0000 <= to - from < 0x8000_0000,
    ensures
        from + signed32((wrap64(to - from) as int % 0x1_0000_0000) as u32) == to,
{
    let m = 0x1_0000_0000_0000_0000int;
    let d = to - from;
    if d >= 0 {
        assert(d % m == d);
        assert(d % 0x1_0000_0000 == d);
    } else {
        lemma_mod_multiples_vanish(1, d, m);
        assert((d + m) % m == d + m);
        assert(d % m == d + m);
        lemma_mod_multiples_vanish(0xffff_ffff, d + 0x1_0000_0000, 0x1_0000_0000);
        assert((d + m) == 0x1_0000_0000 * 0xffff_ffff + (d + 0x1_0000_0000));
        assert((d + 0x1_0000_0000) % 0x1_0000_0000 == d + 0x1_0000_0000);
    }
}

} // verus!
