//! Rounding of offsets and addresses to alignment constraints.

use vstd::prelude::*;
use crate::error::LinkError;

verus! {

/// The smallest multiple of `constraint` that is not below `offset`.
pub open spec fn aligned(offset: int, constraint: int) -> int
    recommends
        constraint > 0,
{
    if offset % constraint == 0 {
        offset
    } else {
        offset + constraint - offset % constraint
    }
}

/// The smallest value not below `current` that leaves the same remainder as
/// `target` when divided by `constraint`.
pub open spec fn aligned_to(current: int, target: int, constraint: int) -> int
    recommends
        constraint > 0,
{
    let want = target % constraint;
    let have = current % constraint;
    if want >= have {
        current + (want - have)
    } else {
        current + (want + constraint - have)
    }
}

/// `aligned` as a step of a pass: an error when the constraint is zero or
/// the result leaves 64 bits.
pub open spec fn align_step(offset: u64, constraint: u64) -> Result<u64, LinkError> {
    if constraint == 0 {
        Err(LinkError::ZeroAlignment)
    } else if aligned(offset as int, constraint as int) > u64::MAX {
        Err(LinkError::ArithmeticOverflow)
    } else {
        Ok(aligned(offset as int, constraint as int) as u64)
    }
}

/// `aligned_to` as a step of a pass: an error when the constraint is zero or
/// the result leaves 64 bits.
pub open spec fn align_to_step(current: u64, target: u64, constraint: u64) -> Result<
    u64,
    LinkError,
> {
    if constraint == 0 {
        Err(LinkError::ZeroAlignment)
    } else if aligned_to(current as int, target as int, constraint as int) > u64::MAX {
        Err(LinkError::ArithmeticOverflow)
    } else {
        Ok(aligned_to(current as int, target as int, constraint as int) as u64)
    }
}

/// `aligned` is a multiple of the constraint, not below the offset and less
/// than one constraint above it.
pub proof fn lemma_aligned(offset: int, constraint: int)
    requires
        0 <= offset,
        0 < constraint,
    ensures
        aligned(offset, constraint) % constraint == 0,
        offset <= aligned(offset, constraint) < offset + constraint,
{
    let r = offset % constraint;
    if r != 0 {
        assert((offset + constraint - r) % constraint == 0) by (nonlinear_arith)
            requires
                r == offset % constraint,
                0 < constraint,
                0 <= offset,
        ;
    }
}

/// `aligned_to` has the remainder of the target, is not below the current
/// value and less than one constraint above it.
pub proof fn lemma_aligned_to(current: int, target: int, constraint: int)
    requires
        0 <= current,
        0 <= target,
        0 < constraint,
    ensures
        aligned_to(current, target, constraint) % constraint == target % constraint,
        current <= aligned_to(current, target, constraint) < current + constraint,
{
    let want = target % constraint;
    let have = current % constraint;
    if want >= have {
        assert((current + (want - have)) % constraint == want) by (nonlinear_arith)
            requires
                have == current % constraint,
                0 <= want < constraint,
                want >= have,
                0 <= current,
                0 < constraint,
        ;
    } else {
        assert((current + (want + constraint - have)) % constraint == want) by (nonlinear_arith)
            requires
                have == current % constraint,
                0 <= want < constraint,
                want < have,
                0 <= current,
                0 < constraint,
        ;
    }
}

/// Rounds `offset` up to a multiple of `constraint`.
pub fn align_by_constraint(offset: u64, constraint: u64) -> (r: Result<u64, LinkError>)
    ensures
        r == align_step(offset, constraint),
        r is Ok ==> r->Ok_0 % constraint == 0 && offset <= r->Ok_0 < offset + constraint,
{
    if constraint == 0 {
        return Err(LinkError::ZeroAlignment);
    }
    proof {
        lemma_aligned(offset as int, constraint as int);
    }
    let rest: u64 = offset % constraint;
    if rest == 0 {
        Ok(offset)
    } else {
        match offset.checked_add(constraint - rest) {
            Some(v) => Ok(v),
            None => Err(LinkError::ArithmeticOverflow),
        }
    }
}

/// Raises `current_offset` until it leaves the same remainder as
/// `target_offset` when divided by `constraint`.
pub fn align_to_offset_by_constraint(current_offset: u64, target_offset: u64, constraint: u64) -> (r:
    Result<u64, LinkError>)
    ensures
        r == align_to_step(current_offset, target_offset, constraint),
        r is Ok ==> r->Ok_0 % constraint == target_offset % constraint && current_offset
            <= r->Ok_0 < current_offset + constraint,
{
    if constraint == 0 {
        return Err(LinkError::ZeroAlignment);
    }
    proof {
        lemma_aligned_to(current_offset as int, target_offset as int, constraint as int);
    }
    let want: u64 = target_offset % constraint;
    let have: u64 = current_offset % constraint;
    let gap: u64 = if want >= have {
        want - have
    } else {
        want + (constraint - have)
    };
    match current_offset.checked_add(gap) {
        Some(v) => Ok(v),
        None => Err(LinkError::ArithmeticOverflow),
    }
}

} // verus!
