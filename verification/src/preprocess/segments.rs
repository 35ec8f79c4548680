//! Rewriting of the program header table and copying of the file contents
//! to their shifted positions.

use vstd::prelude::*;
use vstd::slice::slice_subrange;
use crate::bytes::{
    fits, put_u64, read_u32, read_u64, splice, u32_at, u64_at, write_bytes, write_u64,
};
use crate::elf::{
    P_FILESZ, P_MEMSZ, P_OFFSET, P_PADDR, P_TYPE, P_VADDR, PF_R, PROGRAM_HEADER_SIZE, ProgramHeader,
    PT_LOAD, PT_PHDR, put_program_header, write_program_header,
};
use crate::error::LinkError;
use crate::metadata::{Geometry, Metadata};
use crate::table::{grow_field, grow_field_in, outcome, shift_field, shift_field_in, Space};

verus! {

/// True for the program headers that must keep covering the program header
/// table: the load segment at file offset zero and the segment that
/// describes the table itself.
pub open spec fn covers_headers(s: Seq<u8>, pos: int) -> bool {
    (u32_at(s, pos + P_TYPE) == PT_LOAD && u64_at(s, pos + P_OFFSET) == 0) || u32_at(
        s,
        pos + P_TYPE,
    ) == PT_PHDR
}

/// `s` with the program header at `pos` adapted to the shift: a segment that
/// covers the program header table grows by the shift, in the file and in
/// memory; any other segment has its offset and its addresses shifted.
pub open spec fn shift_program_header(s: Seq<u8>, md: Geometry, pos: int) -> Result<
    Seq<u8>,
    LinkError,
> {
    if covers_headers(s, pos) {
        match grow_field(s, pos + P_FILESZ, md.ph_shift_bytes) {
            Ok(t) => grow_field(t, pos + P_MEMSZ, md.ph_shift_bytes),
            Err(e) => Err(e),
        }
    } else {
        match shift_field(s, md, Space::Physical, pos + P_OFFSET) {
            Ok(t) => match shift_field(t, md, Space::Virtual, pos + P_VADDR) {
                Ok(u) => shift_field(u, md, Space::Virtual, pos + P_PADDR),
                Err(e) => Err(e),
            },
            Err(e) => Err(e),
        }
    }
}

/// `s` with every program header between `pos` and `end` adapted to the shift.
pub open spec fn shift_program_headers(s: Seq<u8>, md: Geometry, pos: int, end: int) -> Result<
    Seq<u8>,
    LinkError,
>
    decreases end - pos,
{
    if pos + PROGRAM_HEADER_SIZE > end {
        Ok(s)
    } else {
        match shift_program_header(s, md, pos) {
            Ok(t) => shift_program_headers(t, md, pos + PROGRAM_HEADER_SIZE, end),
            Err(e) => Err(e),
        }
    }
}

/// The program header of the segment that loads the duplicate of the
/// relocation table.
pub open spec fn relocation_segment(md: Geometry) -> Result<ProgramHeader, LinkError> {
    if md.new_rela_paddr + md.ph_shift_bytes > u64::MAX || md.new_rela_vaddr + md.ph_shift_bytes
        > u64::MAX {
        Err(LinkError::ArithmeticOverflow)
    } else {
        Ok(
            ProgramHeader {
                p_type: PT_LOAD,
                p_flags: PF_R,
                p_offset: (md.new_rela_paddr + md.ph_shift_bytes) as u64,
                p_vaddr: (md.new_rela_vaddr + md.ph_shift_bytes) as u64,
                p_paddr: (md.new_rela_vaddr + md.ph_shift_bytes) as u64,
                p_filesz: md.rela_size,
                p_memsz: md.rela_size,
                p_align: md.load_align_constraint,
            },
        )
    }
}

/// `s` with the program header table between `base` and `end` rewritten:
/// every header is adapted to the shift, then the last slot of the table
/// receives the header of the new relocation segment.
pub open spec fn rewritten_program_headers(s: Seq<u8>, md: Geometry, base: int, end: int) -> Result<
    Seq<u8>,
    LinkError,
> {
    match shift_program_headers(s, md, base, end) {
        Err(e) => Err(e),
        Ok(t) => match relocation_segment(md) {
            Err(e) => Err(e),
            Ok(h) => Ok(put_program_header(t, end - PROGRAM_HEADER_SIZE, h)),
        },
    }
}

/// Adapts the program header at `pos` to the shift.
pub fn shift_program_header_in(buf: &mut Vec<u8>, md: &Metadata, pos: usize) -> (r: Result<
    (),
    LinkError,
>)
    requires
        fits(old(buf)@, pos as int, PROGRAM_HEADER_SIZE as int),
    ensures
        outcome(r, final(buf)@, shift_program_header(old(buf)@, md.geometry(), pos as int)),
        final(buf)@.len() == old(buf)@.len(),
{
    let total: usize = buf.len();
    let p_type: u32 = read_u32(buf.as_slice(), pos + P_TYPE);
    let p_offset: u64 = read_u64(buf.as_slice(), pos + P_OFFSET);
    if (p_type == PT_LOAD && p_offset == 0) || p_type == PT_PHDR {
        grow_field_in(buf, pos + P_FILESZ, md.ph_shift_bytes)?;
        grow_field_in(buf, pos + P_MEMSZ, md.ph_shift_bytes)?;
    } else {
        shift_field_in(buf, md, Space::Physical, pos + P_OFFSET)?;
        shift_field_in(buf, md, Space::Virtual, pos + P_VADDR)?;
        shift_field_in(buf, md, Space::Virtual, pos + P_PADDR)?;
    }
    Ok(())
}

/// Rewrites the program header table between `base` and `end`.
#[verifier::rlimit(30)]
pub fn rewrite_program_headers(buf: &mut Vec<u8>, md: &Metadata, base: usize, end: usize) -> (r:
    Result<(), LinkError>)
    requires
        base + PROGRAM_HEADER_SIZE <= end <= old(buf)@.len(),
    ensures
        outcome(r, final(buf)@, rewritten_program_headers(old(buf)@, md.geometry(), base as int, end as int)),
        final(buf)@.len() == old(buf)@.len(),
{
    let mut pos: usize = base;
    while end - pos >= PROGRAM_HEADER_SIZE
        invariant
            base <= pos <= end <= buf@.len(),
            buf@.len() == old(buf)@.len(),
            shift_program_headers(old(buf)@, md.geometry(), base as int, end as int) == shift_program_headers(
                buf@,
                md.geometry(),
                pos as int,
                end as int,
            ),
        decreases end - pos,
    {
        shift_program_header_in(buf, md, pos)?;
        pos = pos + PROGRAM_HEADER_SIZE;
    }
    let offset: u64 = match md.new_rela_paddr.checked_add(md.ph_shift_bytes) {
        Some(v) => v,
        None => {
            return Err(LinkError::ArithmeticOverflow);
        },
    };
    let address: u64 = match md.new_rela_vaddr.checked_add(md.ph_shift_bytes) {
        Some(v) => v,
        None => {
            return Err(LinkError::ArithmeticOverflow);
        },
    };
    let h = ProgramHeader {
        p_type: PT_LOAD,
        p_flags: PF_R,
        p_offset: offset,
        p_vaddr: address,
        p_paddr: address,
        p_filesz: md.rela_size,
        p_memsz: md.rela_size,
        p_align: md.load_align_constraint,
    };
    write_program_header(buf, end - PROGRAM_HEADER_SIZE, &h);
    Ok(())
}

/// The image `s` with the contents of the executable `exec` copied to their
/// shifted positions: what lies between the end of the program header table
/// and the section header table moves up by the shift; a duplicate of the
/// relocation table follows it; the section header table and what comes after
/// it move up by the shift and the size of the relocation table.
pub open spec fn copied_contents(s: Seq<u8>, exec: Seq<u8>, md: Geometry, sh_offset: u64) -> Result<
    Seq<u8>,
    LinkError,
> {
    let start = md.ph_physical_shift_start as int;
    let shift = md.ph_shift_bytes as int;
    let size = md.rela_size as int;
    if !(start <= sh_offset <= exec.len()) || md.original_rela_paddr + size > exec.len()
        || md.new_rela_paddr + shift + size > s.len() || s.len() != exec.len() + shift + size {
        Err(LinkError::OutOfBounds)
    } else {
        let s1 = splice(s, start + shift, exec.subrange(start, sh_offset as int));
        let s2 = splice(
            s1,
            md.new_rela_paddr + shift,
            exec.subrange(md.original_rela_paddr as int, md.original_rela_paddr + size),
        );
        Ok(splice(s2, sh_offset + shift + size, exec.subrange(sh_offset as int, exec.len() as int)))
    }
}

/// Copies the contents of `exec_data` to their shifted positions in `buf`.
pub fn copy_contents(buf: &mut Vec<u8>, exec_data: &[u8], md: &Metadata, sh_offset: u64) -> (r:
    Result<(), LinkError>)
    ensures
        outcome(r, final(buf)@, copied_contents(old(buf)@, exec_data@, md.geometry(), sh_offset)),
        final(buf)@.len() == old(buf)@.len(),
{
    let len: usize = exec_data.len();
    let total: usize = buf.len();
    let start: u64 = md.ph_physical_shift_start;
    let shift: u64 = md.ph_shift_bytes;
    let size: u64 = md.rela_size;
    if !(start <= sh_offset && sh_offset <= len as u64) {
        return Err(LinkError::OutOfBounds);
    }
    match (len as u64).checked_add(shift) {
        Some(a) => match a.checked_add(size) {
            Some(b) => {
                if b != total as u64 {
                    return Err(LinkError::OutOfBounds);
                }
            },
            None => {
                return Err(LinkError::OutOfBounds);
            },
        },
        None => {
            return Err(LinkError::OutOfBounds);
        },
    }
    match md.original_rela_paddr.checked_add(size) {
        Some(a) => {
            if a > len as u64 {
                return Err(LinkError::OutOfBounds);
            }
        },
        None => {
            return Err(LinkError::OutOfBounds);
        },
    }
    if md.new_rela_paddr > len as u64 {
        return Err(LinkError::OutOfBounds);
    }
    write_bytes(
        buf,
        (start + shift) as usize,
        slice_subrange(exec_data, start as usize, sh_offset as usize),
    );
    write_bytes(
        buf,
        (md.new_rela_paddr + shift) as usize,
        slice_subrange(
            exec_data,
            md.original_rela_paddr as usize,
            (md.original_rela_paddr + size) as usize,
        ),
    );
    write_bytes(
        buf,
        (sh_offset + shift + size) as usize,
        slice_subrange(exec_data, sh_offset as usize, len),
    );
    Ok(())
}

} // verus!
