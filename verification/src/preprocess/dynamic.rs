//! Rewriting of the dynamic table and of the file header.

use vstd::prelude::*;
use vstd::slice::slice_subrange;
use crate::bytes::{append_range, fits, put_u16, read_u64, splice, u64_at, write_bytes, write_u16};
use crate::elf::{
    D_TAG, D_VAL, DT_AUDIT, DT_CONFIG, DT_DEBUG, DT_DEPAUDIT, DT_FINI, DT_FINI_ARRAY,
    DT_GNU_CONFLICT, DT_GNU_HASH, DT_GNU_LIBLIST, DT_HASH, DT_INIT, DT_INIT_ARRAY, DT_JMPREL,
    DT_MOVETAB, DT_PLTGOT, DT_PLTPAD, DT_PREINIT_ARRAY, DT_REL, DT_RELA, DT_STRTAB, DT_SYMINFO,
    DT_SYMTAB, DT_SYMTAB_SHNDX, DT_TLSDESC_GOT, DT_TLSDESC_PLT, DT_VERDEF, DT_VERNEED, DT_VERSYM,
    DYN_SIZE, E_ENTRY, E_PHNUM, E_SHOFF, FILE_HEADER_SIZE, low_word, low_word_of,
};
use crate::error::LinkError;
use crate::metadata::{Geometry, Metadata};
use crate::preprocess::plan::ADDED_HEADER_COUNT;
use crate::table::{outcome, shift_field, shift_field_in, Space, table_range, table_span};

verus! {

/// True for the tags of the dynamic table whose value is an address.
pub open spec fn holds_address(tag: u32) -> bool {
    tag == DT_INIT || tag == DT_FINI || tag == DT_PLTGOT || tag == DT_REL || tag == DT_JMPREL
        || tag == DT_INIT_ARRAY || tag == DT_FINI_ARRAY || tag == DT_PREINIT_ARRAY || tag
        == DT_RELA || tag == DT_HASH || tag == DT_STRTAB || tag == DT_SYMTAB || tag == DT_DEBUG
        || tag == DT_SYMTAB_SHNDX || tag == DT_GNU_HASH || tag == DT_TLSDESC_PLT || tag
        == DT_TLSDESC_GOT || tag == DT_GNU_CONFLICT || tag == DT_GNU_LIBLIST || tag == DT_CONFIG
        || tag == DT_DEPAUDIT || tag == DT_AUDIT || tag == DT_PLTPAD || tag == DT_MOVETAB || tag
        == DT_SYMINFO || tag == DT_VERSYM || tag == DT_VERDEF || tag == DT_VERNEED
}

/// True for the tags of the dynamic table whose value is an address.
pub fn is_address_tag(tag: u32) -> (r: bool)
    ensures
        r == holds_address(tag),
{
    tag == DT_INIT || tag == DT_FINI || tag == DT_PLTGOT || tag == DT_REL || tag == DT_JMPREL
        || tag == DT_INIT_ARRAY || tag == DT_FINI_ARRAY || tag == DT_PREINIT_ARRAY || tag
        == DT_RELA || tag == DT_HASH || tag == DT_STRTAB || tag == DT_SYMTAB || tag == DT_DEBUG
        || tag == DT_SYMTAB_SHNDX || tag == DT_GNU_HASH || tag == DT_TLSDESC_PLT || tag
        == DT_TLSDESC_GOT || tag == DT_GNU_CONFLICT || tag == DT_GNU_LIBLIST || tag == DT_CONFIG
        || tag == DT_DEPAUDIT || tag == DT_AUDIT || tag == DT_PLTPAD || tag == DT_MOVETAB || tag
        == DT_SYMINFO || tag == DT_VERSYM || tag == DT_VERDEF || tag == DT_VERNEED
}

/// `s` with the value of every address-bearing entry of the dynamic table
/// between `pos` and `end` shifted.
pub open spec fn shift_dynamic(s: Seq<u8>, md: Geometry, pos: int, end: int) -> Result<
    Seq<u8>,
    LinkError,
>
    decreases end - pos,
{
    if pos + DYN_SIZE > end {
        Ok(s)
    } else if holds_address(low_word(u64_at(s, pos + D_TAG))) {
        match shift_field(s, md, Space::Virtual, pos + D_VAL) {
            Ok(t) => shift_dynamic(t, md, pos + DYN_SIZE, end),
            Err(e) => Err(e),
        }
    } else {
        shift_dynamic(s, md, pos + DYN_SIZE, end)
    }
}

/// Shifts the value of every address-bearing entry of the dynamic table.
pub fn shift_dynamic_in(buf: &mut Vec<u8>, md: &Metadata, base: usize, end: usize) -> (r: Result<
    (),
    LinkError,
>)
    requires
        base <= end <= old(buf)@.len(),
    ensures
        outcome(r, final(buf)@, shift_dynamic(old(buf)@, md.geometry(), base as int, end as int)),
        final(buf)@.len() == old(buf)@.len(),
{
    let mut pos: usize = base;
    while end - pos >= DYN_SIZE
        invariant
            base <= pos <= end <= buf@.len(),
            buf@.len() == old(buf)@.len(),
            shift_dynamic(old(buf)@, md.geometry(), base as int, end as int) == shift_dynamic(
                buf@,
                md.geometry(),
                pos as int,
                end as int,
            ),
        decreases end - pos,
    {
        if is_address_tag(low_word_of(read_u64(buf.as_slice(), pos + D_TAG))) {
            shift_field_in(buf, md, Space::Virtual, pos + D_VAL)?;
        }
        pos = pos + DYN_SIZE;
    }
    Ok(())
}

/// `s` with the entry `index` spliced out of the dynamic table at `base`:
/// the entries after it, up to and including the terminator at position
/// `count`, move down by one slot.
pub open spec fn removed_entry(s: Seq<u8>, base: int, count: int, index: int) -> Result<
    Seq<u8>,
    LinkError,
> {
    match table_span(s.len() as int, base, count + 1, DYN_SIZE as int) {
        Err(e) => Err(e),
        Ok(span) => if index >= count {
            Err(LinkError::OutOfBounds)
        } else {
            Ok(
                splice(
                    s,
                    base + DYN_SIZE * index,
                    s.subrange(base + DYN_SIZE * (index + 1), span.1 as int),
                ),
            )
        },
    }
}

/// Splices the entry `index` out of the dynamic table at `base`.
pub fn remove_entry(buf: &mut Vec<u8>, base: usize, count: usize, index: usize) -> (r: Result<
    (),
    LinkError,
>)
    ensures
        outcome(r, final(buf)@, removed_entry(old(buf)@, base as int, count as int, index as int)),
        final(buf)@.len() == old(buf)@.len(),
{
    let total: usize = buf.len();
    if count == usize::MAX {
        return Err(LinkError::OutOfBounds);
    }
    let span = table_range(total, base as u64, count as u64 + 1, DYN_SIZE)?;
    if index >= count {
        return Err(LinkError::OutOfBounds);
    }
    let mut moved_down: Vec<u8> = Vec::new();
    append_range(
        &mut moved_down,
        buf.as_slice(),
        base + DYN_SIZE * (index + 1),
        span.1,
    );
    proof {
        assert(Seq::<u8>::empty() + buf@.subrange(base + DYN_SIZE * (index + 1), span.1 as int)
            =~= buf@.subrange(base + DYN_SIZE * (index + 1), span.1 as int));
    }
    write_bytes(buf, base + DYN_SIZE * index, moved_down.as_slice());
    Ok(())
}

/// `s` with the file header adapted: the offset of the section header
/// table and the entry point are shifted, and the number of program headers
/// grows by the number of headers for which room was made.
pub open spec fn rewritten_file_header(s: Seq<u8>, md: Geometry, ph_num: u16) -> Result<
    Seq<u8>,
    LinkError,
> {
    if s.len() < FILE_HEADER_SIZE {
        Err(LinkError::OutOfBounds)
    } else {
        match shift_field(s, md, Space::Physical, E_SHOFF as int) {
            Err(e) => Err(e),
            Ok(t) => match shift_field(t, md, Space::Virtual, E_ENTRY as int) {
                Err(e) => Err(e),
                Ok(u) => if ph_num + ADDED_HEADER_COUNT > u16::MAX {
                    Err(LinkError::ArithmeticOverflow)
                } else {
                    Ok(put_u16(u, E_PHNUM as int, (ph_num + ADDED_HEADER_COUNT) as u16))
                },
            },
        }
    }
}

/// Adapts the file header to the shift and the added program headers.
pub fn rewrite_file_header(buf: &mut Vec<u8>, md: &Metadata, ph_num: u16) -> (r: Result<
    (),
    LinkError,
>)
    ensures
        outcome(r, final(buf)@, rewritten_file_header(old(buf)@, md.geometry(), ph_num)),
        final(buf)@.len() == old(buf)@.len(),
{
    if buf.len() < FILE_HEADER_SIZE {
        return Err(LinkError::OutOfBounds);
    }
    shift_field_in(buf, md, Space::Physical, E_SHOFF)?;
    shift_field_in(buf, md, Space::Virtual, E_ENTRY)?;
    match ph_num.checked_add(ADDED_HEADER_COUNT) {
        Some(n) => {
            write_u16(buf, E_PHNUM, n);
            Ok(())
        },
        None => Err(LinkError::ArithmeticOverflow),
    }
}

} // verus!
