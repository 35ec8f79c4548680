//! The headers of the final executable: the dynamic table, the section
//! header table, the file header and the program header table are adapted to
//! the sections and the load-time relocations that merging has added.

use vstd::prelude::*;
use crate::align::{align_by_constraint, align_step};
use crate::bytes::{
    fits, put_u16, put_u64, read_u64, splice, u64_at, write_bytes, write_u16, write_u64,
};
use crate::elf::{
    D_TAG, D_VAL, DT_RELACOUNT, DT_RELASZ, DYN_SIZE, E_SHNUM, E_SHOFF, FILE_HEADER_SIZE, FileHeader,
    low_word, low_word_of, MIN_SECTION_ALIGNMENT, P_FILESZ, P_MEMSZ, PF_R, PF_W, PF_X,
    PROGRAM_HEADER_SIZE, ProgramHeader, PT_LOAD, put_program_header, put_section_header, RELA_SIZE,
    SECTION_HEADER_SIZE, SectionHeader, SH_SIZE, SHF_ALLOC, SHF_EXECINSTR, SHT_PROGBITS,
    write_program_header, write_section_header,
};
use crate::error::LinkError;
use crate::metadata::Metadata;
use crate::table::{
    grow_field, grow_field_in, locate, located, move_coordinate, moved, outcome, Space, table_range,
    table_span,
};

verus! {

/// Number of sections, and of segments, that merging adds.
pub const NEW_SECTION_COUNT: u16 = 2;

/// `s` with the entries of the dynamic table between `pos` and `end` that
/// give the size and the count of the load-time relocations raised by
/// `added_size` and `added_count`.
pub open spec fn grow_sizes(s: Seq<u8>, pos: int, end: int, added_size: u64, added_count: u64) -> Result<
    Seq<u8>,
    LinkError,
>
    decreases end - pos,
{
    if pos + DYN_SIZE > end {
        Ok(s)
    } else {
        let tag = low_word(u64_at(s, pos + D_TAG));
        let step = if tag == DT_RELASZ {
            grow_field(s, pos + D_VAL, added_size)
        } else if tag == DT_RELACOUNT {
            grow_field(s, pos + D_VAL, added_count)
        } else {
            Ok(s)
        };
        match step {
            Ok(t) => grow_sizes(t, pos + DYN_SIZE, end, added_size, added_count),
            Err(e) => Err(e),
        }
    }
}

/// Raises the size and the count of the load-time relocations in the dynamic table.
pub fn grow_sizes_in(buf: &mut Vec<u8>, base: usize, end: usize, added_size: u64, added_count: u64) -> (r:
    Result<(), LinkError>)
    requires
        base <= end <= old(buf)@.len(),
    ensures
        outcome(r, final(buf)@, grow_sizes(old(buf)@, base as int, end as int, added_size, added_count)),
        final(buf)@.len() == old(buf)@.len(),
{
    let mut pos: usize = base;
    while end - pos >= DYN_SIZE
        invariant
            base <= pos <= end <= buf@.len(),
            buf@.len() == old(buf)@.len(),
            grow_sizes(old(buf)@, base as int, end as int, added_size, added_count) == grow_sizes(
                buf@,
                pos as int,
                end as int,
                added_size,
                added_count,
            ),
        decreases end - pos,
    {
        let tag: u32 = low_word_of(read_u64(buf.as_slice(), pos + D_TAG));
        if tag == DT_RELASZ {
            grow_field_in(buf, pos + D_VAL, added_size)?;
        } else if tag == DT_RELACOUNT {
            grow_field_in(buf, pos + D_VAL, added_count)?;
        }
        pos = pos + DYN_SIZE;
    }
    Ok(())
}

/// Where merging has put the application.
#[derive(Debug, Clone, Copy)]
pub struct Regions {
    /// File offset and address at which the data of the application starts.
    pub data: (u64, u64),
    /// File offset and address at which the code of the application starts.
    pub code: (u64, u64),
    /// File offset behind the last section of the application.
    pub end: u64,
    /// Number of load-time relocations that were appended.
    pub appended: u64,
}

/// The sizes of the two regions, and where the section header table goes.
#[derive(Debug, Clone, Copy, PartialEq, Eq, Structural)]
pub struct Extents {
    /// File offset of the section header table.
    pub sh_offset: u64,
    /// Size of the data region in the file.
    pub data_size: u64,
    /// Size of the data region in memory.
    pub data_memory: u64,
    /// Address of the code region: where the code was placed.
    pub code_vaddr: u64,
    /// Size of the code region.
    pub code_size: u64,
    /// Size of the appended load-time relocations.
    pub added_size: u64,
}

/// The extents that follow from the regions.
pub open spec fn extents_of(regions: Regions) -> Result<Extents, LinkError> {
    match align_step(regions.end, MIN_SECTION_ALIGNMENT) {
        Err(e) => Err(e),
        Ok(sh_offset) => if regions.code.0 < regions.data.0 || regions.code.1 < regions.data.1
            || sh_offset < regions.code.0 || regions.appended * RELA_SIZE > u64::MAX {
            Err(LinkError::ArithmeticOverflow)
        } else {
            Ok(
                Extents {
                    sh_offset,
                    data_size: (regions.code.0 - regions.data.0) as u64,
                    data_memory: (regions.code.1 - regions.data.1) as u64,
                    code_vaddr: regions.code.1,
                    code_size: (sh_offset - regions.code.0) as u64,
                    added_size: (regions.appended * RELA_SIZE) as u64,
                },
            )
        },
    }
}

/// Computes the extents that follow from the regions.
pub fn compute_extents(regions: &Regions) -> (r: Result<Extents, LinkError>)
    ensures
        r == extents_of(*regions),
{
    let sh_offset: u64 = align_by_constraint(regions.end, MIN_SECTION_ALIGNMENT)?;
    if regions.code.0 < regions.data.0 || regions.code.1 < regions.data.1 || sh_offset
        < regions.code.0 {
        return Err(LinkError::ArithmeticOverflow);
    }
    let data_size: u64 = regions.code.0 - regions.data.0;
    let added_size: u64 = match regions.appended.checked_mul(RELA_SIZE as u64) {
        Some(v) => v,
        None => {
            return Err(LinkError::ArithmeticOverflow);
        },
    };
    Ok(
        Extents {
            sh_offset,
            data_size,
            data_memory: regions.code.1 - regions.data.1,
            code_vaddr: regions.code.1,
            code_size: sh_offset - regions.code.0,
            added_size,
        },
    )
}

/// The section header of the data region.
pub open spec fn data_section(regions: Regions, x: Extents) -> SectionHeader {
    SectionHeader {
        sh_name: 0,
        sh_type: SHT_PROGBITS,
        sh_flags: SHF_ALLOC,
        sh_addr: regions.data.1,
        sh_offset: regions.data.0,
        sh_size: x.data_size,
        sh_link: 0,
        sh_info: 0,
        sh_addralign: 16,
        sh_entsize: 0,
    }
}

/// The section header of the code region.
pub open spec fn code_section(regions: Regions, x: Extents) -> SectionHeader {
    SectionHeader {
        sh_name: 0,
        sh_type: SHT_PROGBITS,
        sh_flags: (SHF_ALLOC + SHF_EXECINSTR) as u64,
        sh_addr: x.code_vaddr,
        sh_offset: regions.code.0,
        sh_size: x.code_size,
        sh_link: 0,
        sh_info: 0,
        sh_addralign: 16,
        sh_entsize: 0,
    }
}

/// The program header of the segment that loads the data region.
pub open spec fn data_segment(md: Metadata, regions: Regions, x: Extents) -> ProgramHeader {
    ProgramHeader {
        p_type: PT_LOAD,
        p_flags: (PF_R + PF_W) as u32,
        p_offset: regions.data.0,
        p_vaddr: regions.data.1,
        p_paddr: regions.data.1,
        p_filesz: x.data_size,
        p_memsz: x.data_memory,
        p_align: md.load_align_constraint,
    }
}

/// The program header of the segment that loads the code region.
pub open spec fn code_segment(md: Metadata, regions: Regions, x: Extents) -> ProgramHeader {
    ProgramHeader {
        p_type: PT_LOAD,
        p_flags: (PF_R + PF_X + PF_W) as u32,
        p_offset: regions.code.0,
        p_vaddr: x.code_vaddr,
        p_paddr: x.code_vaddr,
        p_filesz: x.code_size,
        p_memsz: x.code_size,
        p_align: md.load_align_constraint,
    }
}

/// `s` with the dynamic table telling of the appended load-time relocations.
pub open spec fn grown_dynamic_table(s: Seq<u8>, md: Metadata, x: Extents, appended: u64) -> Result<
    Seq<u8>,
    LinkError,
> {
    match moved(md.geometry(), Space::Physical, md.dynamic_section_offset) {
        Err(e) => Err(e),
        Ok(base) => match table_span(
            s.len() as int,
            base as int,
            md.dynamic_section_count as int,
            DYN_SIZE as int,
        ) {
            Err(e) => Err(e),
            Ok(span) => grow_sizes(s, span.0 as int, span.1 as int, x.added_size, appended),
        },
    }
}

/// `s` with the section header table `table` stored at its new offset and
/// extended: the header of the relocation section grows by the appended
/// relocations, and the two new headers follow the old ones.
pub open spec fn new_section_headers(
    s: Seq<u8>,
    md: Metadata,
    h: FileHeader,
    table: Seq<u8>,
    regions: Regions,
    x: Extents,
) -> Result<Seq<u8>, LinkError> {
    match located(s.len() as int, x.sh_offset as int, table.len() as int) {
        Err(e) => Err(e),
        Ok(at) => match table_span(
            s.len() as int,
            x.sh_offset as int,
            h.sh_num + NEW_SECTION_COUNT,
            SECTION_HEADER_SIZE as int,
        ) {
            Err(e) => Err(e),
            Ok(span) => if md.rela_section_index >= h.sh_num + NEW_SECTION_COUNT {
                Err(LinkError::OutOfBounds)
            } else {
                match grow_field(
                    splice(s, at as int, table),
                    span.0 + md.rela_section_index * SECTION_HEADER_SIZE + SH_SIZE,
                    x.added_size,
                ) {
                    Err(e) => Err(e),
                    Ok(s1) => Ok(
                        put_section_header(
                            put_section_header(
                                s1,
                                span.1 - 2 * SECTION_HEADER_SIZE,
                                data_section(regions, x),
                            ),
                            span.1 - SECTION_HEADER_SIZE,
                            code_section(regions, x),
                        ),
                    ),
                }
            },
        },
    }
}

/// `s` with the file header pointing to the new section header table.
pub open spec fn new_file_header(s: Seq<u8>, h: FileHeader, x: Extents) -> Result<Seq<u8>, LinkError> {
    if s.len() < FILE_HEADER_SIZE {
        Err(LinkError::OutOfBounds)
    } else if h.sh_num + NEW_SECTION_COUNT > u16::MAX {
        Err(LinkError::ArithmeticOverflow)
    } else {
        Ok(
            put_u16(
                put_u64(s, E_SHOFF as int, x.sh_offset),
                E_SHNUM as int,
                (h.sh_num + NEW_SECTION_COUNT) as u16,
            ),
        )
    }
}

/// `s` with the last three program headers filled in: the segment of the
/// relocation table grows by the appended relocations, and the two slots
/// behind it receive the segments of the data and the code of the application.
pub open spec fn new_program_headers(
    s: Seq<u8>,
    md: Metadata,
    h: FileHeader,
    regions: Regions,
    x: Extents,
) -> Result<Seq<u8>, LinkError> {
    match table_span(
        s.len() as int,
        h.ph_offset as int,
        h.ph_num as int,
        PROGRAM_HEADER_SIZE as int,
    ) {
        Err(e) => Err(e),
        Ok(span) => if h.ph_num < 3 {
            Err(LinkError::OutOfBounds)
        } else {
            let rela = span.1 - 3 * PROGRAM_HEADER_SIZE;
            match grow_field(s, rela + P_FILESZ, x.added_size) {
                Err(e) => Err(e),
                Ok(s1) => match grow_field(s1, rela + P_MEMSZ, x.added_size) {
                    Err(e) => Err(e),
                    Ok(s2) => Ok(
                        put_program_header(
                            put_program_header(
                                s2,
                                span.1 - 2 * PROGRAM_HEADER_SIZE,
                                data_segment(md, regions, x),
                            ),
                            span.1 - PROGRAM_HEADER_SIZE,
                            code_segment(md, regions, x),
                        ),
                    ),
                },
            }
        },
    }
}

/// The image with all headers adapted, and the file offset behind the new
/// section header table.
pub open spec fn finished(
    s: Seq<u8>,
    md: Metadata,
    h: FileHeader,
    table: Seq<u8>,
    regions: Regions,
) -> Result<(Seq<u8>, u64), LinkError> {
    match extents_of(regions) {
        Err(e) => Err(e),
        Ok(x) => match grown_dynamic_table(s, md, x, regions.appended) {
            Err(e) => Err(e),
            Ok(s1) => match new_section_headers(s1, md, h, table, regions, x) {
                Err(e) => Err(e),
                Ok(s2) => match new_file_header(s2, h, x) {
                    Err(e) => Err(e),
                    Ok(s3) => match new_program_headers(s3, md, h, regions, x) {
                        Err(e) => Err(e),
                        Ok(s4) => if x.sh_offset + table.len() + NEW_SECTION_COUNT * h.sh_ent_size
                            > u64::MAX {
                            Err(LinkError::ArithmeticOverflow)
                        } else {
                            Ok(
                                (
                                    s4,
                                    (x.sh_offset + table.len() + NEW_SECTION_COUNT
                                        * h.sh_ent_size) as u64,
                                ),
                            )
                        },
                    },
                },
            },
        },
    }
}

/// Raises the size and the count of the load-time relocations in the dynamic table.
pub fn grow_dynamic_table(buf: &mut Vec<u8>, md: &Metadata, x: &Extents, appended: u64) -> (r:
    Result<(), LinkError>)
    ensures
        outcome(r, final(buf)@, grown_dynamic_table(old(buf)@, *md, *x, appended)),
        final(buf)@.len() == old(buf)@.len(),
{
    let base: u64 = move_coordinate(md, Space::Physical, md.dynamic_section_offset)?;
    let span = table_range(buf.len(), base, md.dynamic_section_count, DYN_SIZE)?;
    grow_sizes_in(buf, span.0, span.1, x.added_size, appended)
}

/// Stores the section header table at its new offset and extends it.
pub fn write_section_headers(
    buf: &mut Vec<u8>,
    md: &Metadata,
    h: &FileHeader,
    table: &Vec<u8>,
    regions: &Regions,
    x: &Extents,
) -> (r: Result<(), LinkError>)
    ensures
        outcome(r, final(buf)@, new_section_headers(old(buf)@, *md, *h, table@, *regions, *x)),
        final(buf)@.len() == old(buf)@.len(),
{
    let total: usize = buf.len();
    let at: usize = locate(total, x.sh_offset, table.len() as u64)?;
    let count: u64 = h.sh_num as u64 + NEW_SECTION_COUNT as u64;
    let span = table_range(total, x.sh_offset, count, SECTION_HEADER_SIZE)?;
    if md.rela_section_index >= count {
        return Err(LinkError::OutOfBounds);
    }
    write_bytes(buf, at, table.as_slice());
    let index: usize = md.rela_section_index as usize;
    grow_field_in(buf, span.0 + index * SECTION_HEADER_SIZE + SH_SIZE, x.added_size)?;
    let data = SectionHeader {
        sh_name: 0,
        sh_type: SHT_PROGBITS,
        sh_flags: SHF_ALLOC,
        sh_addr: regions.data.1,
        sh_offset: regions.data.0,
        sh_size: x.data_size,
        sh_link: 0,
        sh_info: 0,
        sh_addralign: 16,
        sh_entsize: 0,
    };
    let code = SectionHeader {
        sh_name: 0,
        sh_type: SHT_PROGBITS,
        sh_flags: SHF_ALLOC + SHF_EXECINSTR,
        sh_addr: x.code_vaddr,
        sh_offset: regions.code.0,
        sh_size: x.code_size,
        sh_link: 0,
        sh_info: 0,
        sh_addralign: 16,
        sh_entsize: 0,
    };
    write_section_header(buf, span.1 - 2 * SECTION_HEADER_SIZE, &data);
    write_section_header(buf, span.1 - SECTION_HEADER_SIZE, &code);
    Ok(())
}

/// Points the file header to the new section header table.
pub fn write_file_header(buf: &mut Vec<u8>, h: &FileHeader, x: &Extents) -> (r: Result<
    (),
    LinkError,
>)
    ensures
        outcome(r, final(buf)@, new_file_header(old(buf)@, *h, *x)),
        final(buf)@.len() == old(buf)@.len(),
{
    if buf.len() < FILE_HEADER_SIZE {
        return Err(LinkError::OutOfBounds);
    }
    let count: u16 = match h.sh_num.checked_add(NEW_SECTION_COUNT) {
        Some(v) => v,
        None => {
            return Err(LinkError::ArithmeticOverflow);
        },
    };
    write_u64(buf, E_SHOFF, x.sh_offset);
    write_u16(buf, E_SHNUM, count);
    Ok(())
}

/// Fills in the last three program headers.
pub fn write_program_headers(
    buf: &mut Vec<u8>,
    md: &Metadata,
    h: &FileHeader,
    regions: &Regions,
    x: &Extents,
) -> (r: Result<(), LinkError>)
    ensures
        outcome(r, final(buf)@, new_program_headers(old(buf)@, *md, *h, *regions, *x)),
        final(buf)@.len() == old(buf)@.len(),
{
    let span = table_range(buf.len(), h.ph_offset, h.ph_num as u64, PROGRAM_HEADER_SIZE)?;
    if h.ph_num < 3 {
        return Err(LinkError::OutOfBounds);
    }
    let rela: usize = span.1 - 3 * PROGRAM_HEADER_SIZE;
    grow_field_in(buf, rela + P_FILESZ, x.added_size)?;
    grow_field_in(buf, rela + P_MEMSZ, x.added_size)?;
    let data = ProgramHeader {
        p_type: PT_LOAD,
        p_flags: PF_R + PF_W,
        p_offset: regions.data.0,
        p_vaddr: regions.data.1,
        p_paddr: regions.data.1,
        p_filesz: x.data_size,
        p_memsz: x.data_memory,
        p_align: md.load_align_constraint,
    };
    let code = ProgramHeader {
        p_type: PT_LOAD,
        p_flags: PF_R + PF_X + PF_W,
        p_offset: regions.code.0,
        p_vaddr: x.code_vaddr,
        p_paddr: x.code_vaddr,
        p_filesz: x.code_size,
        p_memsz: x.code_size,
        p_align: md.load_align_constraint,
    };
    write_program_header(buf, span.1 - 2 * PROGRAM_HEADER_SIZE, &data);
    write_program_header(buf, span.1 - PROGRAM_HEADER_SIZE, &code);
    Ok(())
}

/// Adapts all headers to what merging has added. Returns the file offset
/// behind the new section header table.
pub fn finish(
    buf: &mut Vec<u8>,
    md: &Metadata,
    h: &FileHeader,
    table: &Vec<u8>,
    regions: &Regions,
) -> (r: Result<u64, LinkError>)
    ensures
        final(buf)@.len() == old(buf)@.len(),
        match r {
            Ok(end) => finished(old(buf)@, *md, *h, table@, *regions) == Ok::<
                (Seq<u8>, u64),
                LinkError,
            >((final(buf)@, end)),
            Err(e) => finished(old(buf)@, *md, *h, table@, *regions) == Err::<
                (Seq<u8>, u64),
                LinkError,
            >(e),
        },
{
    let x = compute_extents(regions)?;
    grow_dynamic_table(buf, md, &x, regions.appended)?;
    write_section_headers(buf, md, h, table, regions, &x)?;
    write_file_header(buf, h, &x)?;
    write_program_headers(buf, md, h, regions, &x)?;
    let added: u64 = NEW_SECTION_COUNT as u64 * h.sh_ent_size as u64;
    match x.sh_offset.checked_add(table.len() as u64) {
        Some(v) => match v.checked_add(added) {
            Some(end) => Ok(end),
            None => Err(LinkError::ArithmeticOverflow),
        },
        None => Err(LinkError::ArithmeticOverflow),
    }
}

} // verus!
