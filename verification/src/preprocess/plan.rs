//! The geometry of a preprocessed executable: how far everything is shifted
//! to make room for new program headers, and where the duplicate of the
//! relocation table is placed.

use vstd::prelude::*;
use vstd::slice::slice_subrange;
use crate::align::{align_to_offset_by_constraint, align_to_step, aligned};
use crate::bytes::{
    fits, read_u16, read_u32, read_u64, repeated, u16_at, u32_at, u64_at, write_bytes, zeroed,
};
use crate::elf::{
    D_TAG, D_VAL, DT_RELA, DT_RELASZ, DYN_SIZE, file_header, FileHeader, low_word, low_word_of,
    MIN_SECTION_ALIGNMENT, P_ALIGN, P_FILESZ, P_MEMSZ, P_OFFSET, P_TYPE, P_VADDR,
    PROGRAM_HEADER_SIZE, PT_GNU_STACK, PT_LOAD, read_file_header,
};
use crate::error::LinkError;
use crate::metadata::{Geometry, Metadata};
use crate::table::{table_range, table_span};

verus! {

/// Number of program headers for which room is made.
pub const ADDED_HEADER_COUNT: u16 = 3;

/// The address and the size of the relocation table as the dynamic table
/// between `pos` and `end` gives them; `found` where it gives none. A later
/// entry overrides an earlier one.
pub open spec fn relocation_table(s: Seq<u8>, pos: int, end: int, found: (u64, u64)) -> (u64, u64)
    decreases end - pos,
{
    if pos + DYN_SIZE > end {
        found
    } else {
        let tag = low_word(u64_at(s, pos + D_TAG));
        let val = u64_at(s, pos + D_VAL);
        let next = if tag == DT_RELA {
            (val, found.1)
        } else if tag == DT_RELASZ {
            (found.0, val)
        } else {
            found
        };
        relocation_table(s, pos + DYN_SIZE, end, next)
    }
}

/// Finds the address and the size of the relocation table in the dynamic table.
pub fn find_relocation_table(data: &[u8], base: usize, end: usize, found: (u64, u64)) -> (r: (
    u64,
    u64,
))
    requires
        base <= end <= data@.len(),
    ensures
        r == relocation_table(data@, base as int, end as int, found),
{
    let mut pos: usize = base;
    let mut acc: (u64, u64) = found;
    while end - pos >= DYN_SIZE
        invariant
            base <= pos <= end <= data@.len(),
            relocation_table(data@, base as int, end as int, found) == relocation_table(
                data@,
                pos as int,
                end as int,
                acc,
            ),
        decreases end - pos,
    {
        let tag: u32 = low_word_of(read_u64(data, pos + D_TAG));
        let val: u64 = read_u64(data, pos + D_VAL);
        if tag == DT_RELA {
            acc = (val, acc.1);
        } else if tag == DT_RELASZ {
            acc = (acc.0, val);
        }
        pos = pos + DYN_SIZE;
    }
    acc
}

/// The number of bytes inserted after the program header table: the size of
/// the added program headers, rounded up to a multiple of the minimal section
/// alignment.
pub open spec fn header_shift(ph_ent_size: u16) -> int {
    aligned(ph_ent_size as int * ADDED_HEADER_COUNT as int, MIN_SECTION_ALIGNMENT as int)
}

/// Computes `header_shift`.
pub fn header_shift_bytes(ph_ent_size: u16) -> (r: u64)
    ensures
        r == header_shift(ph_ent_size),
        r % 64 == 0,
        r >= ph_ent_size as int * ADDED_HEADER_COUNT as int,
{
    let count: u64 = ADDED_HEADER_COUNT as u64;
    assert(count == 3);
    let added: u64 = ph_ent_size as u64 * count;
    let rest: u64 = added % MIN_SECTION_ALIGNMENT;
    if rest == 0 {
        added
    } else {
        added + (MIN_SECTION_ALIGNMENT - rest)
    }
}

/// The geometry that is fixed before any byte is moved, and the image the
/// rewriting starts from.
pub struct Layout {
    pub header: FileHeader,
    pub md: Geometry,
    pub image: Seq<u8>,
}

/// Reads the headers of the executable `exec`, fixes the size of the shift,
/// and starts the output: a copy of everything up to the end of the program
/// header table, followed by zeros up to the new length.
pub open spec fn laid_out(exec: Seq<u8>, md: Geometry, dynamic_lib_count: int) -> Result<
    Layout,
    LinkError,
> {
    match file_header(exec) {
        Err(e) => Err(e),
        Ok(h) => match table_span(
            exec.len() as int,
            md.dynamic_section_offset as int,
            dynamic_lib_count,
            DYN_SIZE as int,
        ) {
            Err(e) => Err(e),
            Ok(dynamic) => {
                let table = relocation_table(
                    exec,
                    dynamic.0 as int,
                    dynamic.1 as int,
                    (md.original_rela_vaddr, md.rela_size),
                );
                let shift = header_shift(h.ph_ent_size);
                let ph_end = h.ph_offset + h.ph_num * h.ph_ent_size;
                let exec_len = exec.len() + shift + table.1;
                if ph_end > exec.len() {
                    Err(LinkError::OutOfBounds)
                } else if exec_len > usize::MAX || exec_len > u64::MAX {
                    Err(LinkError::ArithmeticOverflow)
                } else {
                    Ok(
                        Layout {
                            header: h,
                            md: Geometry {
                                original_rela_vaddr: table.0,
                                rela_size: table.1,
                                new_rela_paddr: h.sh_offset,
                                ph_shift_bytes: shift as u64,
                                ph_physical_shift_start: ph_end as u64,
                                exec_len: exec_len as u64,
                                ..md
                            },
                            image: exec.subrange(0, ph_end) + repeated(0, exec_len - ph_end),
                        },
                    )
                }
            },
        },
    }
}

/// Starts the rewriting of `exec_data`: fixes the size of the shift in `md`
/// and returns the file header together with the output buffer.
pub fn lay_out(exec_data: &[u8], md: &mut Metadata, dynamic_lib_count: usize) -> (r: Result<
    (FileHeader, Vec<u8>),
    LinkError,
>)
    ensures
        match r {
            Ok((h, out)) => laid_out(exec_data@, old(md).geometry(), dynamic_lib_count as int) == Ok::<
                Layout,
                LinkError,
            >(Layout { header: h, md: final(md).geometry(), image: out@ }),
            Err(e) => laid_out(exec_data@, old(md).geometry(), dynamic_lib_count as int) == Err::<
                Layout,
                LinkError,
            >(e),
        },
        r is Ok ==> r->Ok_0.1@.len() == final(md).exec_len,
        r is Ok ==> final(md).same_tables(*old(md)),
{
    let h = read_file_header(exec_data)?;
    let len: usize = exec_data.len();
    let (base, end) = table_range(len, md.dynamic_section_offset, dynamic_lib_count as u64, DYN_SIZE)?;
    let table = find_relocation_table(exec_data, base, end, (md.original_rela_vaddr, md.rela_size));
    let shift: u64 = header_shift_bytes(h.ph_ent_size);
    proof {
        assert(h.ph_num as int * h.ph_ent_size as int <= 0xffff * 0xffff) by (nonlinear_arith)
            requires
                0 <= h.ph_num as int <= 0xffff,
                0 <= h.ph_ent_size as int <= 0xffff,
        ;
    }
    let ph_size: u64 = h.ph_num as u64 * h.ph_ent_size as u64;
    let ph_end: u64 = match h.ph_offset.checked_add(ph_size) {
        Some(v) => v,
        None => {
            return Err(LinkError::OutOfBounds);
        },
    };
    if ph_end > len as u64 {
        return Err(LinkError::OutOfBounds);
    }
    let exec_len: u64 = match (len as u64).checked_add(shift) {
        Some(v) => match v.checked_add(table.1) {
            Some(w) => w,
            None => {
                return Err(LinkError::ArithmeticOverflow);
            },
        },
        None => {
            return Err(LinkError::ArithmeticOverflow);
        },
    };
    if exec_len > usize::MAX as u64 {
        return Err(LinkError::ArithmeticOverflow);
    }
    md.original_rela_vaddr = table.0;
    md.rela_size = table.1;
    md.new_rela_paddr = h.sh_offset;
    md.ph_shift_bytes = shift;
    md.ph_physical_shift_start = ph_end;
    md.exec_len = exec_len;
    let mut out: Vec<u8> = zeroed(exec_len as usize);
    write_bytes(&mut out, 0, slice_subrange(exec_data, 0, ph_end as usize));
    proof {
        assert(out@ =~= exec_data@.subrange(0, ph_end as int) + repeated(
            0,
            exec_len as int - ph_end as int,
        ));
    }
    Ok((h, out))
}

/// What the program headers say about how the file is loaded.
#[derive(Debug, Clone, Copy, PartialEq, Eq, Structural)]
pub struct LoadScan {
    /// A load segment that starts at file offset zero was seen.
    pub found: bool,
    /// The alignment of the last such segment.
    pub align: u64,
    /// The virtual address at which the shift starts.
    pub virtual_start: u64,
    /// The file offset of the relocation table.
    pub rela_paddr: u64,
}

/// The scan state after the program header at `pos`.
///
/// A load segment at file offset zero gives the load alignment and the
/// virtual address that corresponds to `shift_start`. A load segment whose
/// file range holds the offset assumed so far for the relocation table gives
/// the table's real offset: its address `rela_vaddr` less the distance
/// between addresses and offsets in that segment.
pub open spec fn scan_load(s: Seq<u8>, pos: int, shift_start: u64, rela_vaddr: u64, acc: LoadScan) -> Result<
    LoadScan,
    LinkError,
> {
    let p_type = u32_at(s, pos + P_TYPE);
    let p_offset = u64_at(s, pos + P_OFFSET);
    let p_vaddr = u64_at(s, pos + P_VADDR);
    let p_filesz = u64_at(s, pos + P_FILESZ);
    let p_align = u64_at(s, pos + P_ALIGN);
    let first = p_type == PT_LOAD && p_offset == 0;
    if first && shift_start + p_vaddr > u64::MAX {
        Err(LinkError::ArithmeticOverflow)
    } else {
        let seen = if first {
            LoadScan {
                found: true,
                align: p_align,
                virtual_start: (shift_start + p_vaddr) as u64,
                rela_paddr: acc.rela_paddr,
            }
        } else {
            acc
        };
        if p_type == PT_LOAD && p_offset <= acc.rela_paddr < p_offset + p_filesz {
            if p_vaddr < p_offset || rela_vaddr < p_vaddr - p_offset {
                Err(LinkError::ArithmeticOverflow)
            } else {
                Ok(LoadScan { rela_paddr: (rela_vaddr - (p_vaddr - p_offset)) as u64, ..seen })
            }
        } else {
            Ok(seen)
        }
    }
}

/// The scan state after all program headers between `pos` and `end`.
pub open spec fn scan_loads(
    s: Seq<u8>,
    pos: int,
    end: int,
    shift_start: u64,
    rela_vaddr: u64,
    acc: LoadScan,
) -> Result<LoadScan, LinkError>
    decreases end - pos,
{
    if pos + PROGRAM_HEADER_SIZE > end {
        Ok(acc)
    } else {
        match scan_load(s, pos, shift_start, rela_vaddr, acc) {
            Ok(next) => scan_loads(s, pos + PROGRAM_HEADER_SIZE, end, shift_start, rela_vaddr, next),
            Err(e) => Err(e),
        }
    }
}

/// Scans the program headers between `base` and `end`.
pub fn scan_program_headers(
    data: &[u8],
    base: usize,
    end: usize,
    shift_start: u64,
    rela_vaddr: u64,
    start: LoadScan,
) -> (r: Result<LoadScan, LinkError>)
    requires
        base <= end <= data@.len(),
    ensures
        r == scan_loads(data@, base as int, end as int, shift_start, rela_vaddr, start),
{
    let mut pos: usize = base;
    let mut acc: LoadScan = start;
    while end - pos >= PROGRAM_HEADER_SIZE
        invariant
            base <= pos <= end <= data@.len(),
            scan_loads(data@, base as int, end as int, shift_start, rela_vaddr, start)
                == scan_loads(data@, pos as int, end as int, shift_start, rela_vaddr, acc),
        decreases end - pos,
    {
        let p_type: u32 = read_u32(data, pos + P_TYPE);
        let p_offset: u64 = read_u64(data, pos + P_OFFSET);
        let p_vaddr: u64 = read_u64(data, pos + P_VADDR);
        let p_filesz: u64 = read_u64(data, pos + P_FILESZ);
        let p_align: u64 = read_u64(data, pos + P_ALIGN);
        let before: u64 = acc.rela_paddr;
        if p_type == PT_LOAD && p_offset == 0 {
            match shift_start.checked_add(p_vaddr) {
                Some(v) => {
                    acc = LoadScan { found: true, align: p_align, virtual_start: v, rela_paddr: before };
                },
                None => {
                    return Err(LinkError::ArithmeticOverflow);
                },
            }
        }
        if p_type == PT_LOAD && p_offset <= before && before - p_offset < p_filesz {
            if p_vaddr < p_offset || rela_vaddr < p_vaddr - p_offset {
                return Err(LinkError::ArithmeticOverflow);
            }
            acc = LoadScan {
                found: acc.found,
                align: acc.align,
                virtual_start: acc.virtual_start,
                rela_paddr: rela_vaddr - (p_vaddr - p_offset),
            };
        }
        pos = pos + PROGRAM_HEADER_SIZE;
    }
    Ok(acc)
}

/// The highest address at which a segment described between `pos` and `end`
/// ends, or `best` if that is higher. Stack segments are not counted.
pub open spec fn last_segment_end(s: Seq<u8>, pos: int, end: int, best: u64) -> Result<
    u64,
    LinkError,
>
    decreases end - pos,
{
    if pos + PROGRAM_HEADER_SIZE > end {
        Ok(best)
    } else {
        let top = u64_at(s, pos + P_VADDR) + u64_at(s, pos + P_MEMSZ);
        if u32_at(s, pos + P_TYPE) == PT_GNU_STACK {
            last_segment_end(s, pos + PROGRAM_HEADER_SIZE, end, best)
        } else if top > u64::MAX {
            Err(LinkError::ArithmeticOverflow)
        } else if top > best {
            last_segment_end(s, pos + PROGRAM_HEADER_SIZE, end, top as u64)
        } else {
            last_segment_end(s, pos + PROGRAM_HEADER_SIZE, end, best)
        }
    }
}

/// Finds the highest address at which a segment ends.
pub fn find_last_segment_end(data: &[u8], base: usize, end: usize) -> (r: Result<u64, LinkError>)
    requires
        base <= end <= data@.len(),
    ensures
        r == last_segment_end(data@, base as int, end as int, 0),
{
    let mut pos: usize = base;
    let mut best: u64 = 0;
    while end - pos >= PROGRAM_HEADER_SIZE
        invariant
            base <= pos <= end <= data@.len(),
            last_segment_end(data@, base as int, end as int, 0) == last_segment_end(
                data@,
                pos as int,
                end as int,
                best,
            ),
        decreases end - pos,
    {
        let p_type: u32 = read_u32(data, pos + P_TYPE);
        if p_type != PT_GNU_STACK {
            let p_vaddr: u64 = read_u64(data, pos + P_VADDR);
            let p_memsz: u64 = read_u64(data, pos + P_MEMSZ);
            match p_vaddr.checked_add(p_memsz) {
                Some(top) => {
                    if top > best {
                        best = top;
                    }
                },
                None => {
                    return Err(LinkError::ArithmeticOverflow);
                },
            }
        }
        pos = pos + PROGRAM_HEADER_SIZE;
    }
    Ok(best)
}

/// The geometry once the program headers of the image `s` have been read:
/// the load alignment, the virtual start of the shift, the file offset of the
/// relocation table, and the address of its duplicate, which is placed one
/// alignment unit above the last segment, at an address that agrees with its
/// file offset modulo the alignment.
pub open spec fn placed(s: Seq<u8>, md: Geometry, h: FileHeader) -> Result<Geometry, LinkError> {
    match table_span(
        s.len() as int,
        h.ph_offset as int,
        h.ph_num as int + 1,
        PROGRAM_HEADER_SIZE as int,
    ) {
        Err(e) => Err(e),
        Ok(span) => match scan_loads(
            s,
            span.0 as int,
            span.1 as int,
            md.ph_physical_shift_start,
            md.original_rela_vaddr,
            LoadScan {
                found: false,
                align: md.load_align_constraint,
                virtual_start: md.ph_virtual_shift_start,
                rela_paddr: md.original_rela_paddr,
            },
        ) {
            Err(e) => Err(e),
            Ok(scan) => if !scan.found {
                Err(LinkError::NoLoadAtZero)
            } else {
                match last_segment_end(s, span.0 as int, span.1 as int, 0) {
                    Err(e) => Err(e),
                    Ok(last) => if last + scan.align > u64::MAX {
                        Err(LinkError::ArithmeticOverflow)
                    } else {
                        match align_to_step((last + scan.align) as u64, md.new_rela_paddr, scan.align) {
                            Err(e) => Err(e),
                            Ok(vaddr) => if vaddr + md.rela_size > u64::MAX {
                                Err(LinkError::ArithmeticOverflow)
                            } else {
                                Ok(
                                    Geometry {
                                        load_align_constraint: scan.align,
                                        ph_virtual_shift_start: scan.virtual_start,
                                        original_rela_paddr: scan.rela_paddr,
                                        new_rela_vaddr: vaddr,
                                        last_vaddr: (vaddr + md.rela_size) as u64,
                                        ..md
                                    },
                                )
                            },
                        }
                    },
                }
            },
        },
    }
}

/// Completes the geometry in `md` from the program headers of `image`.
/// Returns the span of the program header table, the new header included.
pub fn place_relocation_table(image: &[u8], md: &mut Metadata, h: &FileHeader) -> (r: Result<
    (usize, usize),
    LinkError,
>)
    ensures
        match r {
            Ok(span) => placed(image@, old(md).geometry(), *h) == Ok::<Geometry, LinkError>(final(md).geometry())
                && table_span(
                image@.len() as int,
                h.ph_offset as int,
                h.ph_num as int + 1,
                PROGRAM_HEADER_SIZE as int,
            ) == Ok::<(usize, usize), LinkError>(span) && span.0 <= span.1 <= image@.len(),
            Err(e) => placed(image@, old(md).geometry(), *h) == Err::<Geometry, LinkError>(e),
        },
        r is Ok ==> final(md).same_tables(*old(md)),
{
    let span = table_range(image.len(), h.ph_offset, h.ph_num as u64 + 1, PROGRAM_HEADER_SIZE)?;
    let scan = scan_program_headers(
        image,
        span.0,
        span.1,
        md.ph_physical_shift_start,
        md.original_rela_vaddr,
        LoadScan {
            found: false,
            align: md.load_align_constraint,
            virtual_start: md.ph_virtual_shift_start,
            rela_paddr: md.original_rela_paddr,
        },
    )?;
    if !scan.found {
        return Err(LinkError::NoLoadAtZero);
    }
    let last: u64 = find_last_segment_end(image, span.0, span.1)?;
    let above: u64 = match last.checked_add(scan.align) {
        Some(v) => v,
        None => {
            return Err(LinkError::ArithmeticOverflow);
        },
    };
    let vaddr: u64 = align_to_offset_by_constraint(above, md.new_rela_paddr, scan.align)?;
    let last_vaddr: u64 = match vaddr.checked_add(md.rela_size) {
        Some(v) => v,
        None => {
            return Err(LinkError::ArithmeticOverflow);
        },
    };
    md.load_align_constraint = scan.align;
    md.ph_virtual_shift_start = scan.virtual_start;
    md.original_rela_paddr = scan.rela_paddr;
    md.new_rela_vaddr = vaddr;
    md.last_vaddr = last_vaddr;
    Ok(span)
}

} // verus!
