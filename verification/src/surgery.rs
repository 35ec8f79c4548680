//! Merging of a compiled application into a preprocessed host executable.

pub mod finish;
pub mod layout;
pub mod patch;
pub mod relocate;

use std::collections::HashMap;
use vstd::prelude::*;
use vstd::slice::slice_subrange;
use crate::align::{align_by_constraint, align_step, align_to_offset_by_constraint, align_to_step};
use crate::bytes::{append_range, repeated};
use crate::elf::{
    EI_CLASS, EI_DATA, ELFCLASS64, ELFDATA2LSB, file_header, FileHeader, MIN_SECTION_ALIGNMENT,
    read_file_header, REL_SIZE, RELA_SIZE,
};
use crate::error::LinkError;
use crate::metadata::Metadata;
use crate::name_map::NameMap;
use crate::names::starts_with;
use crate::object_file::{AppSectionView, section_views, AppSection, RelocationRecord, RelocKind, SectionRecord, SymbolRecord};
use crate::reader::{
    parsed_sections, parsed_symbols, read_file_range, read_relocations, read_section_data,
    read_sections, read_symbols, section_data, section_file_range, section_relocations,
};
use crate::surgery::finish::{finish, finished, Regions};
use crate::surgery::layout::{
    code_sections_of, code_start, find_code_start, in_class, members, name_in_class, place_sections,
    place_sections_in, Placed, Placement, placing_order, placing_order_of, SectionClass,
};
use crate::surgery::patch::{patch_in, patched};
use crate::surgery::relocate::{merge_sections, merge_sections_in, Merged};
use crate::table::{locate, located};

verus! {

broadcast use vstd::std_specs::hash::group_hash_axioms;

/// Where the first section of the application may start: behind the room
/// for `count` load-time relocations that begins at the old place of the
/// section header table, at a multiple of the minimal section alignment; and
/// the address that corresponds to it.
pub open spec fn merge_start(md: Metadata, h: FileHeader, count: u64) -> Result<(u64, u64), LinkError> {
    if h.sh_offset + count * RELA_SIZE > u64::MAX {
        Err(LinkError::ArithmeticOverflow)
    } else {
        match align_step((h.sh_offset + count * RELA_SIZE) as u64, MIN_SECTION_ALIGNMENT) {
            Err(e) => Err(e),
            Ok(offset) => match align_to_step(md.last_vaddr, offset, md.load_align_constraint) {
                Err(e) => Err(e),
                Ok(virt) => Ok((offset, virt)),
            },
        }
    }
}

/// The final executable, and the file offset behind its last header.
///
/// `exec` is the preprocessed host with room behind it, `md` the metadata
/// that preprocessing wrote for it, `sections` and `symbols` are those of the
/// application, and room is left for `count` load-time relocations. The
/// sections of the application are placed group by group, copied and
/// relocated; then the headers are adapted and the host is patched to call
/// the functions of the application.
pub open spec fn merged(
    exec: Seq<u8>,
    md: Metadata,
    sections: Seq<AppSectionView>,
    symbols: Seq<SymbolRecord>,
    count: u64,
) -> Result<(Seq<u8>, u64), LinkError> {
    if exec.len() <= EI_DATA {
        Err(LinkError::OutOfBounds)
    } else if exec[EI_CLASS as int] != ELFCLASS64 || exec[EI_DATA as int] != ELFDATA2LSB {
        Err(LinkError::UnsupportedFormat)
    } else {
        match file_header(exec) {
            Err(e) => Err(e),
            Ok(h) => match located(
                exec.len() as int,
                h.sh_offset as int,
                h.sh_ent_size * h.sh_num,
            ) {
                Err(e) => Err(e),
                Ok(table_at) => match merge_start(md, h, count) {
                    Err(e) => Err(e),
                    Ok(start) => {
                        let code = members(sections, SectionClass::Code, 0, Seq::empty());
                        if code.len() == 0 {
                            Err(LinkError::NoTextSections)
                        } else {
                            match place_sections(
                                Placed {
                                    offset: start.0,
                                    virt_offset: start.1,
                                    sections: Map::empty(),
                                    symbols: Map::empty(),
                                    functions: Map::empty(),
                                },
                                md,
                                sections,
                                symbols,
                                placing_order(sections),
                                0,
                            ) {
                                Err(e) => Err(e),
                                Ok(placed) => match code_start(placed.sections, sections, code) {
                                    Err(e) => Err(e),
                                    Ok(code_at) => match merge_sections(
                                        Merged { image: exec, appended: 0 },
                                        placed,
                                        md,
                                        symbols,
                                        sections,
                                        placing_order(sections),
                                        0,
                                    ) {
                                        Err(e) => Err(e),
                                        Ok(m) => match finished(
                                            m.image,
                                            md,
                                            h,
                                            exec.subrange(
                                                table_at as int,
                                                table_at + h.sh_ent_size * h.sh_num,
                                            ),
                                            Regions {
                                                data: start,
                                                code: code_at,
                                                end: placed.offset,
                                                appended: m.appended,
                                            },
                                        ) {
                                            Err(e) => Err(e),
                                            Ok(f) => match patched(
                                                f.0,
                                                md,
                                                placed.functions,
                                                h.ph_num,
                                            ) {
                                                Err(e) => Err(e),
                                                Ok(out) => Ok((out, f.1)),
                                            },
                                        },
                                    },
                                },
                            }
                        }
                    },
                },
            },
        }
    }
}

/// Computes where the first section of the application may start.
pub fn merge_start_of(md: &Metadata, h: &FileHeader, count: u64) -> (r: Result<(u64, u64), LinkError>)
    ensures
        r == merge_start(*md, *h, count),
{
    let room: u64 = match count.checked_mul(RELA_SIZE as u64) {
        Some(v) => v,
        None => {
            return Err(LinkError::ArithmeticOverflow);
        },
    };
    let behind: u64 = match h.sh_offset.checked_add(room) {
        Some(v) => v,
        None => {
            return Err(LinkError::ArithmeticOverflow);
        },
    };
    let offset: u64 = align_by_constraint(behind, MIN_SECTION_ALIGNMENT)?;
    let virt: u64 = align_to_offset_by_constraint(md.last_vaddr, offset, md.load_align_constraint)?;
    Ok((offset, virt))
}

/// Merges the application into the preprocessed host that `exec_mmap`
/// holds. Returns the file offset behind the last header.
pub fn surgery_elf_help(
    md: &Metadata,
    exec_mmap: &mut Vec<u8>,
    sections: &Vec<AppSection>,
    symbols: &Vec<SymbolRecord>,
    absolute_relocation_count: u64,
) -> (r: Result<u64, LinkError>)
    requires
        md.wf(),
    ensures
        final(exec_mmap)@.len() == old(exec_mmap)@.len(),
        match r {
            Ok(end) => merged(old(exec_mmap)@, *md, section_views(sections@), symbols@, absolute_relocation_count)
                == Ok::<(Seq<u8>, u64), LinkError>((final(exec_mmap)@, end)),
            Err(e) => merged(old(exec_mmap)@, *md, section_views(sections@), symbols@, absolute_relocation_count)
                == Err::<(Seq<u8>, u64), LinkError>(e),
        },
{
    let total: usize = exec_mmap.len();
    if total <= EI_DATA {
        return Err(LinkError::OutOfBounds);
    }
    if exec_mmap[EI_CLASS] != ELFCLASS64 || exec_mmap[EI_DATA] != ELFDATA2LSB {
        return Err(LinkError::UnsupportedFormat);
    }
    let h = read_file_header(exec_mmap.as_slice())?;
    proof {
        assert(h.sh_ent_size as int * h.sh_num as int <= 0xffff * 0xffff) by (nonlinear_arith)
            requires
                0 <= h.sh_ent_size as int <= 0xffff,
                0 <= h.sh_num as int <= 0xffff,
        ;
    }
    let table_size: u64 = h.sh_ent_size as u64 * h.sh_num as u64;
    let table_at: usize = locate(total, h.sh_offset, table_size)?;
    let mut table: Vec<u8> = Vec::new();
    append_range(&mut table, exec_mmap.as_slice(), table_at, table_at + table_size as usize);
    proof {
        assert(table@ =~= exec_mmap@.subrange(table_at as int, table_at + table_size));
    }
    let start = merge_start_of(md, &h, absolute_relocation_count)?;
    let code = code_sections_of(sections);
    if code.len() == 0 {
        return Err(LinkError::NoTextSections);
    }
    let order = placing_order_of(sections);
    let mut placement = Placement {
        offset: start.0,
        virt_offset: start.1,
        sections: HashMap::new(),
        symbols: HashMap::new(),
        functions: NameMap::new(),
    };
    place_sections_in(&mut placement, md, sections, symbols, &order)?;
    let code_at = find_code_start(&placement.sections, sections, &code)?;
    let mut appended: u64 = 0;
    merge_sections_in(exec_mmap, &mut appended, &placement, md, symbols, sections, &order)?;
    let regions = Regions { data: start, code: code_at, end: placement.offset, appended };
    let end: u64 = finish(exec_mmap, md, &h, &table, &regions)?;
    patch_in(exec_mmap, md, &placement.functions, h.ph_num)?;
    Ok(end)
}

/// True when a section with this name is merged into the executable.
pub open spec fn is_merged_name(name: Seq<char>) -> bool {
    in_class(name, SectionClass::ReadOnly) || in_class(name, SectionClass::Zeroed) || in_class(
        name,
        SectionClass::Code,
    )
}

/// True when the relocations of a section with this name count towards
/// the room that is left for load-time relocations: all sections but those
/// of debug and unwind information.
pub open spec fn is_counted_name(name: Seq<char>) -> bool {
    !".debug"@.is_prefix_of(name) && !".eh"@.is_prefix_of(name)
}

/// The section `rec` of the application object `app` with its contents
/// and relocations.
pub open spec fn app_section(app: Seq<u8>, rec: SectionRecord) -> Result<AppSectionView, LinkError> {
    match (
        section_file_range(app, rec.index),
        section_data(app, rec.index),
        section_relocations(app, rec.index),
    ) {
        (Some(range), Some(data), Some(relocations)) => Ok(
            AppSectionView {
                index: rec.index,
                name: rec.name@,
                size: rec.size,
                file_size: match range {
                    Some(r) => r.1,
                    None => 0,
                },
                data,
                relocations,
            },
        ),
        _ => Err(LinkError::InvalidObject),
    }
}

/// `acc` followed by the sections among `records[k..]` that are merged.
pub open spec fn app_sections(app: Seq<u8>, records: Seq<SectionRecord>, k: int, acc: Seq<AppSectionView>) -> Result<
    Seq<AppSectionView>,
    LinkError,
>
    decreases records.len() - k,
{
    if k < 0 || k >= records.len() {
        Ok(acc)
    } else if !is_merged_name(records[k].name@) {
        app_sections(app, records, k + 1, acc)
    } else {
        match app_section(app, records[k]) {
            Ok(sec) => app_sections(app, records, k + 1, acc.push(sec)),
            Err(e) => Err(e),
        }
    }
}

/// `acc` plus the number of absolute relocations among `relocs[k..]`.
pub open spec fn count_absolute(relocs: Seq<RelocationRecord>, k: int, acc: u64) -> Result<
    u64,
    LinkError,
>
    decreases relocs.len() - k,
{
    if k < 0 || k >= relocs.len() {
        Ok(acc)
    } else if relocs[k].kind != RelocKind::Absolute {
        count_absolute(relocs, k + 1, acc)
    } else if acc == u64::MAX {
        Err(LinkError::ArithmeticOverflow)
    } else {
        count_absolute(relocs, k + 1, (acc + 1) as u64)
    }
}

/// `acc` plus the number of absolute relocations in the counted sections
/// among `records[k..]`.
pub open spec fn absolute_relocations(app: Seq<u8>, records: Seq<SectionRecord>, k: int, acc: u64) -> Result<
    u64,
    LinkError,
>
    decreases records.len() - k,
{
    if k < 0 || k >= records.len() {
        Ok(acc)
    } else if !is_counted_name(records[k].name@) {
        absolute_relocations(app, records, k + 1, acc)
    } else {
        match section_relocations(app, records[k].index) {
            None => Err(LinkError::InvalidObject),
            Some(relocs) => match count_absolute(relocs, 0, acc) {
                Ok(next) => absolute_relocations(app, records, k + 1, next),
                Err(e) => Err(e),
            },
        }
    }
}

/// `exec` cut or filled with zeros to the length `len`.
pub open spec fn resized(exec: Seq<u8>, len: int) -> Seq<u8> {
    if len <= exec.len() {
        exec.subrange(0, len)
    } else {
        exec + repeated(0, len - exec.len())
    }
}

/// The length of the final executable: room for the preprocessed host, the
/// whole application object of `app_len` bytes, what a load-time relocation
/// with addend takes more than one without for each of `count` absolute
/// relocations, and one alignment unit.
pub open spec fn room(md: Metadata, app_len: int, count: int) -> int {
    md.exec_len + app_len + count * (RELA_SIZE - REL_SIZE) + md.load_align_constraint
}

/// The length of the final executable for the application object `app`.
pub open spec fn linked_len(app: Seq<u8>, md: Metadata) -> int {
    room(
        md,
        app.len() as int,
        match parsed_sections(app) {
            None => 0,
            Some(records) => match absolute_relocations(app, records, 0, 0) {
                Ok(c) => c as int,
                Err(_) => 0,
            },
        },
    )
}

/// Computes `room`, which must fit the address space.
pub fn room_of(md: &Metadata, app_len: usize, count: u64) -> (r: Result<usize, LinkError>)
    ensures
        r == (if room(*md, app_len as int, count as int) > usize::MAX || room(
            *md,
            app_len as int,
            count as int,
        ) > u64::MAX {
            Err::<usize, LinkError>(LinkError::ArithmeticOverflow)
        } else {
            Ok::<usize, LinkError>(room(*md, app_len as int, count as int) as usize)
        }),
{
    assert(RELA_SIZE - REL_SIZE == 8);
    let extra: u128 = count as u128 * 8;
    let wide: u128 = md.exec_len as u128 + app_len as u128 + extra + md.load_align_constraint as u128;
    if wide > usize::MAX as u128 || wide > u64::MAX as u128 {
        Err(LinkError::ArithmeticOverflow)
    } else {
        Ok(wide as usize)
    }
}

/// The final executable for the application object `app`, the metadata
/// `md` and the preprocessed host `exec`, which is cut or filled with zeros
/// to the length of the final executable before the application is merged
/// into it.
pub open spec fn surgically_linked(app: Seq<u8>, md: Metadata, exec: Seq<u8>) -> Result<
    Seq<u8>,
    LinkError,
> {
    match parsed_sections(app) {
        None => Err(LinkError::InvalidObject),
        Some(records) => match absolute_relocations(app, records, 0, 0) {
            Err(e) => Err(e),
            Ok(count) => {
                let len = linked_len(app, md);
                if len > usize::MAX || len > u64::MAX {
                    Err(LinkError::ArithmeticOverflow)
                } else {
                    match app_sections(app, records, 0, Seq::empty()) {
                        Err(e) => Err(e),
                        Ok(sections) => match parsed_symbols(app) {
                            None => Err(LinkError::InvalidObject),
                            Some(symbols) => match merged(
                                resized(exec, len),
                                md,
                                sections,
                                symbols,
                                count,
                            ) {
                                Ok(out) => Ok(out.0),
                                Err(e) => Err(e),
                            },
                        },
                    }
                }
            },
        },
    }
}

/// True when a section with this name is merged into the executable.
pub fn is_merged(name: &String) -> (r: bool)
    ensures
        r == is_merged_name(name@),
{
    name_in_class(name, SectionClass::ReadOnly) || name_in_class(name, SectionClass::Zeroed)
        || name_in_class(name, SectionClass::Code)
}

/// Loads the contents and the relocations of one section of the application.
pub fn load_app_section(app: &[u8], rec: &SectionRecord) -> (r: Result<AppSection, LinkError>)
    ensures
        match r {
            Ok(sec) => app_section(app@, *rec) == Ok::<AppSectionView, LinkError>(sec@),
            Err(e) => app_section(app@, *rec) == Err::<AppSectionView, LinkError>(e),
        },
{
    let range = read_file_range(app, rec.index);
    let data = read_section_data(app, rec.index);
    let relocations = read_relocations(app, rec.index);
    match (range, data, relocations) {
        (Some(range), Some(data), Some(relocations)) => Ok(
            AppSection {
                index: rec.index,
                name: rec.name.clone(),
                size: rec.size,
                file_size: match range {
                    Some(r) => r.1,
                    None => 0,
                },
                data,
                relocations,
            },
        ),
        _ => Err(LinkError::InvalidObject),
    }
}

/// Loads the sections of the application that are merged.
pub fn load_app_sections(app: &[u8], records: &Vec<SectionRecord>) -> (r: Result<
    Vec<AppSection>,
    LinkError,
>)
    ensures
        match r {
            Ok(v) => app_sections(app@, records@, 0, Seq::empty()) == Ok::<
                Seq<AppSectionView>,
                LinkError,
            >(section_views(v@)),
            Err(e) => app_sections(app@, records@, 0, Seq::empty()) == Err::<
                Seq<AppSectionView>,
                LinkError,
            >(e),
        },
{
    let mut out: Vec<AppSection> = Vec::new();
    proof {
        assert(section_views(out@) =~= Seq::<AppSectionView>::empty());
    }
    let n: usize = records.len();
    let mut k: usize = 0;
    while k < n
        invariant
            k <= n,
            n == records@.len(),
            app_sections(app@, records@, 0, Seq::empty()) == app_sections(
                app@,
                records@,
                k as int,
                section_views(out@),
            ),
        decreases n - k,
    {
        if is_merged(&records[k].name) {
            let sec = load_app_section(app, &records[k])?;
            let ghost before = out@;
            let ghost added = sec@;
            out.push(sec);
            proof {
                assert(section_views(out@) =~= section_views(before).push(added));
            }
        }
        k += 1;
    }
    Ok(out)
}

/// Adds the number of absolute relocations in `relocs` to `acc`.
pub fn add_absolute(relocs: &Vec<RelocationRecord>, acc: u64) -> (r: Result<u64, LinkError>)
    ensures
        r == count_absolute(relocs@, 0, acc),
{
    let n: usize = relocs.len();
    let mut count: u64 = acc;
    let mut k: usize = 0;
    while k < n
        invariant
            k <= n,
            n == relocs@.len(),
            count_absolute(relocs@, 0, acc) == count_absolute(relocs@, k as int, count),
        decreases n - k,
    {
        match relocs[k].kind {
            RelocKind::Absolute => {
                if count == u64::MAX {
                    return Err(LinkError::ArithmeticOverflow);
                }
                count = count + 1;
            },
            _ => {},
        }
        k += 1;
    }
    Ok(count)
}

/// Counts the absolute relocations of the application for which room is left.
pub fn count_absolute_relocations(app: &[u8], records: &Vec<SectionRecord>) -> (r: Result<
    u64,
    LinkError,
>)
    ensures
        r == absolute_relocations(app@, records@, 0, 0),
{
    let n: usize = records.len();
    let mut count: u64 = 0;
    let mut k: usize = 0;
    while k < n
        invariant
            k <= n,
            n == records@.len(),
            absolute_relocations(app@, records@, 0, 0) == absolute_relocations(
                app@,
                records@,
                k as int,
                count,
            ),
        decreases n - k,
    {
        if !starts_with(records[k].name.as_str(), ".debug") && !starts_with(
            records[k].name.as_str(),
            ".eh",
        ) {
            match read_relocations(app, records[k].index) {
                None => {
                    return Err(LinkError::InvalidObject);
                },
                Some(relocs) => {
                    count = add_absolute(&relocs, count)?;
                },
            }
        }
        k += 1;
    }
    Ok(count)
}

/// Cuts `buf` or fills it with zeros to the length `len`.
pub fn resize_zeroed(buf: &mut Vec<u8>, len: usize)
    ensures
        final(buf)@ == resized(old(buf)@, len as int),
{
    if len <= buf.len() {
        buf.truncate(len);
    } else {
        let ghost start = buf@;
        while buf.len() < len
            invariant
                start == old(buf)@,
                start.len() <= buf@.len() <= len,
                buf@ == start + repeated(0, buf@.len() - start.len()),
            decreases len - buf@.len(),
        {
            buf.push(0);
            proof {
                assert(buf@ =~= start + repeated(0, buf@.len() - start.len()));
            }
        }
    }
}

/// Merges the application object `roc_app_bytes` into the preprocessed
/// host `executable`, for which preprocessing wrote the metadata `md`.
/// Returns the final executable.
pub fn surgery_elf(roc_app_bytes: &[u8], md: &Metadata, executable: Vec<u8>) -> (r: Result<
    Vec<u8>,
    LinkError,
>)
    requires
        md.wf(),
    ensures
        match r {
            Ok(out) => surgically_linked(roc_app_bytes@, *md, executable@) == Ok::<
                Seq<u8>,
                LinkError,
            >(out@),
            Err(e) => surgically_linked(roc_app_bytes@, *md, executable@) == Err::<
                Seq<u8>,
                LinkError,
            >(e),
        },
        r is Ok ==> r->Ok_0@.len() == linked_len(roc_app_bytes@, *md),
{
    let records = match read_sections(roc_app_bytes) {
        Some(s) => s,
        None => {
            return Err(LinkError::InvalidObject);
        },
    };
    let count: u64 = count_absolute_relocations(roc_app_bytes, &records)?;
    let len: usize = room_of(md, roc_app_bytes.len(), count)?;
    let sections = load_app_sections(roc_app_bytes, &records)?;
    let symbols = match read_symbols(roc_app_bytes) {
        Some(s) => s,
        None => {
            return Err(LinkError::InvalidObject);
        },
    };
    let mut exec_mmap = executable;
    resize_zeroed(&mut exec_mmap, len);
    surgery_elf_help(md, &mut exec_mmap, &sections, &symbols, count)?;
    Ok(exec_mmap)
}

} // verus!
