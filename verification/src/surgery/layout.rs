//! Where the sections of the application are placed in the final executable,
//! and the addresses that its symbols get there.

use std::collections::HashMap;
use vstd::prelude::*;
use crate::align::{align_by_constraint, align_step, align_to_offset_by_constraint, align_to_step};
use crate::elf::MIN_SECTION_ALIGNMENT;
use crate::error::LinkError;
use crate::metadata::Metadata;
use crate::name_map::NameMap;
use crate::names::{ends_with, starts_with};
use crate::object_file::{AppSectionView, section_views, AppSection, name_of, symbol_name, SymbolRecord};

verus! {

broadcast use vstd::std_specs::hash::group_hash_axioms;

/// The groups in which the sections of the application are placed, in this order.
#[derive(Debug, Clone, Copy, PartialEq, Eq, Structural)]
pub enum SectionClass {
    /// Read-only data.
    ReadOnly,
    /// Zero-initialized data: occupies memory, but no file space.
    Zeroed,
    /// Executable code.
    Code,
}

/// True when a section with this name holds zero-initialized data.
pub open spec fn is_zeroed_name(name: Seq<char>) -> bool {
    ".bss"@.is_prefix_of(name)
}

/// True when a section with this name belongs to the group `class`.
pub open spec fn in_class(name: Seq<char>, class: SectionClass) -> bool {
    match class {
        SectionClass::ReadOnly => ".rodata"@.is_prefix_of(name) || ".rel.ro"@.is_suffix_of(name),
        SectionClass::Zeroed => is_zeroed_name(name),
        SectionClass::Code => ".text"@.is_prefix_of(name),
    }
}

/// True when a section with this name belongs to the group `class`.
pub fn name_in_class(name: &String, class: SectionClass) -> (r: bool)
    ensures
        r == in_class(name@, class),
{
    match class {
        SectionClass::ReadOnly => starts_with(name.as_str(), ".rodata") || ends_with(
            name.as_str(),
            ".rel.ro",
        ),
        SectionClass::Zeroed => starts_with(name.as_str(), ".bss"),
        SectionClass::Code => starts_with(name.as_str(), ".text"),
    }
}

/// `acc` followed by the positions of the sections `sections[k..]` that
/// belong to the group `class`.
pub open spec fn members(sections: Seq<AppSectionView>, class: SectionClass, k: int, acc: Seq<usize>) -> Seq<
    usize,
>
    decreases sections.len() - k,
{
    if k < 0 || k >= sections.len() {
        acc
    } else if in_class(sections[k].name, class) {
        members(sections, class, k + 1, acc.push(k as usize))
    } else {
        members(sections, class, k + 1, acc)
    }
}

/// The positions of the sections in the order in which they are placed:
/// read-only data first, then zero-initialized data, then code.
pub open spec fn placing_order(sections: Seq<AppSectionView>) -> Seq<usize> {
    members(
        sections,
        SectionClass::Code,
        0,
        members(
            sections,
            SectionClass::Zeroed,
            0,
            members(sections, SectionClass::ReadOnly, 0, Seq::empty()),
        ),
    )
}

/// Appends the positions of the sections of the group `class` to `order`.
pub fn append_members(sections: &Vec<AppSection>, class: SectionClass, order: &mut Vec<usize>)
    requires
        forall|i: int| 0 <= i < old(order)@.len() ==> old(order)@[i] < sections@.len(),
    ensures
        final(order)@ == members(section_views(sections@), class, 0, old(order)@),
        forall|i: int| 0 <= i < final(order)@.len() ==> final(order)@[i] < sections@.len(),
{
    let n: usize = sections.len();
    let mut k: usize = 0;
    while k < n
        invariant
            k <= n,
            n == sections@.len(),
            members(section_views(sections@), class, 0, old(order)@) == members(section_views(sections@), class, k as int, order@),
            forall|i: int| 0 <= i < order@.len() ==> order@[i] < sections@.len(),
        decreases n - k,
    {
        if name_in_class(&sections[k].name, class) {
            order.push(k);
        }
        k += 1;
    }
}

/// The positions of the sections in the order in which they are placed.
pub fn placing_order_of(sections: &Vec<AppSection>) -> (order: Vec<usize>)
    ensures
        order@ == placing_order(section_views(sections@)),
        forall|i: int| 0 <= i < order@.len() ==> order@[i] < sections@.len(),
{
    let mut order: Vec<usize> = Vec::new();
    append_members(sections, SectionClass::ReadOnly, &mut order);
    append_members(sections, SectionClass::Zeroed, &mut order);
    append_members(sections, SectionClass::Code, &mut order);
    order
}

/// The positions of the code sections.
pub fn code_sections_of(sections: &Vec<AppSection>) -> (order: Vec<usize>)
    ensures
        order@ == members(section_views(sections@), SectionClass::Code, 0, Seq::empty()),
        forall|i: int| 0 <= i < order@.len() ==> order@[i] < sections@.len(),
{
    let mut order: Vec<usize> = Vec::new();
    append_members(sections, SectionClass::Code, &mut order);
    order
}

/// The state of the layout pass, as mathematical values.
pub struct Placed {
    /// The file offset at which the next section may start.
    pub offset: u64,
    /// The virtual address at which the next section may start.
    pub virt_offset: u64,
    /// Section index to file offset and virtual address of the section.
    pub sections: Map<u64, (u64, u64)>,
    /// Symbol index to virtual address, for the symbols that the host does not define.
    pub symbols: Map<u64, u64>,
    /// Name to virtual address and size, for the functions that the host requires.
    pub functions: Map<Seq<char>, (u64, u64)>,
}

/// The state of the layout pass.
pub struct Placement {
    pub offset: u64,
    pub virt_offset: u64,
    pub sections: HashMap<u64, (u64, u64)>,
    pub symbols: HashMap<u64, u64>,
    pub functions: NameMap<(u64, u64)>,
}

impl Placement {
    /// The state with its tables as mathematical maps.
    pub open spec fn view(self) -> Placed {
        Placed {
            offset: self.offset,
            virt_offset: self.virt_offset,
            sections: self.sections@,
            symbols: self.symbols@,
            functions: self.functions@,
        }
    }
}

/// The layout after the symbol `sym` has been looked at, for the section
/// with index `section` that was placed at the address `virt`.
///
/// A symbol defined in that section gets the address of the section plus its
/// own. It is recorded under its index unless the host defines a symbol of
/// the same name, and under its name when the host requires it as a function.
pub open spec fn place_symbol(st: Placed, md: Metadata, sym: SymbolRecord, section: u64, virt: u64) -> Result<
    Placed,
    LinkError,
> {
    let name = symbol_name(sym);
    let hosted = md.roc_symbol_vaddresses.has(name);
    let wanted = md.requires_function(name);
    if sym.section != Some(section) || (hosted && !wanted) {
        Ok(st)
    } else if virt + sym.address > u64::MAX {
        Err(LinkError::ArithmeticOverflow)
    } else {
        let address = (virt + sym.address) as u64;
        Ok(
            Placed {
                symbols: if hosted {
                    st.symbols
                } else {
                    st.symbols.insert(sym.index, address)
                },
                functions: if wanted {
                    st.functions.insert(name, (address, sym.size))
                } else {
                    st.functions
                },
                ..st
            },
        )
    }
}

/// The layout after the symbols `symbols[k..]` have been looked at.
pub open spec fn place_symbols(
    st: Placed,
    md: Metadata,
    symbols: Seq<SymbolRecord>,
    k: int,
    section: u64,
    virt: u64,
) -> Result<Placed, LinkError>
    decreases symbols.len() - k,
{
    if k < 0 || k >= symbols.len() {
        Ok(st)
    } else {
        match place_symbol(st, md, symbols[k], section, virt) {
            Ok(next) => place_symbols(next, md, symbols, k + 1, section, virt),
            Err(e) => Err(e),
        }
    }
}

/// The layout after the section `sec` has been placed.
///
/// The section starts at the next file offset that is a multiple of the
/// minimal section alignment, and at the next virtual address that agrees
/// with that offset modulo the load alignment. A section of zero-initialized
/// data advances only the virtual address. Any other section must have the
/// same size in the file and in memory.
pub open spec fn place_section(st: Placed, md: Metadata, sec: AppSectionView, symbols: Seq<SymbolRecord>) -> Result<
    Placed,
    LinkError,
> {
    match align_step(st.offset, MIN_SECTION_ALIGNMENT) {
        Err(e) => Err(e),
        Ok(offset) => match align_to_step(st.virt_offset, offset, md.load_align_constraint) {
            Err(e) => Err(e),
            Ok(virt) => match place_symbols(
                Placed {
                    offset,
                    virt_offset: virt,
                    sections: st.sections.insert(sec.index, (offset, virt)),
                    ..st
                },
                md,
                symbols,
                0,
                sec.index,
                virt,
            ) {
                Err(e) => Err(e),
                Ok(next) => if is_zeroed_name(sec.name) {
                    if virt + sec.size > u64::MAX {
                        Err(LinkError::ArithmeticOverflow)
                    } else {
                        Ok(Placed { virt_offset: (virt + sec.size) as u64, ..next })
                    }
                } else if sec.file_size != sec.size {
                    Err(LinkError::SectionSizeMismatch)
                } else if offset + sec.file_size > u64::MAX || virt + sec.size > u64::MAX {
                    Err(LinkError::ArithmeticOverflow)
                } else {
                    Ok(
                        Placed {
                            offset: (offset + sec.file_size) as u64,
                            virt_offset: (virt + sec.size) as u64,
                            ..next
                        },
                    )
                },
            },
        },
    }
}

/// The layout after the sections at the positions `order[k..]` have been placed in turn.
pub open spec fn place_sections(
    st: Placed,
    md: Metadata,
    sections: Seq<AppSectionView>,
    symbols: Seq<SymbolRecord>,
    order: Seq<usize>,
    k: int,
) -> Result<Placed, LinkError>
    decreases order.len() - k,
{
    if k < 0 || k >= order.len() {
        Ok(st)
    } else {
        match place_section(st, md, sections[order[k] as int], symbols) {
            Ok(next) => place_sections(next, md, sections, symbols, order, k + 1),
            Err(e) => Err(e),
        }
    }
}

/// Relates what a step of the layout pass returned and left in its state
/// to what it is specified to produce.
pub open spec fn placed_as(r: Result<(), LinkError>, st: Placed, expected: Result<Placed, LinkError>) -> bool {
    match r {
        Ok(_) => expected == Ok::<Placed, LinkError>(st),
        Err(e) => expected == Err::<Placed, LinkError>(e),
    }
}

/// Looks at one symbol for the section with index `section`.
pub fn place_symbol_in(st: &mut Placement, md: &Metadata, sym: &SymbolRecord, section: u64, virt: u64) -> (r:
    Result<(), LinkError>)
    requires
        md.wf(),
        old(st).functions.wf(),
    ensures
        final(st).functions.wf(),
        placed_as(r, final(st)@, place_symbol(old(st)@, *md, *sym, section, virt)),
{
    match sym.section {
        Some(s) => {
            if s != section {
                return Ok(());
            }
        },
        None => {
            return Ok(());
        },
    }
    let name = name_of(sym);
    let hosted: bool = md.roc_symbol_vaddresses.contains_key(&name);
    let wanted: bool = md.is_app_function(&name);
    if hosted && !wanted {
        return Ok(());
    }
    let address: u64 = match virt.checked_add(sym.address) {
        Some(v) => v,
        None => {
            return Err(LinkError::ArithmeticOverflow);
        },
    };
    if !hosted {
        st.symbols.insert(sym.index, address);
    }
    if wanted {
        st.functions.insert(name, (address, sym.size));
    }
    Ok(())
}

/// Places one section and the symbols defined in it.
pub fn place_section_in(st: &mut Placement, md: &Metadata, sec: &AppSection, symbols: &Vec<SymbolRecord>) -> (r:
    Result<(), LinkError>)
    requires
        md.wf(),
        old(st).functions.wf(),
    ensures
        final(st).functions.wf(),
        placed_as(r, final(st)@, place_section(old(st)@, *md, sec@, symbols@)),
{
    let offset: u64 = align_by_constraint(st.offset, MIN_SECTION_ALIGNMENT)?;
    let virt: u64 = align_to_offset_by_constraint(st.virt_offset, offset, md.load_align_constraint)?;
    st.offset = offset;
    st.virt_offset = virt;
    st.sections.insert(sec.index, (offset, virt));
    let ghost start = st@;
    let n: usize = symbols.len();
    let mut k: usize = 0;
    while k < n
        invariant
            k <= n,
            n == symbols@.len(),
            md.wf(),
            st.functions.wf(),
            align_step(old(st).offset, MIN_SECTION_ALIGNMENT) == Ok::<u64, LinkError>(offset),
            align_to_step(old(st).virt_offset, offset, md.load_align_constraint) == Ok::<
                u64,
                LinkError,
            >(virt),
            start == (Placed {
                offset,
                virt_offset: virt,
                sections: old(st)@.sections.insert(sec.index, (offset, virt)),
                ..old(st)@
            }),
            place_symbols(start, *md, symbols@, 0, sec.index, virt) == place_symbols(
                st@,
                *md,
                symbols@,
                k as int,
                sec.index,
                virt,
            ),
        decreases n - k,
    {
        place_symbol_in(st, md, &symbols[k], sec.index, virt)?;
        k += 1;
    }
    if starts_with(sec.name.as_str(), ".bss") {
        match virt.checked_add(sec.size) {
            Some(v) => {
                st.virt_offset = v;
            },
            None => {
                return Err(LinkError::ArithmeticOverflow);
            },
        }
    } else if sec.file_size != sec.size {
        return Err(LinkError::SectionSizeMismatch);
    } else {
        match (offset.checked_add(sec.file_size), virt.checked_add(sec.size)) {
            (Some(o), Some(v)) => {
                st.offset = o;
                st.virt_offset = v;
            },
            _ => {
                return Err(LinkError::ArithmeticOverflow);
            },
        }
    }
    Ok(())
}

/// Places the sections at the positions `order` in turn.
pub fn place_sections_in(
    st: &mut Placement,
    md: &Metadata,
    sections: &Vec<AppSection>,
    symbols: &Vec<SymbolRecord>,
    order: &Vec<usize>,
) -> (r: Result<(), LinkError>)
    requires
        md.wf(),
        old(st).functions.wf(),
        forall|i: int| 0 <= i < order@.len() ==> order@[i] < sections@.len(),
    ensures
        final(st).functions.wf(),
        placed_as(r, final(st)@, place_sections(old(st)@, *md, section_views(sections@), symbols@, order@, 0)),
{
    let n: usize = order.len();
    let mut k: usize = 0;
    while k < n
        invariant
            k <= n,
            n == order@.len(),
            md.wf(),
            st.functions.wf(),
            forall|i: int| 0 <= i < order@.len() ==> order@[i] < sections@.len(),
            place_sections(old(st)@, *md, section_views(sections@), symbols@, order@, 0) == place_sections(
                st@,
                *md,
                section_views(sections@),
                symbols@,
                order@,
                k as int,
            ),
        decreases n - k,
    {
        place_section_in(st, md, &sections[order[k]], symbols)?;
        k += 1;
    }
    Ok(())
}

/// True when the placement `a` comes before `b`: at a lower file offset, or
/// at the same offset and a lower address.
pub open spec fn comes_before(a: (u64, u64), b: (u64, u64)) -> bool {
    a.0 < b.0 || (a.0 == b.0 && a.1 < b.1)
}

/// The first placement among `best` and those of the sections at the
/// positions `order[k..]`.
pub open spec fn first_placement(
    placed: Map<u64, (u64, u64)>,
    sections: Seq<AppSectionView>,
    order: Seq<usize>,
    k: int,
    best: (u64, u64),
) -> Result<(u64, u64), LinkError>
    decreases order.len() - k,
{
    if k < 0 || k >= order.len() {
        Ok(best)
    } else if !placed.contains_key(sections[order[k] as int].index) {
        Err(LinkError::MissingSection)
    } else {
        let here = placed[sections[order[k] as int].index];
        first_placement(
            placed,
            sections,
            order,
            k + 1,
            if comes_before(here, best) {
                here
            } else {
                best
            },
        )
    }
}

/// Where the code of the application starts: the first placement of a code
/// section. There must be at least one code section.
pub open spec fn code_start(placed: Map<u64, (u64, u64)>, sections: Seq<AppSectionView>, code: Seq<usize>) -> Result<
    (u64, u64),
    LinkError,
> {
    if code.len() == 0 {
        Err(LinkError::NoTextSections)
    } else if !placed.contains_key(sections[code[0] as int].index) {
        Err(LinkError::MissingSection)
    } else {
        first_placement(placed, sections, code, 1, placed[sections[code[0] as int].index])
    }
}

/// The placement of the section with index `index`.
pub fn placement_of(placed: &HashMap<u64, (u64, u64)>, index: u64) -> (r: Result<
    (u64, u64),
    LinkError,
>)
    ensures
        r == (if placed@.contains_key(index) {
            Ok::<(u64, u64), LinkError>(placed@[index])
        } else {
            Err::<(u64, u64), LinkError>(LinkError::MissingSection)
        }),
{
    match placed.get(&index) {
        Some(p) => Ok(*p),
        None => Err(LinkError::MissingSection),
    }
}

/// Finds where the code of the application starts.
pub fn find_code_start(
    placed: &HashMap<u64, (u64, u64)>,
    sections: &Vec<AppSection>,
    code: &Vec<usize>,
) -> (r: Result<(u64, u64), LinkError>)
    requires
        forall|i: int| 0 <= i < code@.len() ==> code@[i] < sections@.len(),
    ensures
        r == code_start(placed@, section_views(sections@), code@),
{
    let n: usize = code.len();
    if n == 0 {
        return Err(LinkError::NoTextSections);
    }
    let mut best: (u64, u64) = placement_of(placed, sections[code[0]].index)?;
    let mut k: usize = 1;
    while k < n
        invariant
            1 <= k <= n,
            n == code@.len(),
            forall|i: int| 0 <= i < code@.len() ==> code@[i] < sections@.len(),
            placed@.contains_key(sections@[code@[0] as int].index),
            code_start(placed@, section_views(sections@), code@) == first_placement(
                placed@,
                section_views(sections@),
                code@,
                k as int,
                best,
            ),
        decreases n - k,
    {
        let here: (u64, u64) = placement_of(placed, sections[code[k]].index)?;
        if here.0 < best.0 || (here.0 == best.0 && here.1 < best.1) {
            best = here;
        }
        k += 1;
    }
    Ok(best)
}

} // verus!
