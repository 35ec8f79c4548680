//! Copying of the application's sections into the executable and resolving
//! of their relocations.

use vstd::prelude::*;
use crate::bytes::{fits, put_u32, put_u64, splice, write_bytes, write_u32, write_u64};
use crate::elf::{
    info_word, low_word, low_word_of, make_info_word, R_ADDEND, R_INFO, R_OFFSET, R_X86_64_RELATIVE,
    RELA_SIZE,
};
use crate::error::LinkError;
use crate::metadata::Metadata;
use crate::names::same_text;
use crate::object_file::{AppSectionView, section_views, 
    AppSection, find_symbol, name_of, RelocationRecord, RelocKind, symbol_name, symbol_position,
    SymbolRecord,
};
use crate::surgery::layout::{Placed, Placement, placement_of};
use crate::table::{locate, located, move_coordinate, moved, outcome, Space};
use crate::wrap::{wrap64, wrap_distance, wrap_sum};

verus! {

broadcast use vstd::std_specs::hash::group_hash_axioms;

/// True for the compiler intrinsics that are always linked into the host,
/// so that a relocation against them needs no work.
pub open spec fn always_linked(name: Seq<char>) -> bool {
    name == "__divti3"@ || name == "__udivti3"@
}

/// The address that a relocation against the symbol `index` refers to.
///
/// A symbol that the application defines and the host does not has the
/// address it was given by the layout. Otherwise a host symbol of that name
/// gives the address, mapped to where it lies after the shift. `None` when
/// neither defines it.
pub open spec fn resolved(placed: Placed, md: Metadata, symbols: Seq<SymbolRecord>, index: u64) -> Result<
    Option<u64>,
    LinkError,
> {
    if placed.symbols.contains_key(index) {
        Ok(Some(placed.symbols[index]))
    } else {
        match symbol_position(symbols, index, 0) {
            None => Ok(None),
            Some(p) => match symbols[p as int].name {
                None => Ok(None),
                Some(name) => match md.roc_symbol_vaddresses.lookup(name@) {
                    None => Ok(None),
                    Some(address) => match moved(md.geometry(), Space::Virtual, address) {
                        Ok(v) => Ok(Some(v)),
                        Err(e) => Err(e),
                    },
                },
            },
        }
    }
}

/// True when a relocation against the symbol `index`, which nothing
/// defines, is passed over.
pub open spec fn passed_over(symbols: Seq<SymbolRecord>, index: u64) -> bool {
    match symbol_position(symbols, index, 0) {
        None => false,
        Some(p) => always_linked(symbol_name(symbols[p as int])),
    }
}

/// Resolves the symbol `index`.
pub fn resolve(placed: &Placement, md: &Metadata, symbols: &Vec<SymbolRecord>, index: u64) -> (r:
    Result<Option<u64>, LinkError>)
    requires
        md.wf(),
    ensures
        r == resolved(placed@, *md, symbols@, index),
{
    match placed.symbols.get(&index) {
        Some(v) => Ok(Some(*v)),
        None => match find_symbol(symbols, index) {
            None => Ok(None),
            Some(p) => match &symbols[p].name {
                None => Ok(None),
                Some(name) => match md.roc_symbol_vaddresses.get(name) {
                    None => Ok(None),
                    Some(address) => {
                        let v: u64 = move_coordinate(md, Space::Virtual, *address)?;
                        Ok(Some(v))
                    },
                },
            },
        },
    }
}

/// Decides whether an unresolved relocation against the symbol `index` is passed over.
pub fn is_passed_over(symbols: &Vec<SymbolRecord>, index: u64) -> (r: bool)
    ensures
        r == passed_over(symbols@, index),
{
    match find_symbol(symbols, index) {
        None => false,
        Some(p) => {
            let name = name_of(&symbols[p]);
            same_text(name.as_str(), "__divti3") || same_text(name.as_str(), "__udivti3")
        },
    }
}

/// The image and the number of load-time relocations appended so far.
pub struct Merged {
    pub image: Seq<u8>,
    pub appended: u64,
}

/// Where the next load-time relocation is appended: behind the duplicate of
/// the relocation table and the relocations appended so far.
pub open spec fn appended_position(md: Metadata, appended: u64) -> int {
    md.new_rela_paddr + md.rela_size + md.ph_shift_bytes + appended * RELA_SIZE
}

/// `s` with the value `value` stored in the place at `base`, cut to `size` bits.
pub open spec fn store_value(s: Seq<u8>, base: int, size: u8, value: u64) -> Result<
    Seq<u8>,
    LinkError,
> {
    if size == 32 {
        match located(s.len() as int, base, 4) {
            Ok(at) => Ok(put_u32(s, at as int, low_word(value))),
            Err(e) => Err(e),
        }
    } else if size == 64 {
        match located(s.len() as int, base, 8) {
            Ok(at) => Ok(put_u64(s, at as int, value)),
            Err(e) => Err(e),
        }
    } else {
        Err(LinkError::UnsupportedRelocationSize)
    }
}

/// `s` with a load-time relative relocation stored at `at`: when the
/// program is loaded, the loader adds the load address to `addend` and stores
/// the sum at the address `place`.
pub open spec fn put_relative(s: Seq<u8>, at: int, place: u64, addend: u64) -> Seq<u8> {
    let s1 = put_u64(s, at + R_INFO, info_word(0, R_X86_64_RELATIVE));
    let s2 = put_u64(s1, at + R_OFFSET, place);
    put_u64(s2, at + R_ADDEND, addend)
}

/// The state after the relocation `rel` of a section placed at the file
/// offset `sec_offset` and the address `sec_virt` has been resolved.
///
/// A relative relocation stores the distance from the place to the target
/// plus the addend. An absolute relocation cannot be resolved before the
/// program is loaded: a load-time relative relocation is appended for it. A
/// relocation against a symbol that nothing defines is an error, unless the
/// symbol is always linked into the host.
pub open spec fn apply_relocation(
    st: Merged,
    placed: Placed,
    md: Metadata,
    symbols: Seq<SymbolRecord>,
    rel: RelocationRecord,
    sec_offset: u64,
    sec_virt: u64,
) -> Result<Merged, LinkError> {
    match rel.symbol {
        None => Err(LinkError::UnsupportedRelocationTarget),
        Some(index) => match resolved(placed, md, symbols, index) {
            Err(e) => Err(e),
            Ok(None) => if passed_over(symbols, index) {
                Ok(st)
            } else {
                Err(LinkError::UndefinedSymbol)
            },
            Ok(Some(target)) => if sec_virt + rel.offset > u64::MAX || sec_offset + rel.offset
                > u64::MAX {
                Err(LinkError::ArithmeticOverflow)
            } else {
                let place = (sec_virt + rel.offset) as u64;
                let base = sec_offset + rel.offset;
                match rel.kind {
                    RelocKind::Relative | RelocKind::PltRelative => match store_value(
                        st.image,
                        base,
                        rel.size,
                        wrap64(target - place + rel.addend),
                    ) {
                        Ok(s) => Ok(Merged { image: s, appended: st.appended }),
                        Err(e) => Err(e),
                    },
                    RelocKind::Absolute => match located(
                        st.image.len() as int,
                        appended_position(md, st.appended),
                        RELA_SIZE as int,
                    ) {
                        Err(e) => Err(e),
                        Ok(at) => if st.appended == u64::MAX {
                            Err(LinkError::ArithmeticOverflow)
                        } else {
                            Ok(
                                Merged {
                                    image: put_relative(
                                        st.image,
                                        at as int,
                                        place,
                                        wrap64(target + rel.addend),
                                    ),
                                    appended: (st.appended + 1) as u64,
                                },
                            )
                        },
                    },
                    _ => Err(LinkError::UnsupportedRelocationKind),
                }
            },
        },
    }
}

/// The state after the relocations `relocations[k..]` have been resolved in turn.
pub open spec fn apply_relocations(
    st: Merged,
    placed: Placed,
    md: Metadata,
    symbols: Seq<SymbolRecord>,
    relocations: Seq<RelocationRecord>,
    k: int,
    sec_offset: u64,
    sec_virt: u64,
) -> Result<Merged, LinkError>
    decreases relocations.len() - k,
{
    if k < 0 || k >= relocations.len() {
        Ok(st)
    } else {
        match apply_relocation(st, placed, md, symbols, relocations[k], sec_offset, sec_virt) {
            Ok(next) => apply_relocations(
                next,
                placed,
                md,
                symbols,
                relocations,
                k + 1,
                sec_offset,
                sec_virt,
            ),
            Err(e) => Err(e),
        }
    }
}

/// The state after the section `sec` has been copied to its place and its
/// relocations have been resolved.
pub open spec fn merge_section(
    st: Merged,
    placed: Placed,
    md: Metadata,
    symbols: Seq<SymbolRecord>,
    sec: AppSectionView,
) -> Result<Merged, LinkError> {
    if !placed.sections.contains_key(sec.index) {
        Err(LinkError::MissingSection)
    } else {
        let place = placed.sections[sec.index];
        match located(st.image.len() as int, place.0 as int, sec.data.len() as int) {
            Err(e) => Err(e),
            Ok(at) => apply_relocations(
                Merged { image: splice(st.image, at as int, sec.data), appended: st.appended },
                placed,
                md,
                symbols,
                sec.relocations,
                0,
                place.0,
                place.1,
            ),
        }
    }
}

/// The state after the sections at the positions `order[k..]` have been merged in turn.
pub open spec fn merge_sections(
    st: Merged,
    placed: Placed,
    md: Metadata,
    symbols: Seq<SymbolRecord>,
    sections: Seq<AppSectionView>,
    order: Seq<usize>,
    k: int,
) -> Result<Merged, LinkError>
    decreases order.len() - k,
{
    if k < 0 || k >= order.len() {
        Ok(st)
    } else {
        match merge_section(st, placed, md, symbols, sections[order[k] as int]) {
            Ok(next) => merge_sections(next, placed, md, symbols, sections, order, k + 1),
            Err(e) => Err(e),
        }
    }
}

/// Relates what a step of merging returned and left behind to what it is
/// specified to produce.
pub open spec fn merged_as(
    r: Result<(), LinkError>,
    image: Seq<u8>,
    appended: u64,
    expected: Result<Merged, LinkError>,
) -> bool {
    match r {
        Ok(_) => expected == Ok::<Merged, LinkError>(Merged { image, appended }),
        Err(e) => expected == Err::<Merged, LinkError>(e),
    }
}

/// Stores `value` in the place at `base`, cut to `size` bits.
pub fn store_value_in(buf: &mut Vec<u8>, base: u64, size: u8, value: u64) -> (r: Result<
    (),
    LinkError,
>)
    ensures
        final(buf)@.len() == old(buf)@.len(),
        outcome(r, final(buf)@, store_value(old(buf)@, base as int, size, value)),
{
    if size == 32 {
        let at: usize = locate(buf.len(), base, 4)?;
        write_u32(buf, at, low_word_of(value));
        Ok(())
    } else if size == 64 {
        let at: usize = locate(buf.len(), base, 8)?;
        write_u64(buf, at, value);
        Ok(())
    } else {
        Err(LinkError::UnsupportedRelocationSize)
    }
}

/// The position at which the next load-time relocation is appended.
pub fn appended_position_of(md: &Metadata, appended: u64, len: usize) -> (r: Result<
    usize,
    LinkError,
>)
    ensures
        r == located(len as int, appended_position(*md, appended), RELA_SIZE as int),
{
    let used: u128 = appended as u128 * 24;
    let wide: u128 = md.new_rela_paddr as u128 + md.rela_size as u128 + md.ph_shift_bytes as u128
        + used;
    if wide + RELA_SIZE as u128 <= len as u128 {
        Ok(wide as usize)
    } else {
        Err(LinkError::OutOfBounds)
    }
}

/// Resolves one relocation.
pub fn apply_relocation_in(
    buf: &mut Vec<u8>,
    appended: &mut u64,
    placed: &Placement,
    md: &Metadata,
    symbols: &Vec<SymbolRecord>,
    rel: &RelocationRecord,
    sec_offset: u64,
    sec_virt: u64,
) -> (r: Result<(), LinkError>)
    requires
        md.wf(),
    ensures
        final(buf)@.len() == old(buf)@.len(),
        merged_as(
            r,
            final(buf)@,
            *final(appended),
            apply_relocation(
                Merged { image: old(buf)@, appended: *old(appended) },
                placed@,
                *md,
                symbols@,
                *rel,
                sec_offset,
                sec_virt,
            ),
        ),
{
    let index: u64 = match rel.symbol {
        Some(i) => i,
        None => {
            return Err(LinkError::UnsupportedRelocationTarget);
        },
    };
    let target: u64 = match resolve(placed, md, symbols, index)? {
        Some(t) => t,
        None => {
            if is_passed_over(symbols, index) {
                return Ok(());
            }
            return Err(LinkError::UndefinedSymbol);
        },
    };
    let (place, base) = match (sec_virt.checked_add(rel.offset), sec_offset.checked_add(rel.offset)) {
        (Some(p), Some(b)) => (p, b),
        _ => {
            return Err(LinkError::ArithmeticOverflow);
        },
    };
    match rel.kind {
        RelocKind::Relative | RelocKind::PltRelative => {
            store_value_in(buf, base, rel.size, wrap_distance(target, place, rel.addend))
        },
        RelocKind::Absolute => {
            let at: usize = appended_position_of(md, *appended, buf.len())?;
            if *appended == u64::MAX {
                return Err(LinkError::ArithmeticOverflow);
            }
            write_u64(buf, at + R_INFO, make_info_word(0, R_X86_64_RELATIVE));
            write_u64(buf, at + R_OFFSET, place);
            write_u64(buf, at + R_ADDEND, wrap_sum(target, rel.addend));
            *appended = *appended + 1;
            Ok(())
        },
        _ => Err(LinkError::UnsupportedRelocationKind),
    }
}

/// Copies one section to its place and resolves its relocations.
pub fn merge_section_in(
    buf: &mut Vec<u8>,
    appended: &mut u64,
    placed: &Placement,
    md: &Metadata,
    symbols: &Vec<SymbolRecord>,
    sec: &AppSection,
) -> (r: Result<(), LinkError>)
    requires
        md.wf(),
    ensures
        final(buf)@.len() == old(buf)@.len(),
        merged_as(
            r,
            final(buf)@,
            *final(appended),
            merge_section(
                Merged { image: old(buf)@, appended: *old(appended) },
                placed@,
                *md,
                symbols@,
                sec@,
            ),
        ),
{
    let place: (u64, u64) = placement_of(&placed.sections, sec.index)?;
    let at: usize = locate(buf.len(), place.0, sec.data.len() as u64)?;
    write_bytes(buf, at, sec.data.as_slice());
    let ghost start = Merged { image: buf@, appended: *appended };
    let n: usize = sec.relocations.len();
    let mut k: usize = 0;
    while k < n
        invariant
            k <= n,
            n == sec.relocations@.len(),
            md.wf(),
            buf@.len() == old(buf)@.len(),
            placed@.sections.contains_key(sec.index),
            place == placed@.sections[sec.index],
            located(old(buf)@.len() as int, place.0 as int, sec.data@.len() as int) == Ok::<
                usize,
                LinkError,
            >(at),
            start == (Merged {
                image: splice(old(buf)@, at as int, sec.data@),
                appended: *old(appended),
            }),
            apply_relocations(start, placed@, *md, symbols@, sec.relocations@, 0, place.0, place.1)
                == apply_relocations(
                Merged { image: buf@, appended: *appended },
                placed@,
                *md,
                symbols@,
                sec.relocations@,
                k as int,
                place.0,
                place.1,
            ),
        decreases n - k,
    {
        apply_relocation_in(buf, appended, placed, md, symbols, &sec.relocations[k], place.0, place.1)?;
        k += 1;
    }
    Ok(())
}

/// Copies the sections at the positions `order` and resolves their relocations.
pub fn merge_sections_in(
    buf: &mut Vec<u8>,
    appended: &mut u64,
    placed: &Placement,
    md: &Metadata,
    symbols: &Vec<SymbolRecord>,
    sections: &Vec<AppSection>,
    order: &Vec<usize>,
) -> (r: Result<(), LinkError>)
    requires
        md.wf(),
        forall|i: int| 0 <= i < order@.len() ==> order@[i] < sections@.len(),
    ensures
        final(buf)@.len() == old(buf)@.len(),
        merged_as(
            r,
            final(buf)@,
            *final(appended),
            merge_sections(
                Merged { image: old(buf)@, appended: *old(appended) },
                placed@,
                *md,
                symbols@,
                section_views(sections@),
                order@,
                0,
            ),
        ),
{
    let n: usize = order.len();
    let mut k: usize = 0;
    while k < n
        invariant
            k <= n,
            n == order@.len(),
            md.wf(),
            buf@.len() == old(buf)@.len(),
            forall|i: int| 0 <= i < order@.len() ==> order@[i] < sections@.len(),
            merge_sections(
                Merged { image: old(buf)@, appended: *old(appended) },
                placed@,
                *md,
                symbols@,
                section_views(sections@),
                order@,
                0,
            ) == merge_sections(
                Merged { image: buf@, appended: *appended },
                placed@,
                *md,
                symbols@,
                section_views(sections@),
                order@,
                k as int,
            ),
        decreases n - k,
    {
        merge_section_in(buf, appended, placed, md, symbols, &sections[order[k]])?;
        k += 1;
    }
    Ok(())
}

/// True when the relocation `rel` is absolute and is passed over because
/// nothing defines the symbol it refers to.
pub open spec fn is_skipped(placed: Placed, md: Metadata, symbols: Seq<SymbolRecord>, rel: RelocationRecord) -> bool {
    rel.kind == RelocKind::Absolute && (match rel.symbol {
        None => false,
        Some(index) => resolved(placed, md, symbols, index) == Ok::<Option<u64>, LinkError>(None),
    })
}

/// The number of absolute relocations among `relocs[k..]`.
pub open spec fn absolute_kinds(relocs: Seq<RelocationRecord>, k: int) -> int
    decreases relocs.len() - k,
{
    if k < 0 || k >= relocs.len() {
        0
    } else if relocs[k].kind == RelocKind::Absolute {
        1 + absolute_kinds(relocs, k + 1)
    } else {
        absolute_kinds(relocs, k + 1)
    }
}

/// The number of absolute relocations in the sections at the positions `order[k..]`.
pub open spec fn absolute_in_sections(sections: Seq<AppSectionView>, order: Seq<usize>, k: int) -> int
    decreases order.len() - k,
{
    if k < 0 || k >= order.len() {
        0
    } else {
        absolute_kinds(sections[order[k] as int].relocations, 0) + absolute_in_sections(
            sections,
            order,
            k + 1,
        )
    }
}

/// True when none of the absolute relocations among `relocs[k..]` is passed over.
pub open spec fn none_skipped(
    placed: Placed,
    md: Metadata,
    symbols: Seq<SymbolRecord>,
    relocs: Seq<RelocationRecord>,
    k: int,
) -> bool {
    forall|j: int| k <= j < relocs.len() ==> !is_skipped(placed, md, symbols, #[trigger] relocs[j])
}

/// When the relocations of a section are resolved and no absolute one is
/// passed over, one load-time relocation is appended for each absolute
/// relocation, and for no other.
pub proof fn lemma_appended_per_section(
    st: Merged,
    placed: Placed,
    md: Metadata,
    symbols: Seq<SymbolRecord>,
    relocs: Seq<RelocationRecord>,
    k: int,
    sec_offset: u64,
    sec_virt: u64,
)
    requires
        0 <= k,
        apply_relocations(st, placed, md, symbols, relocs, k, sec_offset, sec_virt) is Ok,
        none_skipped(placed, md, symbols, relocs, k),
    ensures
        apply_relocations(st, placed, md, symbols, relocs, k, sec_offset, sec_virt)->Ok_0.appended
            == st.appended + absolute_kinds(relocs, k),
    decreases relocs.len() - k,
{
    if k < relocs.len() {
        let rel = relocs[k];
        assert(!is_skipped(placed, md, symbols, rel));
        let next = apply_relocation(st, placed, md, symbols, rel, sec_offset, sec_virt)->Ok_0;
        lemma_appended_per_section(next, placed, md, symbols, relocs, k + 1, sec_offset, sec_virt);
    }
}

/// The number of load-time relocations that merging appends equals the
/// number of absolute relocations in the merged sections, provided that no
/// absolute relocation is passed over.
pub proof fn lemma_appended_count(
    st: Merged,
    placed: Placed,
    md: Metadata,
    symbols: Seq<SymbolRecord>,
    sections: Seq<AppSectionView>,
    order: Seq<usize>,
    k: int,
)
    requires
        0 <= k,
        merge_sections(st, placed, md, symbols, sections, order, k) is Ok,
        forall|i: int|
            k <= i < order.len() ==> none_skipped(
                placed,
                md,
                symbols,
                (#[trigger] sections[order[i] as int]).relocations,
                0,
            ),
    ensures
        merge_sections(st, placed, md, symbols, sections, order, k)->Ok_0.appended == st.appended
            + absolute_in_sections(sections, order, k),
    decreases order.len() - k,
{
    if k < order.len() {
        let sec = sections[order[k] as int];
        assert(none_skipped(placed, md, symbols, sec.relocations, 0));
        let place = placed.sections[sec.index];
        let at = located(st.image.len() as int, place.0 as int, sec.data.len() as int)->Ok_0;
        let copied = Merged { image: splice(st.image, at as int, sec.data), appended: st.appended };
        lemma_appended_per_section(copied, placed, md, symbols, sec.relocations, 0, place.0, place.1);
        let next = merge_section(st, placed, md, symbols, sec)->Ok_0;
        lemma_appended_count(next, placed, md, symbols, sections, order, k + 1);
    }
}

} // verus!
