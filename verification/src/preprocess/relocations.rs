//! Rewriting of the relocation tables with addends.
//!
//! Every entry is adapted to the shift. Entries that bind a global-data slot
//! to an application symbol become load-time relative relocations whose
//! addend is patched when the application is merged. Entries that bind a
//! jump slot to an application symbol are removed from the table.

use vstd::prelude::*;
use vstd::slice::slice_subrange;
use crate::bytes::{
    append_range, fits, lemma_put_u64_len, put_u64, read_u64, splice, u64_at, write_bytes,
    write_u64,
};
use crate::elf::{
    D_TAG, D_VAL, DT_JMPREL, DT_PLTRELSZ, DT_RELA, DT_RELASZ, DYN_SIZE, high_word, high_word_of,
    info_word, low_word, low_word_of, make_info_word, R_ADDEND, R_INFO, R_OFFSET, R_X86_64_GLOB_DAT,
    R_X86_64_JUMP_SLOT, R_X86_64_NONE, R_X86_64_RELATIVE, RELA_SIZE, SH_SIZE,
};
use crate::error::LinkError;
use crate::metadata::{Geometry, Metadata, SurgeryEntry, VirtualOffset};
use crate::preprocess::sections::TableRef;
use crate::table::{
    move_coordinate, moved, outcome, shift_field, shift_field_in, shrink_field, shrink_field_in,
    Space, table_range, table_span,
};

verus! {

/// A patch site found while rewriting, for the application symbol at
/// position `symbol` of the list of global-data symbols.
#[derive(Debug, Clone, Copy, PartialEq, Eq, Structural)]
pub struct Site {
    pub symbol: usize,
    pub entry: SurgeryEntry,
}

/// `s` with the relocation at `pos` adapted to the shift: its target
/// address, and for a relative relocation also its addend, which must not be
/// negative.
pub open spec fn shift_rela(s: Seq<u8>, md: Geometry, pos: int) -> Result<Seq<u8>, LinkError> {
    match shift_field(s, md, Space::Virtual, pos + R_OFFSET) {
        Err(e) => Err(e),
        Ok(t) => if low_word(u64_at(t, pos + R_INFO)) == R_X86_64_RELATIVE {
            if u64_at(t, pos + R_ADDEND) > i64::MAX {
                Err(LinkError::NegativeAddend)
            } else {
                shift_field(t, md, Space::Virtual, pos + R_ADDEND)
            }
        } else {
            Ok(t)
        },
    }
}

/// Adapts the relocation at `pos` to the shift.
pub fn shift_rela_in(buf: &mut Vec<u8>, md: &Metadata, pos: usize) -> (r: Result<(), LinkError>)
    requires
        fits(old(buf)@, pos as int, RELA_SIZE as int),
    ensures
        outcome(r, final(buf)@, shift_rela(old(buf)@, md.geometry(), pos as int)),
        final(buf)@.len() == old(buf)@.len(),
{
    let total: usize = buf.len();
    shift_field_in(buf, md, Space::Virtual, pos + R_OFFSET)?;
    if low_word_of(read_u64(buf.as_slice(), pos + R_INFO)) == R_X86_64_RELATIVE {
        if read_u64(buf.as_slice(), pos + R_ADDEND) > i64::MAX as u64 {
            return Err(LinkError::NegativeAddend);
        }
        shift_field_in(buf, md, Space::Virtual, pos + R_ADDEND)?;
    }
    Ok(())
}

/// `acc` followed by one patch site for every symbol of `got[k..]` whose
/// index, cut to 32 bits, is `sym`. Each site is the 8-byte addend at
/// `file_offset`, to be patched with the absolute address of the symbol.
pub open spec fn sites_for(
    got: Seq<(String, u64)>,
    sym: u32,
    file_offset: u64,
    k: int,
    acc: Seq<Site>,
) -> Seq<Site>
    decreases got.len() - k,
{
    if k < 0 || k >= got.len() {
        acc
    } else if low_word(got[k].1) == sym {
        sites_for(
            got,
            sym,
            file_offset,
            k + 1,
            acc.push(
                Site {
                    symbol: k as usize,
                    entry: SurgeryEntry {
                        file_offset,
                        virtual_offset: VirtualOffset::Absolute,
                        size: 8,
                    },
                },
            ),
        )
    } else {
        sites_for(got, sym, file_offset, k + 1, acc)
    }
}

/// True when a symbol of `got[k..]` has the index `sym`, cut to 32 bits.
pub open spec fn binds_app_symbol(got: Seq<(String, u64)>, sym: u32, k: int) -> bool
    decreases got.len() - k,
{
    if k < 0 || k >= got.len() {
        false
    } else {
        low_word(got[k].1) == sym || binds_app_symbol(got, sym, k + 1)
    }
}

/// The image and the patch sites after the relocation at `pos` has been
/// looked at: a global-data relocation against one of the symbols of `got`
/// becomes a relative relocation without symbol, and its addend becomes a
/// patch site for each such symbol. `file_offset` is the offset that the
/// addend had in the executable before the shift.
pub open spec fn bind_rela(
    s: Seq<u8>,
    got: Seq<(String, u64)>,
    pos: int,
    file_offset: int,
    acc: Seq<Site>,
) -> Result<(Seq<u8>, Seq<Site>), LinkError> {
    let info = u64_at(s, pos + R_INFO);
    if low_word(info) != R_X86_64_GLOB_DAT || !binds_app_symbol(got, high_word(info), 0) {
        Ok((s, acc))
    } else if file_offset > u64::MAX {
        Err(LinkError::ArithmeticOverflow)
    } else {
        Ok(
            (
                put_u64(s, pos + R_INFO, info_word(0, R_X86_64_RELATIVE)),
                sites_for(got, high_word(info), file_offset as u64, 0, acc),
            ),
        )
    }
}

/// The image and the patch sites after every relocation between `pos` and
/// `end` has been adapted to the shift and looked at. The table starts at
/// `base` in the image and started at `offset` in the executable.
pub open spec fn bind_relas(
    s: Seq<u8>,
    md: Geometry,
    got: Seq<(String, u64)>,
    offset: u64,
    base: int,
    pos: int,
    end: int,
    acc: Seq<Site>,
) -> Result<(Seq<u8>, Seq<Site>), LinkError>
    decreases end - pos,
{
    if pos + RELA_SIZE > end {
        Ok((s, acc))
    } else {
        match shift_rela(s, md, pos) {
            Err(e) => Err(e),
            Ok(t) => match bind_rela(t, got, pos, offset + (pos - base) + R_ADDEND, acc) {
                Err(e) => Err(e),
                Ok(next) => bind_relas(next.0, md, got, offset, base, pos + RELA_SIZE, end, next.1),
            },
        }
    }
}

/// Looks at the relocation at `pos` and records its patch sites.
pub fn bind_rela_in(
    buf: &mut Vec<u8>,
    got: &Vec<(String, u64)>,
    pos: usize,
    file_offset: Option<u64>,
    sites: &mut Vec<Site>,
) -> (r: Result<(), LinkError>)
    requires
        fits(old(buf)@, pos as int, RELA_SIZE as int),
    ensures
        final(buf)@.len() == old(buf)@.len(),
        forall|wide: int|
            (match file_offset {
                Some(v) => wide == v,
                None => wide > u64::MAX,
            }) ==> (match r {
                Ok(_) => bind_rela(old(buf)@, got@, pos as int, wide, old(sites)@) == Ok::<
                    (Seq<u8>, Seq<Site>),
                    LinkError,
                >((final(buf)@, final(sites)@)),
                Err(e) => bind_rela(old(buf)@, got@, pos as int, wide, old(sites)@) == Err::<
                    (Seq<u8>, Seq<Site>),
                    LinkError,
                >(e),
            }),
{
    let total: usize = buf.len();
    let info: u64 = read_u64(buf.as_slice(), pos + R_INFO);
    if low_word_of(info) != R_X86_64_GLOB_DAT {
        return Ok(());
    }
    let sym: u32 = high_word_of(info);
    let n: usize = got.len();
    let mut k: usize = 0;
    let mut bound: bool = false;
    while k < n
        invariant
            k <= n,
            n == got@.len(),
            binds_app_symbol(got@, sym, 0) == (bound || binds_app_symbol(got@, sym, k as int)),
            sites@ == old(sites)@,
        decreases n - k,
    {
        if low_word_of(got[k].1) == sym {
            bound = true;
        }
        k += 1;
    }
    if !bound {
        return Ok(());
    }
    let at: u64 = match file_offset {
        Some(v) => v,
        None => {
            return Err(LinkError::ArithmeticOverflow);
        },
    };
    write_u64(buf, pos + R_INFO, make_info_word(0, R_X86_64_RELATIVE));
    let mut k: usize = 0;
    while k < n
        invariant
            k <= n,
            n == got@.len(),
            sites_for(got@, sym, at, 0, old(sites)@) == sites_for(got@, sym, at, k as int, sites@),
        decreases n - k,
    {
        if low_word_of(got[k].1) == sym {
            sites.push(
                Site {
                    symbol: k,
                    entry: SurgeryEntry {
                        file_offset: at,
                        virtual_offset: VirtualOffset::Absolute,
                        size: 8,
                    },
                },
            );
        }
        k += 1;
    }
    Ok(())
}

/// Adapts every relocation between `base` and `end` to the shift and records
/// the patch sites.
pub fn bind_relas_in(
    buf: &mut Vec<u8>,
    md: &Metadata,
    got: &Vec<(String, u64)>,
    offset: u64,
    base: usize,
    end: usize,
    sites: &mut Vec<Site>,
) -> (r: Result<(), LinkError>)
    requires
        base <= end <= old(buf)@.len(),
    ensures
        final(buf)@.len() == old(buf)@.len(),
        match r {
            Ok(_) => bind_relas(
                old(buf)@,
                md.geometry(),
                got@,
                offset,
                base as int,
                base as int,
                end as int,
                old(sites)@,
            ) == Ok::<(Seq<u8>, Seq<Site>), LinkError>((final(buf)@, final(sites)@)),
            Err(e) => bind_relas(
                old(buf)@,
                md.geometry(),
                got@,
                offset,
                base as int,
                base as int,
                end as int,
                old(sites)@,
            ) == Err::<(Seq<u8>, Seq<Site>), LinkError>(e),
        },
{
    let mut pos: usize = base;
    while end - pos >= RELA_SIZE
        invariant
            base <= pos <= end <= buf@.len(),
            buf@.len() == old(buf)@.len(),
            bind_relas(
                old(buf)@,
                md.geometry(),
                got@,
                offset,
                base as int,
                base as int,
                end as int,
                old(sites)@,
            ) == bind_relas(buf@, md.geometry(), got@, offset, base as int, pos as int, end as int, sites@),
        decreases end - pos,
    {
        shift_rela_in(buf, md, pos)?;
        let file_offset: Option<u64> = match offset.checked_add((pos - base) as u64) {
            Some(v) => v.checked_add(R_ADDEND as u64),
            None => None,
        };
        bind_rela_in(buf, got, pos, file_offset, sites)?;
        pos = pos + RELA_SIZE;
    }
    Ok(())
}

/// True when the relocation at `pos` binds a jump slot to one of the
/// application symbols `apps`.
pub open spec fn is_app_jump_slot(s: Seq<u8>, pos: int, apps: Seq<u64>) -> bool {
    let info = u64_at(s, pos + R_INFO);
    low_word(info) == R_X86_64_JUMP_SLOT && apps.contains(high_word(info) as u64)
}

/// The relocation record at `pos` with its type set to none; its symbol is kept.
pub open spec fn neutralized(s: Seq<u8>, pos: int) -> Seq<u8> {
    put_u64(
        s.subrange(pos, pos + RELA_SIZE),
        R_INFO as int,
        info_word(high_word(u64_at(s, pos + R_INFO)), R_X86_64_NONE),
    )
}

/// `acc` followed by the records between `pos` and `end` that stay in the
/// table, in their order.
pub open spec fn kept_records(s: Seq<u8>, pos: int, end: int, apps: Seq<u64>, acc: Seq<u8>) -> Seq<
    u8,
>
    decreases end - pos,
{
    if pos + RELA_SIZE > end {
        acc
    } else if is_app_jump_slot(s, pos, apps) {
        kept_records(s, pos + RELA_SIZE, end, apps, acc)
    } else {
        kept_records(s, pos + RELA_SIZE, end, apps, acc + s.subrange(pos, pos + RELA_SIZE))
    }
}

/// `acc` followed by the records between `pos` and `end` that leave the
/// table, in their order, each with its type set to none.
pub open spec fn removed_records(s: Seq<u8>, pos: int, end: int, apps: Seq<u64>, acc: Seq<u8>) -> Seq<
    u8,
>
    decreases end - pos,
{
    if pos + RELA_SIZE > end {
        acc
    } else if is_app_jump_slot(s, pos, apps) {
        removed_records(s, pos + RELA_SIZE, end, apps, acc + neutralized(s, pos))
    } else {
        removed_records(s, pos + RELA_SIZE, end, apps, acc)
    }
}

/// `s` with the table between `base` and `end` compacted: the records that
/// stay come first, in their old order; the removed records follow them.
pub open spec fn compacted(s: Seq<u8>, base: int, end: int, apps: Seq<u64>) -> Seq<u8> {
    splice(
        s,
        base,
        kept_records(s, base, end, apps, Seq::empty()) + removed_records(
            s,
            base,
            end,
            apps,
            Seq::empty(),
        ),
    )
}

/// True when `value` is one of `list`.
pub fn contains_index(list: &Vec<u64>, value: u64) -> (r: bool)
    ensures
        r == list@.contains(value),
{
    let n: usize = list.len();
    let mut i: usize = 0;
    while i < n
        invariant
            i <= n,
            n == list@.len(),
            forall|j: int| 0 <= j < i ==> list@[j] != value,
        decreases n - i,
    {
        if list[i] == value {
            return true;
        }
        i += 1;
    }
    false
}

/// Moves the jump-slot relocations against application symbols to the end
/// of the table between `base` and `end` and sets their type to none. Returns
/// the number of bytes that the removed records occupy.
pub fn compact_in(buf: &mut Vec<u8>, base: usize, end: usize, apps: &Vec<u64>) -> (removed: u64)
    requires
        base <= end <= old(buf)@.len(),
        (end - base) % (RELA_SIZE as int) == 0,
    ensures
        final(buf)@ == compacted(old(buf)@, base as int, end as int, apps@),
        final(buf)@.len() == old(buf)@.len(),
        removed == removed_records(old(buf)@, base as int, end as int, apps@, Seq::empty()).len(),
        removed <= end - base,
{
    let total: usize = buf.len();
    let mut kept: Vec<u8> = Vec::new();
    let mut gone: Vec<u8> = Vec::new();
    let mut pos: usize = base;
    while end - pos >= RELA_SIZE
        invariant
            base <= pos <= end <= buf@.len(),
            buf@ == old(buf)@,
            (end - pos) % (RELA_SIZE as int) == 0,
            kept@.len() + gone@.len() == pos - base,
            kept_records(buf@, base as int, end as int, apps@, Seq::empty()) == kept_records(
                buf@,
                pos as int,
                end as int,
                apps@,
                kept@,
            ),
            removed_records(buf@, base as int, end as int, apps@, Seq::empty()) == removed_records(
                buf@,
                pos as int,
                end as int,
                apps@,
                gone@,
            ),
        decreases end - pos,
    {
        let info: u64 = read_u64(buf.as_slice(), pos + R_INFO);
        let sym: u32 = high_word_of(info);
        if low_word_of(info) == R_X86_64_JUMP_SLOT && contains_index(apps, sym as u64) {
            let ghost before = gone@;
            let start: usize = gone.len();
            append_range(&mut gone, buf.as_slice(), pos, pos + RELA_SIZE);
            write_u64(&mut gone, start + R_INFO, make_info_word(sym, R_X86_64_NONE));
            proof {
                assert(gone@ =~= before + neutralized(buf@, pos as int));
            }
        } else {
            append_range(&mut kept, buf.as_slice(), pos, pos + RELA_SIZE);
        }
        pos = pos + RELA_SIZE;
    }
    let removed: usize = gone.len();
    append_range(&mut kept, gone.as_slice(), 0, removed);
    proof {
        assert(gone@.subrange(0, removed as int) =~= gone@);
    }
    write_bytes(buf, base, kept.as_slice());
    removed as u64
}

/// True when an entry of the dynamic table between `pos` and `end` has
/// the tag `tag` and the value `value`.
pub open spec fn dynamic_names(s: Seq<u8>, pos: int, end: int, tag: u32, value: u64) -> bool
    decreases end - pos,
{
    if pos + DYN_SIZE > end {
        false
    } else {
        (low_word(u64_at(s, pos + D_TAG)) == tag && u64_at(s, pos + D_VAL) == value)
            || dynamic_names(s, pos + DYN_SIZE, end, tag, value)
    }
}

/// Looks for an entry with the given tag and value in the dynamic table.
pub fn dynamic_names_in(data: &[u8], base: usize, end: usize, tag: u32, value: u64) -> (r: bool)
    requires
        base <= end <= data@.len(),
    ensures
        r == dynamic_names(data@, base as int, end as int, tag, value),
{
    let mut pos: usize = base;
    while end - pos >= DYN_SIZE
        invariant
            base <= pos <= end <= data@.len(),
            dynamic_names(data@, base as int, end as int, tag, value) == dynamic_names(
                data@,
                pos as int,
                end as int,
                tag,
                value,
            ),
        decreases end - pos,
    {
        if low_word_of(read_u64(data, pos + D_TAG)) == tag && read_u64(data, pos + D_VAL) == value {
            return true;
        }
        pos = pos + DYN_SIZE;
    }
    false
}

/// `s` with `amount` subtracted from the size entries of the dynamic table
/// between `pos` and `end`: from the size of the relocation table when
/// `is_rela_dyn`, from the size of the jump-slot table when `is_rela_plt`.
pub open spec fn shrink_sizes(
    s: Seq<u8>,
    pos: int,
    end: int,
    is_rela_dyn: bool,
    is_rela_plt: bool,
    amount: u64,
) -> Result<Seq<u8>, LinkError>
    decreases end - pos,
{
    if pos + DYN_SIZE > end {
        Ok(s)
    } else {
        let tag = low_word(u64_at(s, pos + D_TAG));
        if (tag == DT_RELASZ && is_rela_dyn) || (tag == DT_PLTRELSZ && is_rela_plt) {
            match shrink_field(s, pos + D_VAL, amount) {
                Ok(t) => shrink_sizes(t, pos + DYN_SIZE, end, is_rela_dyn, is_rela_plt, amount),
                Err(e) => Err(e),
            }
        } else {
            shrink_sizes(s, pos + DYN_SIZE, end, is_rela_dyn, is_rela_plt, amount)
        }
    }
}

/// Subtracts `amount` from the size entries of the dynamic table.
pub fn shrink_sizes_in(
    buf: &mut Vec<u8>,
    base: usize,
    end: usize,
    is_rela_dyn: bool,
    is_rela_plt: bool,
    amount: u64,
) -> (r: Result<(), LinkError>)
    requires
        base <= end <= old(buf)@.len(),
    ensures
        outcome(
            r,
            final(buf)@,
            shrink_sizes(old(buf)@, base as int, end as int, is_rela_dyn, is_rela_plt, amount),
        ),
        final(buf)@.len() == old(buf)@.len(),
{
    let mut pos: usize = base;
    while end - pos >= DYN_SIZE
        invariant
            base <= pos <= end <= buf@.len(),
            buf@.len() == old(buf)@.len(),
            shrink_sizes(old(buf)@, base as int, end as int, is_rela_dyn, is_rela_plt, amount)
                == shrink_sizes(buf@, pos as int, end as int, is_rela_dyn, is_rela_plt, amount),
        decreases end - pos,
    {
        let tag: u32 = low_word_of(read_u64(buf.as_slice(), pos + D_TAG));
        if (tag == DT_RELASZ && is_rela_dyn) || (tag == DT_PLTRELSZ && is_rela_plt) {
            shrink_field_in(buf, pos + D_VAL, amount)?;
        }
        pos = pos + DYN_SIZE;
    }
    Ok(())
}

/// What the rewriting of relocation tables has produced so far.
pub struct Rewrite {
    /// The image.
    pub image: Seq<u8>,
    /// The patch sites found, in the order in which they were found.
    pub sites: Seq<Site>,
    /// Index of the section that holds the relocation table of the dynamic table.
    pub rela_section_index: u64,
}

/// The state after one relocation table has been rewritten.
///
/// Its entries are adapted to the shift and looked at for patch sites; the
/// jump-slot entries against the application symbols `apps` are moved to the
/// end and neutralized; the size in the table's section header and the
/// matching size entries of the dynamic table, which lies between `dyn_base`
/// and `dyn_end`, lose the size of the removed entries. The table that the
/// dynamic table names as the relocation table gives the section index.
pub open spec fn rewrite_rela_table(
    st: Rewrite,
    md: Geometry,
    got: Seq<(String, u64)>,
    apps: Seq<u64>,
    dyn_base: int,
    dyn_end: int,
    table: TableRef,
) -> Result<Rewrite, LinkError> {
    match moved(md, Space::Physical, table.offset) {
        Err(e) => Err(e),
        Ok(base) => match table_span(
            st.image.len() as int,
            base as int,
            table.size as int / (RELA_SIZE as int),
            RELA_SIZE as int,
        ) {
            Err(e) => Err(e),
            Ok(span) => match bind_relas(
                st.image,
                md,
                got,
                table.offset,
                span.0 as int,
                span.0 as int,
                span.1 as int,
                st.sites,
            ) {
                Err(e) => Err(e),
                Ok(bound) => {
                    let removed = removed_records(
                        bound.0,
                        span.0 as int,
                        span.1 as int,
                        apps,
                        Seq::empty(),
                    ).len() as u64;
                    let s1 = compacted(bound.0, span.0 as int, span.1 as int, apps);
                    match shrink_field(s1, table.header + SH_SIZE, removed) {
                        Err(e) => Err(e),
                        Ok(s2) => {
                            let is_rela_dyn = dynamic_names(s2, dyn_base, dyn_end, DT_RELA, table.offset);
                            let is_rela_plt = dynamic_names(
                                s2,
                                dyn_base,
                                dyn_end,
                                DT_JMPREL,
                                table.offset,
                            );
                            match shrink_sizes(s2, dyn_base, dyn_end, is_rela_dyn, is_rela_plt, removed) {
                                Err(e) => Err(e),
                                Ok(s3) => Ok(
                                    Rewrite {
                                        image: s3,
                                        sites: bound.1,
                                        rela_section_index: if is_rela_dyn {
                                            table.index
                                        } else {
                                            st.rela_section_index
                                        },
                                    },
                                ),
                            }
                        },
                    }
                },
            },
        },
    }
}

/// The state after the tables `tables[k..]` have been rewritten in turn.
pub open spec fn rewrite_rela_tables(
    st: Rewrite,
    md: Geometry,
    got: Seq<(String, u64)>,
    apps: Seq<u64>,
    dyn_base: int,
    dyn_end: int,
    tables: Seq<TableRef>,
    k: int,
) -> Result<Rewrite, LinkError>
    decreases tables.len() - k,
{
    if k < 0 || k >= tables.len() {
        Ok(st)
    } else {
        match rewrite_rela_table(st, md, got, apps, dyn_base, dyn_end, tables[k]) {
            Ok(next) => rewrite_rela_tables(next, md, got, apps, dyn_base, dyn_end, tables, k + 1),
            Err(e) => Err(e),
        }
    }
}

/// Rewrites one relocation table. `index` holds the section index of the
/// relocation table named by the dynamic table, as far as it is known.
pub fn rewrite_rela_table_in(
    buf: &mut Vec<u8>,
    md: &Metadata,
    got: &Vec<(String, u64)>,
    apps: &Vec<u64>,
    dyn_base: usize,
    dyn_end: usize,
    table: &TableRef,
    sites: &mut Vec<Site>,
    index: &mut u64,
) -> (r: Result<(), LinkError>)
    requires
        dyn_base <= dyn_end <= old(buf)@.len(),
        table.header + SH_SIZE + 8 <= old(buf)@.len(),
    ensures
        final(buf)@.len() == old(buf)@.len(),
        match r {
            Ok(_) => rewrite_rela_table(
                Rewrite { image: old(buf)@, sites: old(sites)@, rela_section_index: *old(index) },
                md.geometry(),
                got@,
                apps@,
                dyn_base as int,
                dyn_end as int,
                *table,
            ) == Ok::<Rewrite, LinkError>(
                Rewrite { image: final(buf)@, sites: final(sites)@, rela_section_index: *final(index) },
            ),
            Err(e) => rewrite_rela_table(
                Rewrite { image: old(buf)@, sites: old(sites)@, rela_section_index: *old(index) },
                md.geometry(),
                got@,
                apps@,
                dyn_base as int,
                dyn_end as int,
                *table,
            ) == Err::<Rewrite, LinkError>(e),
        },
{
    let total: usize = buf.len();
    let base: u64 = move_coordinate(md, Space::Physical, table.offset)?;
    let span = table_range(total, base, table.size / (RELA_SIZE as u64), RELA_SIZE)?;
    bind_relas_in(buf, md, got, table.offset, span.0, span.1, sites)?;
    let removed: u64 = compact_in(buf, span.0, span.1, apps);
    shrink_field_in(buf, table.header + SH_SIZE, removed)?;
    let is_rela_dyn: bool = dynamic_names_in(buf.as_slice(), dyn_base, dyn_end, DT_RELA, table.offset);
    let is_rela_plt: bool = dynamic_names_in(
        buf.as_slice(),
        dyn_base,
        dyn_end,
        DT_JMPREL,
        table.offset,
    );
    shrink_sizes_in(buf, dyn_base, dyn_end, is_rela_dyn, is_rela_plt, removed)?;
    if is_rela_dyn {
        *index = table.index;
    }
    Ok(())
}

/// Rewrites the given relocation tables in turn.
pub fn rewrite_rela_tables_in(
    buf: &mut Vec<u8>,
    md: &Metadata,
    got: &Vec<(String, u64)>,
    apps: &Vec<u64>,
    dyn_base: usize,
    dyn_end: usize,
    tables: &Vec<TableRef>,
    sites: &mut Vec<Site>,
    index: &mut u64,
) -> (r: Result<(), LinkError>)
    requires
        dyn_base <= dyn_end <= old(buf)@.len(),
        forall|i: int|
            0 <= i < tables@.len() ==> (#[trigger] tables@[i]).header + SH_SIZE + 8 <= old(
                buf,
            )@.len(),
    ensures
        final(buf)@.len() == old(buf)@.len(),
        match r {
            Ok(_) => rewrite_rela_tables(
                Rewrite { image: old(buf)@, sites: old(sites)@, rela_section_index: *old(index) },
                md.geometry(),
                got@,
                apps@,
                dyn_base as int,
                dyn_end as int,
                tables@,
                0,
            ) == Ok::<Rewrite, LinkError>(
                Rewrite { image: final(buf)@, sites: final(sites)@, rela_section_index: *final(index) },
            ),
            Err(e) => rewrite_rela_tables(
                Rewrite { image: old(buf)@, sites: old(sites)@, rela_section_index: *old(index) },
                md.geometry(),
                got@,
                apps@,
                dyn_base as int,
                dyn_end as int,
                tables@,
                0,
            ) == Err::<Rewrite, LinkError>(e),
        },
{
    let n: usize = tables.len();
    let mut k: usize = 0;
    while k < n
        invariant
            k <= n,
            n == tables@.len(),
            buf@.len() == old(buf)@.len(),
            dyn_base <= dyn_end <= buf@.len(),
            forall|i: int|
                0 <= i < tables@.len() ==> (#[trigger] tables@[i]).header + SH_SIZE + 8
                    <= buf@.len(),
            rewrite_rela_tables(
                Rewrite { image: old(buf)@, sites: old(sites)@, rela_section_index: *old(index) },
                md.geometry(),
                got@,
                apps@,
                dyn_base as int,
                dyn_end as int,
                tables@,
                0,
            ) == rewrite_rela_tables(
                Rewrite { image: buf@, sites: sites@, rela_section_index: *index },
                md.geometry(),
                got@,
                apps@,
                dyn_base as int,
                dyn_end as int,
                tables@,
                k as int,
            ),
        decreases n - k,
    {
        rewrite_rela_table_in(buf, md, got, apps, dyn_base, dyn_end, &tables[k], sites, index)?;
        k += 1;
    }
    Ok(())
}

/// Every record of the table is either kept or removed: together the kept
/// and the removed records fill the table.
pub proof fn lemma_compaction_fills(
    s: Seq<u8>,
    pos: int,
    end: int,
    apps: Seq<u64>,
    kept: Seq<u8>,
    removed: Seq<u8>,
)
    requires
        0 <= pos <= end <= s.len(),
        (end - pos) % (RELA_SIZE as int) == 0,
    ensures
        kept_records(s, pos, end, apps, kept).len() + removed_records(
            s,
            pos,
            end,
            apps,
            removed,
        ).len() == kept.len() + removed.len() + (end - pos),
    decreases end - pos,
{
    if pos + RELA_SIZE <= end {
        if is_app_jump_slot(s, pos, apps) {
            lemma_put_u64_len(
                s.subrange(pos, pos + RELA_SIZE),
                R_INFO as int,
                info_word(high_word(u64_at(s, pos + R_INFO)), R_X86_64_NONE),
            );
            lemma_compaction_fills(
                s,
                pos + RELA_SIZE,
                end,
                apps,
                kept,
                removed + neutralized(s, pos),
            );
        } else {
            lemma_compaction_fills(
                s,
                pos + RELA_SIZE,
                end,
                apps,
                kept + s.subrange(pos, pos + RELA_SIZE),
                removed,
            );
        }
    }
}

/// Compacting a table changes no byte outside the table and keeps the
/// length of the image.
pub proof fn lemma_compacted_frame(s: Seq<u8>, base: int, end: int, apps: Seq<u64>)
    requires
        0 <= base <= end <= s.len(),
        (end - base) % (RELA_SIZE as int) == 0,
    ensures
        compacted(s, base, end, apps).len() == s.len(),
        forall|j: int|
            0 <= j < s.len() && (j < base || j >= end) ==> compacted(s, base, end, apps)[j] == s[j],
{
    lemma_compaction_fills(s, base, end, apps, Seq::empty(), Seq::empty());
}

} // verus!
