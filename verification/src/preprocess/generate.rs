//! Preprocessing of the host executable: the rewrite that makes room for new
//! program headers, duplicates the relocation table at the end of the file
//! and removes the dependency on the placeholder library.

use vstd::prelude::*;
use crate::elf::{
    DYN_SIZE, FileHeader, GOT_ENTRY_SIZE, PROGRAM_HEADER_SIZE, R_OFFSET, REL_SIZE,
    SECTION_HEADER_SIZE, SH_SIZE, SHT_REL, SHT_RELA, ST_VALUE, SYM_SIZE,
};
use crate::error::LinkError;
use crate::metadata::{Geometry, Metadata, SurgeryEntry, with_site};
use crate::name_map::NameMap;
use crate::preprocess::dynamic::{
    remove_entry, removed_entry, rewrite_file_header, rewritten_file_header, shift_dynamic,
    shift_dynamic_in,
};
use crate::preprocess::plan::{laid_out, lay_out, Layout, place_relocation_table, placed};
use crate::preprocess::relocations::{Rewrite, rewrite_rela_tables, rewrite_rela_tables_in, Site};
use crate::preprocess::sections::{
    collect_tables, extents, extents_of, shift_section_headers, shifted_section_headers,
    tables_of_type,
};
use crate::preprocess::segments::{
    copied_contents, copy_contents, rewrite_program_headers, rewritten_program_headers,
};
use crate::table::{
    move_coordinate, moved, shift_table, shift_table_in, shift_tables, shift_tables_in, Space,
    table_range, table_span,
};

verus! {

/// The image and the geometry once the program headers are rewritten and
/// the contents of the executable `exec` are copied to their new positions.
pub open spec fn framed(exec: Seq<u8>, md: Geometry, dynamic_lib_count: int) -> Result<
    Layout,
    LinkError,
> {
    match laid_out(exec, md, dynamic_lib_count) {
        Err(e) => Err(e),
        Ok(l) => match placed(l.image, l.md, l.header) {
            Err(e) => Err(e),
            Ok(md2) => match rewritten_program_headers(
                l.image,
                md2,
                l.header.ph_offset as int,
                l.header.ph_offset + (l.header.ph_num + 1) * PROGRAM_HEADER_SIZE,
            ) {
                Err(e) => Err(e),
                Ok(s1) => match copied_contents(s1, exec, md2, l.header.sh_offset) {
                    Err(e) => Err(e),
                    Ok(s2) => Ok(Layout { header: l.header, md: md2, image: s2 }),
                },
            },
        },
    }
}

/// Lays out the output, rewrites its program headers and copies the contents
/// of the executable.
pub fn frame(exec_data: &[u8], md: &mut Metadata, dynamic_lib_count: usize) -> (r: Result<
    (FileHeader, Vec<u8>),
    LinkError,
>)
    ensures
        match r {
            Ok((h, out)) => framed(exec_data@, old(md).geometry(), dynamic_lib_count as int) == Ok::<
                Layout,
                LinkError,
            >(Layout { header: h, md: final(md).geometry(), image: out@ }),
            Err(e) => framed(exec_data@, old(md).geometry(), dynamic_lib_count as int) == Err::<
                Layout,
                LinkError,
            >(e),
        },
        r is Ok ==> r->Ok_0.1@.len() == final(md).exec_len,
        r is Ok ==> final(md).same_tables(*old(md)),
{
    let (h, mut out) = lay_out(exec_data, md, dynamic_lib_count)?;
    let span = place_relocation_table(out.as_slice(), md, &h)?;
    rewrite_program_headers(&mut out, md, span.0, span.1)?;
    copy_contents(&mut out, exec_data, md, h.sh_offset)?;
    Ok((h, out))
}

/// The image, the patch sites and the index of the relocation section once
/// every table of the framed image `s` is adapted to the shift: the section
/// headers, the relocation tables without and with addends, the dynamic
/// table, the symbol table, and the global offset tables `got_sections`.
pub open spec fn rewritten_tables(
    s: Seq<u8>,
    md: Geometry,
    h: FileHeader,
    got: Seq<(String, u64)>,
    got_sections: Seq<(u64, u64)>,
    apps: Seq<u64>,
    dynamic_lib_count: int,
) -> Result<Rewrite, LinkError> {
    match moved(md, Space::Physical, h.sh_offset) {
        Err(e) => Err(e),
        Ok(sh_base) => match table_span(
            s.len() as int,
            sh_base as int,
            h.sh_num as int,
            SECTION_HEADER_SIZE as int,
        ) {
            Err(e) => Err(e),
            Ok(sh) => {
                let rels = tables_of_type(s, sh.0 as int, sh.1 as int, 0, SHT_REL);
                let relas = tables_of_type(s, sh.0 as int, sh.1 as int, 0, SHT_RELA);
                match shifted_section_headers(s, md, sh.0 as int, sh.1 as int) {
                    Err(e) => Err(e),
                    Ok(s1) => match shift_tables(
                        s1,
                        md,
                        Space::Virtual,
                        extents(rels),
                        0,
                        REL_SIZE as int,
                        R_OFFSET as int,
                    ) {
                        Err(e) => Err(e),
                        Ok(s2) => match moved(md, Space::Physical, md.dynamic_section_offset) {
                            Err(e) => Err(e),
                            Ok(dyn_base) => match table_span(
                                s2.len() as int,
                                dyn_base as int,
                                dynamic_lib_count,
                                DYN_SIZE as int,
                            ) {
                                Err(e) => Err(e),
                                Ok(dy) => match rewrite_rela_tables(
                                    Rewrite {
                                        image: s2,
                                        sites: Seq::empty(),
                                        rela_section_index: md.rela_section_index,
                                    },
                                    md,
                                    got,
                                    apps,
                                    dy.0 as int,
                                    dy.1 as int,
                                    relas,
                                    0,
                                ) {
                                    Err(e) => Err(e),
                                    Ok(rw) => match shift_dynamic(
                                        rw.image,
                                        md,
                                        dy.0 as int,
                                        dy.1 as int,
                                    ) {
                                        Err(e) => Err(e),
                                        Ok(s3) => match shift_table(
                                            s3,
                                            md,
                                            Space::Virtual,
                                            md.symbol_table_section_offset,
                                            md.symbol_table_size,
                                            SYM_SIZE as int,
                                            ST_VALUE as int,
                                        ) {
                                            Err(e) => Err(e),
                                            Ok(s4) => match shift_tables(
                                                s4,
                                                md,
                                                Space::Physical,
                                                got_sections,
                                                0,
                                                GOT_ENTRY_SIZE as int,
                                                0,
                                            ) {
                                                Err(e) => Err(e),
                                                Ok(s5) => Ok(
                                                    Rewrite {
                                                        image: s5,
                                                        sites: rw.sites,
                                                        rela_section_index: rw.rela_section_index,
                                                    },
                                                ),
                                            },
                                        },
                                    },
                                },
                            },
                        },
                    },
                }
            },
        },
    }
}

/// Adapts every table of the framed image to the shift. Returns the patch
/// sites, the index of the relocation section and the position of the dynamic
/// table.
pub fn rewrite_tables(
    buf: &mut Vec<u8>,
    md: &Metadata,
    h: &FileHeader,
    got: &Vec<(String, u64)>,
    got_sections: &Vec<(u64, u64)>,
    apps: &Vec<u64>,
    dynamic_lib_count: usize,
) -> (r: Result<(Vec<Site>, u64, usize), LinkError>)
    ensures
        final(buf)@.len() == old(buf)@.len(),
        match r {
            Ok((sites, index, dyn_base)) => rewritten_tables(
                old(buf)@,
                md.geometry(),
                *h,
                got@,
                got_sections@,
                apps@,
                dynamic_lib_count as int,
            ) == Ok::<Rewrite, LinkError>(
                Rewrite { image: final(buf)@, sites: sites@, rela_section_index: index },
            ) && moved(md.geometry(), Space::Physical, md.dynamic_section_offset) == Ok::<u64, LinkError>(
                dyn_base as u64,
            ),
            Err(e) => rewritten_tables(
                old(buf)@,
                md.geometry(),
                *h,
                got@,
                got_sections@,
                apps@,
                dynamic_lib_count as int,
            ) == Err::<Rewrite, LinkError>(e),
        },
{
    let total: usize = buf.len();
    let sh_base: u64 = move_coordinate(md, Space::Physical, h.sh_offset)?;
    let sh = table_range(total, sh_base, h.sh_num as u64, SECTION_HEADER_SIZE)?;
    let rels = collect_tables(buf.as_slice(), sh.0, sh.1, SHT_REL);
    let relas = collect_tables(buf.as_slice(), sh.0, sh.1, SHT_RELA);
    shift_section_headers(buf, md, sh.0, sh.1)?;
    let rel_extents = extents_of(&rels);
    shift_tables_in(buf, md, Space::Virtual, &rel_extents, REL_SIZE, R_OFFSET)?;
    let dyn_base: u64 = move_coordinate(md, Space::Physical, md.dynamic_section_offset)?;
    let dy = table_range(total, dyn_base, dynamic_lib_count as u64, DYN_SIZE)?;
    let mut sites: Vec<Site> = Vec::new();
    let mut index: u64 = md.rela_section_index;
    rewrite_rela_tables_in(buf, md, got, apps, dy.0, dy.1, &relas, &mut sites, &mut index)?;
    shift_dynamic_in(buf, md, dy.0, dy.1)?;
    shift_table_in(
        buf,
        md,
        Space::Virtual,
        md.symbol_table_section_offset,
        md.symbol_table_size,
        SYM_SIZE,
        ST_VALUE,
    )?;
    shift_tables_in(buf, md, Space::Physical, got_sections, GOT_ENTRY_SIZE, 0)?;
    Ok((sites, index, dy.0))
}

/// The lists of patch sites with the sites `sites[k..]` appended, each to
/// the list of the symbol of `got` that it names.
pub open spec fn with_sites(
    lists: Map<Seq<char>, Seq<SurgeryEntry>>,
    got: Seq<(String, u64)>,
    sites: Seq<Site>,
    k: int,
) -> Result<Map<Seq<char>, Seq<SurgeryEntry>>, LinkError>
    decreases sites.len() - k,
{
    if k < 0 || k >= sites.len() {
        Ok(lists)
    } else if sites[k].symbol >= got.len() {
        Err(LinkError::UnknownSymbol)
    } else {
        match with_site(lists, got[sites[k].symbol as int].0@, sites[k].entry) {
            Ok(next) => with_sites(next, got, sites, k + 1),
            Err(e) => Err(e),
        }
    }
}

/// Appends the patch sites to the lists of the symbols that they name.
pub fn record_sites(
    surgeries: &mut NameMap<Vec<SurgeryEntry>>,
    got: &Vec<(String, u64)>,
    sites: &Vec<Site>,
) -> (r: Result<(), LinkError>)
    requires
        old(surgeries).wf(),
    ensures
        final(surgeries).wf(),
        final(surgeries).names() == old(surgeries).names(),
        match r {
            Ok(_) => with_sites(old(surgeries).lists(), got@, sites@, 0) == Ok::<
                Map<Seq<char>, Seq<SurgeryEntry>>,
                LinkError,
            >(final(surgeries).lists()),
            Err(e) => with_sites(old(surgeries).lists(), got@, sites@, 0) == Err::<
                Map<Seq<char>, Seq<SurgeryEntry>>,
                LinkError,
            >(e),
        },
{
    let n: usize = sites.len();
    let mut k: usize = 0;
    while k < n
        invariant
            k <= n,
            n == sites@.len(),
            surgeries.wf(),
            surgeries.names() == old(surgeries).names(),
            with_sites(old(surgeries).lists(), got@, sites@, 0) == with_sites(
                surgeries.lists(),
                got@,
                sites@,
                k as int,
            ),
        decreases n - k,
    {
        let site = sites[k];
        if site.symbol >= got.len() {
            return Err(LinkError::UnknownSymbol);
        }
        surgeries.add_site(&got[site.symbol].0, site.entry)?;
        k += 1;
    }
    Ok(())
}

/// What preprocessing produces.
pub struct Generated {
    /// The preprocessed binary.
    pub image: Seq<u8>,
    /// The numbers of the metadata.
    pub md: Geometry,
    /// The patch sites recorded under each name.
    pub surgeries: Map<Seq<char>, Seq<SurgeryEntry>>,
}

/// The preprocessed binary and the metadata for the host executable `exec`.
///
/// `md` holds the numbers of the metadata, of which only the offsets of the
/// dynamic table and of the symbol tables are used, and `lists` the call
/// sites that were found in the code of the executable. `got` lists the application symbols that
/// global-data relocations refer to, with their index in the dynamic symbol
/// table; `apps` the indices of those that jump-slot relocations refer to;
/// `got_sections` the offset and size of every global offset table. The
/// dynamic table has `dynamic_lib_count` entries before its terminator, and
/// entry `shared_lib_index` names the placeholder library.
pub open spec fn generated(
    exec: Seq<u8>,
    md: Geometry,
    lists: Map<Seq<char>, Seq<SurgeryEntry>>,
    got: Seq<(String, u64)>,
    got_sections: Seq<(u64, u64)>,
    apps: Seq<u64>,
    dynamic_lib_count: int,
    shared_lib_index: int,
) -> Result<Generated, LinkError> {
    match framed(exec, md, dynamic_lib_count) {
        Err(e) => Err(e),
        Ok(f) => match rewritten_tables(
            f.image,
            f.md,
            f.header,
            got,
            got_sections,
            apps,
            dynamic_lib_count,
        ) {
            Err(e) => Err(e),
            Ok(rw) => match removed_entry(
                rw.image,
                md.physical_dynamic_table(f.md),
                dynamic_lib_count,
                shared_lib_index,
            ) {
                Err(e) => Err(e),
                Ok(s1) => match rewritten_file_header(s1, f.md, f.header.ph_num) {
                    Err(e) => Err(e),
                    Ok(s2) => match with_sites(lists, got, rw.sites, 0) {
                        Err(e) => Err(e),
                        Ok(added) => Ok(
                            Generated {
                                image: s2,
                                md: Geometry {
                                    rela_section_index: rw.rela_section_index,
                                    dynamic_section_count: (dynamic_lib_count - 1) as u64,
                                    ..f.md
                                },
                                surgeries: added,
                            },
                        ),
                    },
                },
            },
        },
    }
}

impl Geometry {
    /// Where the dynamic table lies in the image whose geometry is `geometry`.
    pub open spec fn physical_dynamic_table(self, geometry: Geometry) -> int {
        geometry.physical_image(self.dynamic_section_offset as int)
    }
}

/// Rewrites the host executable `exec_data` into the preprocessed binary and
/// completes the metadata `md`: its numbers and its call sites. The other
/// tables stay as they are.
#[verifier::rlimit(30)]
pub fn gen_elf_le(
    exec_data: &[u8],
    md: &mut Metadata,
    got_app_syms: &Vec<(String, u64)>,
    got_sections: &Vec<(u64, u64)>,
    app_sym_indices: &Vec<u64>,
    dynamic_lib_count: usize,
    shared_lib_index: usize,
) -> (r: Result<Vec<u8>, LinkError>)
    requires
        old(md).wf(),
    ensures
        match r {
            Ok(out) => final(md).wf() && final(md).surgeries.names() == old(md).surgeries.names()
                && generated(
                exec_data@,
                old(md).geometry(),
                old(md).surgeries.lists(),
                got_app_syms@,
                got_sections@,
                app_sym_indices@,
                dynamic_lib_count as int,
                shared_lib_index as int,
            ) == Ok::<Generated, LinkError>(
                Generated {
                    image: out@,
                    md: final(md).geometry(),
                    surgeries: final(md).surgeries.lists(),
                },
            ) && (Metadata { surgeries: old(md).surgeries, ..*final(md) }).same_tables(*old(md)),
            Err(e) => generated(
                exec_data@,
                old(md).geometry(),
                old(md).surgeries.lists(),
                got_app_syms@,
                got_sections@,
                app_sym_indices@,
                dynamic_lib_count as int,
                shared_lib_index as int,
            ) == Err::<Generated, LinkError>(e),
        },
        r is Ok ==> r->Ok_0@.len() == final(md).exec_len,
{
    let (h, mut out) = frame(exec_data, md, dynamic_lib_count)?;
    let (sites, index, dyn_base) = rewrite_tables(
        &mut out,
        md,
        &h,
        got_app_syms,
        got_sections,
        app_sym_indices,
        dynamic_lib_count,
    )?;
    remove_entry(&mut out, dyn_base, dynamic_lib_count, shared_lib_index)?;
    rewrite_file_header(&mut out, md, h.ph_num)?;
    record_sites(&mut md.surgeries, got_app_syms, &sites)?;
    md.rela_section_index = index;
    md.dynamic_section_count = (dynamic_lib_count - 1) as u64;
    Ok(out)
}

} // verus!
