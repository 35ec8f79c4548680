//! What the dynamic linking information of the host says about its
//! dependency on the placeholder library.

use vstd::prelude::*;
use vstd::slice::slice_subrange;
use vstd::utf8::{decode_utf8, valid_utf8};
use crate::bytes::{read_u64, u64_at};
use crate::elf::{D_TAG, D_VAL, DT_NEEDED, DT_NULL, DYN_SIZE, R_X86_64_GLOB_DAT, R_X86_64_JUMP_SLOT};
use crate::error::LinkError;
use crate::metadata::{Geometry, Metadata};
use crate::names::{same_text, starts_with};
use crate::object_file::{
    find_symbol, RelocationRecord, RelocKind, SectionRecord, Storage, symbol_position, SymbolRecord,
};
use crate::reader::{
    read_stored_range, read_uncompressed_data, section_stored_range, section_uncompressed_data,
    StoredRange,
};

verus! {

/// What the scan of the dynamic linking information yields.
#[derive(Debug, Clone, PartialEq, Eq)]
pub struct ElfDynamicDeps {
    /// Name and index of each application symbol, once for every
    /// global-data relocation that refers to it.
    pub got_app_syms: Vec<(String, u64)>,
    /// File offset and size of each global offset table.
    pub got_sections: Vec<(u64, u64)>,
    /// Index of each application symbol, once for every jump-slot relocation
    /// that refers to it.
    pub app_sym_indices: Vec<u64>,
    /// Number of entries of the dynamic table before its terminator.
    pub dynamic_lib_count: usize,
    /// Index of the entry of the dynamic table that names the placeholder library.
    pub shared_lib_index: usize,
}

/// The last component of the path `path`, as `std::path::Path::file_name`
/// gives it.
pub uninterp spec fn path_file_name(path: Seq<char>) -> Option<Seq<char>>;

/// Calls `std::path::Path::file_name`. Unproved: the result is a function
/// of the path.
#[verifier::external_body]
pub(crate) fn file_name_of(path: &str) -> (r: Option<String>)
    ensures
        match r {
            Some(n) => path_file_name(path@) == Some(n@),
            None => path_file_name(path@).is_none(),
        },
{
    std::path::Path::new(path).file_name().and_then(|n| n.to_str()).map(|n| n.to_string())
}

/// Calls `std::str::from_utf8`. Unproved: the call succeeds exactly on
/// valid UTF-8, and the text it gives is the decoding of the bytes.
#[verifier::external_body]
pub(crate) fn text_of(bytes: &[u8]) -> (r: Option<String>)
    ensures
        match r {
            Some(s) => valid_utf8(bytes@) && s@ == decode_utf8(bytes@),
            None => !valid_utf8(bytes@),
        },
{
    std::str::from_utf8(bytes).ok().map(|s| s.to_string())
}

/// The position in `sections[k..]` of the first section named `name`.
pub open spec fn section_position(sections: Seq<SectionRecord>, name: Seq<char>, k: int) -> Option<usize>
    decreases sections.len() - k,
{
    if k < 0 || k >= sections.len() {
        None
    } else if sections[k].name@ == name {
        Some(k as usize)
    } else {
        section_position(sections, name, k + 1)
    }
}

/// Finds the first section named `name`.
pub fn find_section(sections: &Vec<SectionRecord>, name: &str) -> (r: Option<usize>)
    ensures
        r == section_position(sections@, name@, 0),
        r is Some ==> r->Some_0 < sections@.len(),
{
    let n: usize = sections.len();
    let mut k: usize = 0;
    while k < n
        invariant
            k <= n,
            n == sections@.len(),
            section_position(sections@, name@, 0) == section_position(sections@, name@, k as int),
        decreases n - k,
    {
        if same_text(sections[k].name.as_str(), name) {
            return Some(k);
        }
        k += 1;
    }
    None
}

/// Where the section `index` of the file `data` is stored, which must be
/// as it is, not compressed.
pub open spec fn plain_range(data: Seq<u8>, index: u64) -> Result<StoredRange, LinkError> {
    match section_stored_range(data, index) {
        None => Err(LinkError::InvalidObject),
        Some(range) => if range.storage == Storage::Plain {
            Ok(range)
        } else {
            Err(LinkError::CompressedSection)
        },
    }
}

/// The position of the required section `name` of the file `data`, and
/// where it is stored.
pub open spec fn required_section(data: Seq<u8>, sections: Seq<SectionRecord>, name: Seq<char>) -> Result<
    (usize, StoredRange),
    LinkError,
> {
    match section_position(sections, name, 0) {
        None => Err(LinkError::MissingSection),
        Some(p) => match plain_range(data, sections[p as int].index) {
            Ok(range) => Ok((p, range)),
            Err(e) => Err(e),
        },
    }
}

/// Finds where an uncompressed section is stored.
pub fn plain_range_of(data: &[u8], index: u64) -> (r: Result<StoredRange, LinkError>)
    ensures
        r == plain_range(data@, index),
{
    match read_stored_range(data, index) {
        None => Err(LinkError::InvalidObject),
        Some(range) => match range.storage {
            Storage::Plain => Ok(range),
            _ => Err(LinkError::CompressedSection),
        },
    }
}

/// Finds a required section and where it is stored.
pub fn require_section(data: &[u8], sections: &Vec<SectionRecord>, name: &str) -> (r: Result<
    (usize, StoredRange),
    LinkError,
>)
    ensures
        r == required_section(data@, sections@, name@),
        r is Ok ==> r->Ok_0.0 < sections@.len(),
{
    match find_section(sections, name) {
        None => Err(LinkError::MissingSection),
        Some(p) => {
            let range = plain_range_of(data, sections[p].index)?;
            Ok((p, range))
        },
    }
}

/// The position of the first zero byte of `s[k..]`; the length of `s` when
/// there is none.
pub open spec fn terminator(s: Seq<u8>, k: int) -> int
    decreases s.len() - k,
{
    if k < 0 || k >= s.len() || s[k] == 0 {
        k
    } else {
        terminator(s, k + 1)
    }
}

/// The name that starts at `offset` in the string table `table` and ends
/// before the next zero byte.
pub open spec fn table_name(table: Seq<u8>, offset: u64) -> Result<Seq<char>, LinkError> {
    if offset > table.len() || terminator(table, offset as int) >= table.len() {
        Err(LinkError::OutOfBounds)
    } else if !valid_utf8(table.subrange(offset as int, terminator(table, offset as int))) {
        Err(LinkError::InvalidName)
    } else {
        Ok(decode_utf8(table.subrange(offset as int, terminator(table, offset as int))))
    }
}

/// Reads a name from a string table.
pub fn table_name_of(table: &[u8], offset: u64) -> (r: Result<String, LinkError>)
    ensures
        match r {
            Ok(name) => table_name(table@, offset) == Ok::<Seq<char>, LinkError>(name@),
            Err(e) => table_name(table@, offset) == Err::<Seq<char>, LinkError>(e),
        },
{
    let n: usize = table.len();
    if offset > n as u64 {
        return Err(LinkError::OutOfBounds);
    }
    let start: usize = offset as usize;
    let mut end: usize = start;
    while end < n && table[end] != 0
        invariant
            start <= end <= n,
            n == table@.len(),
            terminator(table@, start as int) == terminator(table@, end as int),
        decreases n - end,
    {
        end += 1;
    }
    if end >= n {
        return Err(LinkError::OutOfBounds);
    }
    match text_of(slice_subrange(table, start, end)) {
        Some(name) => Ok(name),
        None => Err(LinkError::InvalidName),
    }
}

/// The number of entries of the dynamic table that starts at `pos` in
/// `exec`, counted from `index` up to its terminator, and the index of the
/// last entry that names a needed library whose file name is `wanted`;
/// `found` when there is none.
pub open spec fn scan_dynamic(
    exec: Seq<u8>,
    pos: int,
    dynstr: Seq<u8>,
    wanted: Option<Seq<char>>,
    index: usize,
    found: Option<usize>,
) -> Result<(usize, Option<usize>), LinkError>
    decreases exec.len() - pos,
{
    if pos < 0 || pos + DYN_SIZE > exec.len() || index == usize::MAX {
        Err(LinkError::OutOfBounds)
    } else if u64_at(exec, pos + D_TAG) == DT_NULL {
        Ok((index, found))
    } else if u64_at(exec, pos + D_TAG) == DT_NEEDED {
        match table_name(dynstr, u64_at(exec, pos + D_VAL)) {
            Err(e) => Err(e),
            Ok(name) => scan_dynamic(
                exec,
                pos + DYN_SIZE,
                dynstr,
                wanted,
                (index + 1) as usize,
                if path_file_name(name) == wanted {
                    Some(index)
                } else {
                    found
                },
            ),
        }
    } else {
        scan_dynamic(exec, pos + DYN_SIZE, dynstr, wanted, (index + 1) as usize, found)
    }
}

/// The characters of an optional name.
pub open spec fn optional_text(name: Option<String>) -> Option<Seq<char>> {
    match name {
        Some(n) => Some(n@),
        None => None,
    }
}

/// True when two optional names are the same.
pub fn same_name(a: &Option<String>, b: &Option<String>) -> (r: bool)
    ensures
        r == (optional_text(*a) == optional_text(*b)),
{
    match (a, b) {
        (Some(x), Some(y)) => *x == *y,
        (None, None) => true,
        _ => false,
    }
}

/// Walks the dynamic table at `offset` and looks for the library whose
/// file name is `wanted`.
pub fn scan_dynamic_table(exec_data: &[u8], offset: u64, dynstr: &[u8], wanted: &Option<String>) -> (r:
    Result<(usize, Option<usize>), LinkError>)
    ensures
        r == scan_dynamic(
            exec_data@,
            offset as int,
            dynstr@,
            optional_text(*wanted),
            0,
            None,
        ),
{
    let n: usize = exec_data.len();
    if offset > n as u64 {
        return Err(LinkError::OutOfBounds);
    }
    let ghost goal = optional_text(*wanted);
    let mut pos: usize = offset as usize;
    let mut index: usize = 0;
    let mut found: Option<usize> = None;
    loop
        invariant
            pos <= n,
            n == exec_data@.len(),
            goal == optional_text(*wanted),
            scan_dynamic(exec_data@, offset as int, dynstr@, goal, 0, None) == scan_dynamic(
                exec_data@,
                pos as int,
                dynstr@,
                goal,
                index,
                found,
            ),
        decreases n - pos,
    {
        if n - pos < DYN_SIZE || index == usize::MAX {
            return Err(LinkError::OutOfBounds);
        }
        let tag: u64 = read_u64(exec_data, pos + D_TAG);
        if tag == DT_NULL as u64 {
            return Ok((index, found));
        }
        if tag == DT_NEEDED as u64 {
            let name = table_name_of(dynstr, read_u64(exec_data, pos + D_VAL))?;
            let file_name = file_name_of(name.as_str());
            if same_name(&file_name, wanted) {
                found = Some(index);
            }
        }
        pos = pos + DYN_SIZE;
        index = index + 1;
    }
}

/// `acc` followed by the file offset and size of every global offset table
/// among `sections[k..]`: the sections whose name begins with `.got`, none
/// of which may be compressed.
pub open spec fn got_tables(data: Seq<u8>, sections: Seq<SectionRecord>, k: int, acc: Seq<(u64, u64)>) -> Result<
    Seq<(u64, u64)>,
    LinkError,
>
    decreases sections.len() - k,
{
    if k < 0 || k >= sections.len() {
        Ok(acc)
    } else if !".got"@.is_prefix_of(sections[k].name@) {
        got_tables(data, sections, k + 1, acc)
    } else {
        match plain_range(data, sections[k].index) {
            Err(e) => Err(e),
            Ok(range) => got_tables(
                data,
                sections,
                k + 1,
                acc.push((range.offset, range.uncompressed_size)),
            ),
        }
    }
}

/// Lists the global offset tables.
pub fn collect_got_tables(data: &[u8], sections: &Vec<SectionRecord>) -> (r: Result<
    Vec<(u64, u64)>,
    LinkError,
>)
    ensures
        match r {
            Ok(v) => got_tables(data@, sections@, 0, Seq::empty()) == Ok::<
                Seq<(u64, u64)>,
                LinkError,
            >(v@),
            Err(e) => got_tables(data@, sections@, 0, Seq::empty()) == Err::<
                Seq<(u64, u64)>,
                LinkError,
            >(e),
        },
{
    let mut out: Vec<(u64, u64)> = Vec::new();
    let n: usize = sections.len();
    let mut k: usize = 0;
    while k < n
        invariant
            k <= n,
            n == sections@.len(),
            got_tables(data@, sections@, 0, Seq::empty()) == got_tables(
                data@,
                sections@,
                k as int,
                out@,
            ),
        decreases n - k,
    {
        if starts_with(sections[k].name.as_str(), ".got") {
            let range = plain_range_of(data, sections[k].index)?;
            out.push((range.offset, range.uncompressed_size));
        }
        k += 1;
    }
    Ok(out)
}

/// The application symbol that the relocation `rel` binds, when the
/// relocation has the ELF type `kind`: the position in `app_syms` of the
/// first symbol with the index that the relocation refers to.
pub open spec fn bound_symbol(rel: RelocationRecord, kind: u32, app_syms: Seq<SymbolRecord>) -> Option<usize> {
    if rel.kind != RelocKind::Elf(kind) {
        None
    } else {
        match rel.symbol {
            None => None,
            Some(index) => symbol_position(app_syms, index, 0),
        }
    }
}

/// `acc` followed by name and index of the application symbol bound by
/// each of the relocations `relocs[k..]` of the ELF type `kind`.
pub open spec fn bound_symbols(
    relocs: Seq<RelocationRecord>,
    kind: u32,
    app_syms: Seq<SymbolRecord>,
    k: int,
    acc: Seq<(String, u64)>,
) -> Result<Seq<(String, u64)>, LinkError>
    decreases relocs.len() - k,
{
    if k < 0 || k >= relocs.len() {
        Ok(acc)
    } else {
        match bound_symbol(relocs[k], kind, app_syms) {
            None => bound_symbols(relocs, kind, app_syms, k + 1, acc),
            Some(p) => match app_syms[p as int].name {
                None => Err(LinkError::InvalidName),
                Some(name) => bound_symbols(
                    relocs,
                    kind,
                    app_syms,
                    k + 1,
                    acc.push((name, app_syms[p as int].index)),
                ),
            },
        }
    }
}

/// The second component of each pair.
pub open spec fn indices(pairs: Seq<(String, u64)>) -> Seq<u64> {
    Seq::new(pairs.len(), |i: int| pairs[i].1)
}

/// Finds the application symbol that a relocation binds.
pub fn bound_symbol_of(rel: &RelocationRecord, kind: u32, app_syms: &Vec<SymbolRecord>) -> (r: Option<usize>)
    ensures
        r == bound_symbol(*rel, kind, app_syms@),
        r is Some ==> r->Some_0 < app_syms@.len(),
{
    match rel.kind {
        RelocKind::Elf(k) => {
            if k != kind {
                return None;
            }
        },
        _ => {
            return None;
        },
    }
    match rel.symbol {
        None => None,
        Some(index) => find_symbol(app_syms, index),
    }
}

/// Lists the application symbols bound by the relocations of the ELF type `kind`.
pub fn collect_bound_symbols(relocs: &Vec<RelocationRecord>, kind: u32, app_syms: &Vec<SymbolRecord>) -> (r:
    Result<Vec<(String, u64)>, LinkError>)
    ensures
        match r {
            Ok(v) => bound_symbols(relocs@, kind, app_syms@, 0, Seq::empty()) == Ok::<
                Seq<(String, u64)>,
                LinkError,
            >(v@),
            Err(e) => bound_symbols(relocs@, kind, app_syms@, 0, Seq::empty()) == Err::<
                Seq<(String, u64)>,
                LinkError,
            >(e),
        },
{
    let mut out: Vec<(String, u64)> = Vec::new();
    let n: usize = relocs.len();
    let mut k: usize = 0;
    while k < n
        invariant
            k <= n,
            n == relocs@.len(),
            bound_symbols(relocs@, kind, app_syms@, 0, Seq::empty()) == bound_symbols(
                relocs@,
                kind,
                app_syms@,
                k as int,
                out@,
            ),
        decreases n - k,
    {
        match bound_symbol_of(&relocs[k], kind, app_syms) {
            None => {},
            Some(p) => match &app_syms[p].name {
                None => {
                    return Err(LinkError::InvalidName);
                },
                Some(name) => {
                    out.push((name.clone(), app_syms[p].index));
                },
            },
        }
        k += 1;
    }
    Ok(out)
}

/// The second component of each pair.
pub fn indices_of(pairs: &Vec<(String, u64)>) -> (r: Vec<u64>)
    ensures
        r@ == indices(pairs@),
{
    let n: usize = pairs.len();
    let mut out: Vec<u64> = Vec::new();
    let mut i: usize = 0;
    while i < n
        invariant
            i <= n,
            n == pairs@.len(),
            out@ == indices(pairs@.subrange(0, i as int)),
        decreases n - i,
    {
        out.push(pairs[i].1);
        i += 1;
        proof {
            assert(out@ =~= indices(pairs@.subrange(0, i as int)));
        }
    }
    proof {
        assert(pairs@.subrange(0, n as int) =~= pairs@);
    }
    out
}

/// The relocations of an optional list.
pub open spec fn optional_list(relocs: Option<&Vec<RelocationRecord>>) -> Option<Seq<RelocationRecord>> {
    match relocs {
        Some(list) => Some(list@),
        None => None,
    }
}

/// What the scan yields, as mathematical values.
pub struct Deps {
    pub got_app_syms: Seq<(String, u64)>,
    pub got_sections: Seq<(u64, u64)>,
    pub app_sym_indices: Seq<u64>,
    pub dynamic_lib_count: usize,
    pub shared_lib_index: usize,
    /// The metadata with the offsets of the dynamic table and of the two
    /// symbol tables, and the size of the static one, filled in.
    pub md: Geometry,
}

impl ElfDynamicDeps {
    /// What was found, together with the metadata that the scan filled in.
    pub open spec fn with_metadata(self, md: Geometry) -> Deps {
        Deps {
            got_app_syms: self.got_app_syms@,
            got_sections: self.got_sections@,
            app_sym_indices: self.app_sym_indices@,
            dynamic_lib_count: self.dynamic_lib_count,
            shared_lib_index: self.shared_lib_index,
            md,
        }
    }
}

/// What the dynamic linking information of the host `exec` says.
///
/// `sections` are the sections of the host and `relocs` its dynamic
/// relocations, if it has any; `app_syms` are the symbols that the host
/// expects from the application, and `shared_lib` is the path of the
/// placeholder library. The dynamic table, the dynamic string table and the
/// two symbol tables must exist and be uncompressed, the placeholder library
/// must be named as a needed library, and there must be dynamic relocations.
pub open spec fn scanned_deps(
    exec: Seq<u8>,
    sections: Seq<SectionRecord>,
    relocs: Option<Seq<RelocationRecord>>,
    md: Geometry,
    app_syms: Seq<SymbolRecord>,
    shared_lib: Seq<char>,
) -> Result<Deps, LinkError> {
    match required_section(exec, sections, ".dynamic"@) {
        Err(e) => Err(e),
        Ok(dynamic) => match required_section(exec, sections, ".dynstr"@) {
            Err(e) => Err(e),
            Ok(strings) => match section_uncompressed_data(exec, sections[strings.0 as int].index) {
                None => Err(LinkError::InvalidObject),
                Some(dynstr) => match scan_dynamic(
                    exec,
                    dynamic.1.offset as int,
                    dynstr,
                    path_file_name(shared_lib),
                    0,
                    None,
                ) {
                    Err(e) => Err(e),
                    Ok(table) => match table.1 {
                        None => Err(LinkError::SharedLibNotFound),
                        Some(shared_lib_index) => match required_section(exec, sections, ".symtab"@) {
                            Err(e) => Err(e),
                            Ok(symtab) => match required_section(exec, sections, ".dynsym"@) {
                                Err(e) => Err(e),
                                Ok(dynsym) => match got_tables(exec, sections, 0, Seq::empty()) {
                                    Err(e) => Err(e),
                                    Ok(got_sections) => match relocs {
                                        None => Err(LinkError::NoDynamicRelocations),
                                        Some(list) => match bound_symbols(
                                            list,
                                            R_X86_64_GLOB_DAT,
                                            app_syms,
                                            0,
                                            Seq::empty(),
                                        ) {
                                            Err(e) => Err(e),
                                            Ok(got_app_syms) => match bound_symbols(
                                                list,
                                                R_X86_64_JUMP_SLOT,
                                                app_syms,
                                                0,
                                                Seq::empty(),
                                            ) {
                                                Err(e) => Err(e),
                                                Ok(slots) => Ok(
                                                    Deps {
                                                        got_app_syms,
                                                        got_sections,
                                                        app_sym_indices: indices(slots),
                                                        dynamic_lib_count: table.0,
                                                        shared_lib_index,
                                                        md: Geometry {
                                                            dynamic_section_offset: dynamic.1.offset,
                                                            symbol_table_section_offset: symtab.1.offset,
                                                            symbol_table_size: sections[symtab.0 as int].size,
                                                            dynamic_symbol_table_section_offset: dynsym.1.offset,
                                                            ..md
                                                        },
                                                    },
                                                ),
                                            },
                                        },
                                    },
                                },
                            },
                        },
                    },
                },
            },
        },
    }
}

/// Scans the dynamic linking information of the host `exec_data` and
/// records the offsets of its tables in `md`.
pub fn scan_elf_dynamic_deps(
    sections: &Vec<SectionRecord>,
    relocs: Option<&Vec<RelocationRecord>>,
    md: &mut Metadata,
    app_syms: &Vec<SymbolRecord>,
    shared_lib: &str,
    exec_data: &[u8],
) -> (r: Result<ElfDynamicDeps, LinkError>)
    ensures
        match r {
            Ok(deps) => scanned_deps(
                exec_data@,
                sections@,
                optional_list(relocs),
                old(md).geometry(),
                app_syms@,
                shared_lib@,
            ) == Ok::<Deps, LinkError>(deps.with_metadata(final(md).geometry())),
            Err(e) => scanned_deps(
                exec_data@,
                sections@,
                optional_list(relocs),
                old(md).geometry(),
                app_syms@,
                shared_lib@,
            ) == Err::<Deps, LinkError>(e),
        },
        r is Ok ==> final(md).same_tables(*old(md)),
{
    let dynamic = require_section(exec_data, sections, ".dynamic")?;
    let strings = require_section(exec_data, sections, ".dynstr")?;
    let dynstr: Vec<u8> = match read_uncompressed_data(exec_data, sections[strings.0].index) {
        Some(d) => d,
        None => {
            return Err(LinkError::InvalidObject);
        },
    };
    let wanted = file_name_of(shared_lib);
    let table = scan_dynamic_table(exec_data, dynamic.1.offset, dynstr.as_slice(), &wanted)?;
    let shared_lib_index: usize = match table.1 {
        Some(i) => i,
        None => {
            return Err(LinkError::SharedLibNotFound);
        },
    };
    let symtab = require_section(exec_data, sections, ".symtab")?;
    let dynsym = require_section(exec_data, sections, ".dynsym")?;
    let got_sections = collect_got_tables(exec_data, sections)?;
    let list: &Vec<RelocationRecord> = match relocs {
        Some(l) => l,
        None => {
            return Err(LinkError::NoDynamicRelocations);
        },
    };
    let got_app_syms = collect_bound_symbols(list, R_X86_64_GLOB_DAT, app_syms)?;
    let slots = collect_bound_symbols(list, R_X86_64_JUMP_SLOT, app_syms)?;
    let app_sym_indices = indices_of(&slots);
    md.dynamic_section_offset = dynamic.1.offset;
    md.symbol_table_section_offset = symtab.1.offset;
    md.symbol_table_size = sections[symtab.0].size;
    md.dynamic_symbol_table_section_offset = dynsym.1.offset;
    Ok(
        ElfDynamicDeps {
            got_app_syms,
            got_sections,
            app_sym_indices,
            dynamic_lib_count: table.0,
            shared_lib_index,
        },
    )
}

} // verus!
