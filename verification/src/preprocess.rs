//! Preprocessing of a host executable.
//!
//! The host is analyzed once: which symbols it defines for the application
//! and which it expects from it, where the stubs of the expected functions
//! lie, and which instructions call them. Then the executable is rewritten so
//! that an application can be merged into it cheaply, and everything that
//! merging needs is written down in the metadata.

pub mod collect;
pub mod disasm;
pub mod dynamic;
pub mod generate;
pub mod plan;
pub mod relocations;
pub mod scan;
pub mod sections;
pub mod segments;

use vstd::prelude::*;
use crate::error::LinkError;
use crate::metadata::{Geometry, Metadata, SurgeryEntry};
use crate::object_file::{RelocationRecord, SectionRecord, SymbolRecord};
use crate::preprocess::collect::{has_stub, lemma_selected_are_undefined, lemma_stub_places, stub_owner, 
    collect_indices, collect_names, discover_plt, discover_stubs, select_undefined, Stubs,
    symbol_indices, symbol_names, undefined_symbols,
};
use crate::preprocess::disasm::{empty_lists, has_code, Scan, scan_sections, stub_names, Surgeries};
use crate::preprocess::generate::{gen_elf_le, Generated, generated};
use crate::preprocess::scan::{bound_symbol, 
    require_section, required_section, scan_elf_dynamic_deps, scanned_deps,
};
use crate::reader::{
    parsed_dynamic_relocations, parsed_dynamic_symbols, parsed_sections, parsed_symbols,
    read_dynamic_relocations, read_dynamic_symbols, read_sections, read_symbols,
};
use crate::elf::R_X86_64_JUMP_SLOT;
use crate::object_file::{lemma_symbol_position_in_range, symbol_name};
use crate::symbols::{collect_roc_definitions, definitions, roc_undefined};

verus! {

/// The byte order of the host.
#[derive(Debug, Clone, Copy, PartialEq, Eq, Structural)]
pub enum Endianness {
    Little,
    Big,
}

/// What the analysis of a host finds, as mathematical values.
pub struct HostFacts {
    /// The sections of the host.
    pub sections: Seq<SectionRecord>,
    /// The dynamic relocations of the host.
    pub relocs: Seq<RelocationRecord>,
    /// The symbols that the host expects from the application.
    pub app_syms: Seq<SymbolRecord>,
    /// Name to address of the symbols that the host defines for the application.
    pub roc_symbol_vaddresses: Map<Seq<char>, u64>,
    /// Name to file offset and address of the stub of each expected function.
    pub plt_addresses: Map<Seq<char>, (u64, u64)>,
    /// The names of the expected functions.
    pub app_functions: Seq<String>,
    /// Name to index in the dynamic symbol table.
    pub dynamic_symbol_indices: Map<Seq<char>, u64>,
    /// Name to index in the static symbol table.
    pub static_symbol_indices: Map<Seq<char>, u64>,
    /// Name to the call sites found in the code.
    pub surgeries: Map<Seq<char>, Seq<SurgeryEntry>>,
    /// An indirect call or jump was seen in verbose mode.
    pub indirect_warning: bool,
}

/// What the analysis of the host `exec` finds.
///
/// The host must be an object file with a procedure linkage table, dynamic
/// relocations and code. Its definitions, the stubs of the functions it
/// expects and the indices of their symbols are collected, and its code is
/// scanned for calls of the stubs.
pub open spec fn host_facts(exec: Seq<u8>, verbose: bool) -> Result<HostFacts, LinkError> {
    match (parsed_sections(exec), parsed_symbols(exec)) {
        (Some(sections), Some(symbols)) => match required_section(exec, sections, ".plt"@) {
            Err(e) => Err(e),
            Ok(plt) => match parsed_dynamic_symbols(exec) {
                None => Err(LinkError::InvalidObject),
                Some(dynamic) => match parsed_dynamic_relocations(exec) {
                    None => Err(LinkError::NoDynamicRelocations),
                    Some(relocs) => {
                        let app_syms = undefined_symbols(dynamic, 0, Seq::empty());
                        match discover_stubs(
                            Stubs { names: Map::empty(), places: Map::empty(), seen: 0 },
                            relocs,
                            0,
                            app_syms,
                            sections[plt.0 as int].address,
                            plt.1.offset,
                        ) {
                            Err(e) => Err(e),
                            Ok(stubs) => match (
                                symbol_names(app_syms, 0, Seq::empty()),
                                symbol_indices(app_syms, 0, Map::empty()),
                            ) {
                                (Ok(names), Ok(dynamic_indices)) => match symbol_indices(
                                    undefined_symbols(symbols, 0, Seq::empty()),
                                    0,
                                    Map::empty(),
                                ) {
                                    Err(e) => Err(e),
                                    Ok(static_indices) => match code_scan(
                                        exec,
                                        sections,
                                        app_syms,
                                        stubs.names,
                                        verbose,
                                    ) {
                                        Err(e) => Err(e),
                                        Ok(scan) => Ok(
                                            HostFacts {
                                                sections,
                                                relocs,
                                                app_syms,
                                                roc_symbol_vaddresses: definitions(
                                                    symbols,
                                                    0,
                                                    Map::empty(),
                                                ),
                                                plt_addresses: stubs.places,
                                                app_functions: names,
                                                dynamic_symbol_indices: dynamic_indices,
                                                static_symbol_indices: static_indices,
                                                surgeries: scan.lists,
                                                indirect_warning: scan.warned,
                                            },
                                        ),
                                    },
                                },
                                _ => Err(LinkError::InvalidName),
                            },
                        }
                    },
                },
            },
        },
        _ => Err(LinkError::InvalidObject),
    }
}

/// The call sites found in the code of the host.
pub open spec fn code_scan(
    exec: Seq<u8>,
    sections: Seq<SectionRecord>,
    app_syms: Seq<SymbolRecord>,
    stubs: Map<u64, Seq<char>>,
    verbose: bool,
) -> Result<Scan, LinkError> {
    if has_code(sections, 0) {
        scan_sections(
            Scan { lists: empty_lists(Map::empty(), app_syms, 0), warned: false },
            stubs,
            exec,
            sections,
            0,
            verbose,
        )
    } else {
        Err(LinkError::NoTextSections)
    }
}

/// What the analysis of a host finds.
pub struct Host {
    /// The metadata, with its tables filled in and its geometry still zero.
    pub md: Metadata,
    pub sections: Vec<SectionRecord>,
    pub relocs: Vec<RelocationRecord>,
    pub app_syms: Vec<SymbolRecord>,
    /// An indirect call or jump was seen in verbose mode.
    pub indirect_warning_given: bool,
}

impl Metadata {
    /// True when the tables of the metadata hold what the analysis found
    /// and the geometry is still zero.
    pub open spec fn holds(self, facts: HostFacts) -> bool {
        &&& self.wf()
        &&& self.app_functions@ == facts.app_functions
        &&& self.plt_addresses@ == facts.plt_addresses
        &&& self.surgeries.lists() == facts.surgeries
        &&& self.dynamic_symbol_indices@ == facts.dynamic_symbol_indices
        &&& self.static_symbol_indices@ == facts.static_symbol_indices
        &&& self.roc_symbol_vaddresses@ == facts.roc_symbol_vaddresses
        &&& self.exec_len == 0
        &&& self.load_align_constraint == 0
        &&& self.last_vaddr == 0
        &&& self.dynamic_section_offset == 0
        &&& self.dynamic_section_count == 0
        &&& self.dynamic_symbol_table_section_offset == 0
        &&& self.symbol_table_section_offset == 0
        &&& self.symbol_table_size == 0
        &&& self.original_rela_paddr == 0
        &&& self.original_rela_vaddr == 0
        &&& self.new_rela_paddr == 0
        &&& self.new_rela_vaddr == 0
        &&& self.rela_size == 0
        &&& self.rela_section_index == 0
        &&& self.ph_physical_shift_start == 0
        &&& self.ph_virtual_shift_start == 0
        &&& self.ph_shift_bytes == 0
    }
}

impl Host {
    /// True when the host holds what the analysis found.
    pub open spec fn holds(self, facts: HostFacts) -> bool {
        &&& self.md.holds(facts)
        &&& self.sections@ == facts.sections
        &&& self.relocs@ == facts.relocs
        &&& self.app_syms@ == facts.app_syms
        &&& self.indirect_warning_given == facts.indirect_warning
    }
}

/// Analyzes the host executable `exec_data`.
pub fn collect_host(exec_data: &[u8], verbose: bool) -> (r: Result<Host, LinkError>)
    ensures
        match r {
            Ok(host) => host_facts(exec_data@, verbose) is Ok && host.holds(
                host_facts(exec_data@, verbose)->Ok_0,
            ),
            Err(e) => host_facts(exec_data@, verbose) == Err::<HostFacts, LinkError>(e),
        },
{
    let sections = match read_sections(exec_data) {
        Some(s) => s,
        None => {
            return Err(LinkError::InvalidObject);
        },
    };
    let symbols = match read_symbols(exec_data) {
        Some(s) => s,
        None => {
            return Err(LinkError::InvalidObject);
        },
    };
    let mut md = Metadata::new();
    md.roc_symbol_vaddresses = collect_roc_definitions(&symbols);
    let plt = require_section(exec_data, &sections, ".plt")?;
    let dynamic = match read_dynamic_symbols(exec_data) {
        Some(s) => s,
        None => {
            return Err(LinkError::InvalidObject);
        },
    };
    let relocs = match read_dynamic_relocations(exec_data) {
        Some(r) => r,
        None => {
            return Err(LinkError::NoDynamicRelocations);
        },
    };
    let app_syms = select_undefined(&dynamic);
    let (addresses, places, _) = discover_plt(&relocs, &app_syms, sections[plt.0].address, plt.1.offset)?;
    md.plt_addresses = places;
    let names = collect_names(&app_syms);
    let dynamic_indices = collect_indices(&app_syms);
    match (names, dynamic_indices) {
        (Ok(n), Ok(d)) => {
            md.app_functions = n;
            md.dynamic_symbol_indices = d;
        },
        _ => {
            return Err(LinkError::InvalidName);
        },
    }
    let static_syms = select_undefined(&symbols);
    md.static_symbol_indices = collect_indices(&static_syms)?;
    let mut surgeries = Surgeries::new(&app_syms, addresses);
    surgeries.append_text_sections(exec_data, &sections, verbose)?;
    md.surgeries = surgeries.surgeries;
    Ok(Host { md, sections, relocs, app_syms, indirect_warning_given: surgeries.indirect_warning_given })
}

/// The preprocessed binary, the numbers of the metadata and the call sites
/// for the host `exec` with the sections `sections`, the dynamic relocations
/// `relocs` and the expected symbols `app_syms`, starting from the numbers
/// `md` and the call sites `lists`. `shared_lib` is the path of the
/// placeholder library. Only little-endian hosts are implemented.
pub open spec fn rewritten_from(
    exec: Seq<u8>,
    md: Geometry,
    lists: Map<Seq<char>, Seq<SurgeryEntry>>,
    sections: Seq<SectionRecord>,
    relocs: Seq<RelocationRecord>,
    app_syms: Seq<SymbolRecord>,
    shared_lib: Seq<char>,
    endianness: Endianness,
) -> Result<Generated, LinkError> {
    if endianness != Endianness::Little {
        Err(LinkError::BigEndianUnsupported)
    } else {
        match scanned_deps(exec, sections, Some(relocs), md, app_syms, shared_lib) {
            Err(e) => Err(e),
            Ok(deps) => generated(
                exec,
                deps.md,
                lists,
                deps.got_app_syms,
                deps.got_sections,
                deps.app_sym_indices,
                deps.dynamic_lib_count as int,
                deps.shared_lib_index as int,
            ),
        }
    }
}

/// The preprocessed binary, the numbers of the metadata and the call sites
/// for the host `exec` whose analysis found `facts`: the rewrite starts with
/// all numbers zero and with the call sites that were found in the code.
pub open spec fn rewritten(
    exec: Seq<u8>,
    facts: HostFacts,
    shared_lib: Seq<char>,
    endianness: Endianness,
) -> Result<Generated, LinkError> {
    rewritten_from(
        exec,
        Geometry::zero(),
        facts.surgeries,
        facts.sections,
        facts.relocs,
        facts.app_syms,
        shared_lib,
        endianness,
    )
}

/// What preprocessing hands out.
pub struct Preprocessed {
    /// Everything that merging needs to know about the preprocessed binary.
    pub md: Metadata,
    /// The preprocessed binary.
    pub binary: Vec<u8>,
    /// An indirect call or jump was seen in verbose mode: it cannot be
    /// analyzed, which is most likely no problem but may cost speed.
    pub indirect_warning_given: bool,
}

impl Preprocessed {
    /// True when the binary, the numbers of the metadata and its call sites
    /// are what `expected` gives.
    pub open spec fn is_result(self, expected: Result<Generated, LinkError>) -> bool {
        &&& self.md.wf()
        &&& self.binary@.len() == self.md.exec_len
        &&& expected == Ok::<Generated, LinkError>(
            Generated {
                image: self.binary@,
                md: self.md.geometry(),
                surgeries: self.md.surgeries.lists(),
            },
        )
    }

    /// True when the tables of the metadata, apart from the call sites,
    /// hold what the analysis found.
    pub open spec fn tables_hold(self, facts: HostFacts) -> bool {
        &&& self.md.app_functions@ == facts.app_functions
        &&& self.md.plt_addresses@ == facts.plt_addresses
        &&& self.md.dynamic_symbol_indices@ == facts.dynamic_symbol_indices
        &&& self.md.static_symbol_indices@ == facts.static_symbol_indices
        &&& self.md.roc_symbol_vaddresses@ == facts.roc_symbol_vaddresses
        &&& self.indirect_warning_given == facts.indirect_warning
    }
}

/// Rewrites the analyzed host `exec_data`. The tables of the metadata other
/// than the call sites stay as the analysis left them.
pub fn preprocess_host(exec_data: &[u8], host: Host, shared_lib: &str, endianness: Endianness) -> (r:
    Result<Preprocessed, LinkError>)
    requires
        host.md.wf(),
    ensures
        match r {
            Ok(p) => p.is_result(
                rewritten_from(
                    exec_data@,
                    host.md.geometry(),
                    host.md.surgeries.lists(),
                    host.sections@,
                    host.relocs@,
                    host.app_syms@,
                    shared_lib@,
                    endianness,
                ),
            ) && (Metadata { surgeries: host.md.surgeries, ..p.md }).same_tables(host.md)
                && p.md.surgeries.names() == host.md.surgeries.names() && p.indirect_warning_given
                == host.indirect_warning_given,
            Err(e) => rewritten_from(
                exec_data@,
                host.md.geometry(),
                host.md.surgeries.lists(),
                host.sections@,
                host.relocs@,
                host.app_syms@,
                shared_lib@,
                endianness,
            ) == Err::<Generated, LinkError>(e),
        },
{
    let mut md = host.md;
    match endianness {
        Endianness::Little => {},
        Endianness::Big => {
            return Err(LinkError::BigEndianUnsupported);
        },
    }
    let deps = scan_elf_dynamic_deps(
        &host.sections,
        Some(&host.relocs),
        &mut md,
        &host.app_syms,
        shared_lib,
        exec_data,
    )?;
    let binary = gen_elf_le(
        exec_data,
        &mut md,
        &deps.got_app_syms,
        &deps.got_sections,
        &deps.app_sym_indices,
        deps.dynamic_lib_count,
        deps.shared_lib_index,
    )?;
    Ok(Preprocessed { md, binary, indirect_warning_given: host.indirect_warning_given })
}

/// Preprocesses the host executable `exec_data`, which was linked against
/// the placeholder library at the path `shared_lib`.
///
/// The binary, the numbers of the metadata and its call sites are what
/// `rewritten` gives for the facts that `host_facts` finds; the other tables
/// of the metadata hold those facts.
pub fn preprocess_elf(endianness: Endianness, exec_data: &[u8], shared_lib: &str, verbose: bool) -> (r:
    Result<Preprocessed, LinkError>)
    ensures
        match r {
            Ok(p) => host_facts(exec_data@, verbose) is Ok && p.is_result(
                rewritten(
                    exec_data@,
                    host_facts(exec_data@, verbose)->Ok_0,
                    shared_lib@,
                    endianness,
                ),
            ) && p.tables_hold(host_facts(exec_data@, verbose)->Ok_0),
            Err(e) => host_facts(exec_data@, verbose) == Err::<HostFacts, LinkError>(e) || (
            host_facts(exec_data@, verbose) is Ok && rewritten(
                exec_data@,
                host_facts(exec_data@, verbose)->Ok_0,
                shared_lib@,
                endianness,
            ) == Err::<Generated, LinkError>(e)),
        },
{
    let host = collect_host(exec_data, verbose)?;
    proof {
        assert(host.md.geometry() == Geometry::zero());
    }
    preprocess_host(exec_data, host, shared_lib, endianness)
}

/// Preprocessing the same host twice gives the same binary, the same numbers
/// and the same call sites: the same names, and under each name the same
/// sites in the same order, the sites of the global-data relocations
/// included; and all other tables hold the same.
pub proof fn lemma_preprocessing_repeatable(
    exec: Seq<u8>,
    shared_lib: Seq<char>,
    endianness: Endianness,
    verbose: bool,
    first: Preprocessed,
    second: Preprocessed,
)
    requires
        host_facts(exec, verbose) is Ok,
        first.is_result(rewritten(exec, host_facts(exec, verbose)->Ok_0, shared_lib, endianness)),
        second.is_result(rewritten(exec, host_facts(exec, verbose)->Ok_0, shared_lib, endianness)),
        first.tables_hold(host_facts(exec, verbose)->Ok_0),
        second.tables_hold(host_facts(exec, verbose)->Ok_0),
    ensures
        first.md.surgeries.lists() == second.md.surgeries.lists(),
        first.binary@ == second.binary@,
        first.md.geometry() == second.md.geometry(),
        first.md.app_functions@ == second.md.app_functions@,
        first.md.plt_addresses@ == second.md.plt_addresses@,
        first.md.dynamic_symbol_indices@ == second.md.dynamic_symbol_indices@,
        first.md.static_symbol_indices@ == second.md.static_symbol_indices@,
        first.md.roc_symbol_vaddresses@ == second.md.roc_symbol_vaddresses@,
{
}

/// Analyzing the same host twice finds the same call sites, the same
/// stubs and the same symbols: whatever two analyses of one host hand out
/// agrees in all tables.
pub proof fn lemma_discovery_repeatable(exec: Seq<u8>, verbose: bool, first: Host, second: Host)
    requires
        host_facts(exec, verbose) is Ok,
        first.holds(host_facts(exec, verbose)->Ok_0),
        second.holds(host_facts(exec, verbose)->Ok_0),
    ensures
        first.md.surgeries.lists() == second.md.surgeries.lists(),
        first.md.plt_addresses@ == second.md.plt_addresses@,
        first.md.app_functions@ == second.md.app_functions@,
        first.md.dynamic_symbol_indices@ == second.md.dynamic_symbol_indices@,
        first.md.static_symbol_indices@ == second.md.static_symbol_indices@,
        first.md.roc_symbol_vaddresses@ == second.md.roc_symbol_vaddresses@,
{
}

/// The stubs in the metadata are exactly those of the functions that the
/// host calls through the procedure linkage table.
///
/// A name is a key of `plt_addresses` if and only if a jump-slot relocation
/// of the host refers to a symbol of that name that the host expects from
/// the application. So no symbol that the host defines, no symbol that only
/// a global-data relocation refers to, and no other name is a key.
pub proof fn lemma_plt_keys(exec: Seq<u8>, verbose: bool, name: Seq<char>)
    requires
        host_facts(exec, verbose) is Ok,
        parsed_dynamic_symbols(exec)->Some_0.len() <= usize::MAX,
    ensures
        ({
            let facts = host_facts(exec, verbose)->Ok_0;
            &&& facts.plt_addresses.dom().contains(name) <==> has_stub(
                facts.relocs,
                0,
                facts.app_syms,
                name,
            )
            &&& facts.plt_addresses.dom().contains(name) ==> exists|p: int|
                0 <= p < facts.app_syms.len() && roc_undefined(#[trigger] facts.app_syms[p])
                    && symbol_name(facts.app_syms[p]) == name
        }),
{
    let facts = host_facts(exec, verbose)->Ok_0;
    let sections = parsed_sections(exec)->Some_0;
    let plt = required_section(exec, sections, ".plt"@)->Ok_0;
    let dynamic = parsed_dynamic_symbols(exec)->Some_0;
    lemma_selected_are_undefined(dynamic, 0, Seq::empty());
    lemma_stub_places(
        Stubs { names: Map::empty(), places: Map::empty(), seen: 0 },
        facts.relocs,
        0,
        facts.app_syms,
        sections[plt.0 as int].address,
        plt.1.offset,
    );
    if has_stub(facts.relocs, 0, facts.app_syms, name) {
        let j = choose|j: int|
            0 <= j < facts.relocs.len() && stub_owner(#[trigger] facts.relocs[j], facts.app_syms)
                == Some(name);
        let p = bound_symbol(facts.relocs[j], R_X86_64_JUMP_SLOT, facts.app_syms)->Some_0;
        lemma_symbol_position_in_range(facts.app_syms, facts.relocs[j].symbol->Some_0, 0);
        assert(roc_undefined(facts.app_syms[p as int]));
        assert(symbol_name(facts.app_syms[p as int]) == name);
    }
}

} // verus!
