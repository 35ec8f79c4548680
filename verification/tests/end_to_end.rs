use object::write::{Object, Relocation, StandardSection, Symbol, SymbolSection};
use object::{
    Architecture, BinaryFormat, Endianness as ObjectEndianness, RelocationEncoding,
    RelocationKind, SymbolFlags, SymbolKind, SymbolScope,
};
use roc_linker::bytes::{read_u16, read_u32, read_u64};
use roc_linker::error::LinkError;
use roc_linker::metadata::{Metadata, SurgeryEntry, VirtualOffset};
use roc_linker::preprocess::{collect_host, preprocess_elf, Endianness, Preprocessed};
use roc_linker::reader::{load_dynamic_symbols, load_symbols};
use roc_linker::preprocess::scan::scan_elf_dynamic_deps;
use roc_linker::shift::{update_physical_offset, update_virtual_offset};
use roc_linker::surgery::surgery_elf;
use roc_linker::symbols::{collect_roc_definitions, is_roc_undefined};

fn put16(buf: &mut Vec<u8>, v: u16) {
    buf.extend_from_slice(&v.to_le_bytes());
}

fn put32(buf: &mut Vec<u8>, v: u32) {
    buf.extend_from_slice(&v.to_le_bytes());
}

fn put64(buf: &mut Vec<u8>, v: u64) {
    buf.extend_from_slice(&v.to_le_bytes());
}

fn pad_to(buf: &mut Vec<u8>, align: usize) {
    while buf.len() % align != 0 {
        buf.push(0);
    }
}

fn add_name(table: &mut Vec<u8>, name: &str) -> u32 {
    let at = table.len() as u32;
    table.extend_from_slice(name.as_bytes());
    table.push(0);
    at
}

fn symbol_entry(name: u32, info: u8, shndx: u16, value: u64, size: u64) -> Vec<u8> {
    let mut e = Vec::new();
    put32(&mut e, name);
    e.push(info);
    e.push(0);
    put16(&mut e, shndx);
    put64(&mut e, value);
    put64(&mut e, size);
    e
}

fn rela_entry(offset: u64, sym: u32, kind: u32, addend: i64) -> Vec<u8> {
    let mut e = Vec::new();
    put64(&mut e, offset);
    put64(&mut e, ((sym as u64) << 32) | kind as u64);
    put64(&mut e, addend as u64);
    e
}

struct Section {
    name: u32,
    kind: u32,
    flags: u64,
    offset: u64,
    size: u64,
    link: u32,
    info: u32,
    align: u64,
    entsize: u64,
}

/// A small dynamically linked host, laid out so that file offsets and
/// addresses agree.
struct BuiltHost {
    bytes: Vec<u8>,
    plt_offset: u64,
    rela_dyn_offset: u64,
    rela_dyn_size: u64,
    rela_plt_offset: u64,
    dynamic_offset: u64,
    dynsym_offset: u64,
    symtab_offset: u64,
    sh_offset: u64,
    text_offset: u64,
    /// For every call of a stub: file offset of the displacement and the
    /// address of the next instruction.
    calls: Vec<(u64, u64)>,
    /// For every global-data symbol: file offset of its relocation entry.
    glob_dat_entries: Vec<u64>,
}

const TEXT_INDEX: u16 = 6;

fn build_host(defined: &[&str], slots: &[&str], globals: &[&str]) -> BuiltHost {
    let mut dynstr = vec![0u8];
    let libc = add_name(&mut dynstr, "libc.so.6");
    let libapp = add_name(&mut dynstr, "libapp.so");
    let mut dynsym = symbol_entry(0, 0, 0, 0, 0);
    for name in slots.iter() {
        let at = add_name(&mut dynstr, name);
        dynsym.extend(symbol_entry(at, 0x12, 0, 0, 0));
    }
    for name in globals.iter() {
        let at = add_name(&mut dynstr, name);
        dynsym.extend(symbol_entry(at, 0x11, 0, 0, 0));
    }

    let mut strtab = vec![0u8];
    let mut shstrtab = vec![0u8];
    let names: Vec<u32> = [
        ".dynsym", ".dynstr", ".rela.dyn", ".rela.plt", ".plt", ".text", ".dynamic", ".got",
        ".got.plt", ".symtab", ".strtab", ".shstrtab",
    ]
    .iter()
    .map(|n| add_name(&mut shstrtab, n))
    .collect();

    let mut bytes = vec![0u8; 0x100];
    let mut sections: Vec<Section> = Vec::new();

    let dynsym_offset = bytes.len() as u64;
    bytes.extend_from_slice(&dynsym);
    sections.push(Section { name: names[0], kind: 11, flags: 2, offset: dynsym_offset, size: dynsym.len() as u64, link: 2, info: 1, align: 8, entsize: 24 });

    let dynstr_offset = bytes.len() as u64;
    bytes.extend_from_slice(&dynstr);
    sections.push(Section { name: names[1], kind: 3, flags: 2, offset: dynstr_offset, size: dynstr.len() as u64, link: 0, info: 0, align: 1, entsize: 0 });
    pad_to(&mut bytes, 8);

    // The sizes of what follows are known before the contents are.
    let rela_dyn_offset = bytes.len() as u64;
    let rela_dyn_size = 24 * (globals.len() as u64 + 1);
    let rela_plt_offset = rela_dyn_offset + rela_dyn_size;
    let rela_plt_size = 24 * slots.len() as u64;
    let plt_offset = (rela_plt_offset + rela_plt_size + 15) / 16 * 16;
    let plt_size = 16 * (slots.len() as u64 + 1);
    let text_offset = plt_offset + plt_size;
    let text_size = defined.len() as u64 + 5 * slots.len() as u64 + 6 + 1;
    let dynamic_offset = (text_offset + text_size + 7) / 8 * 8;
    let dynamic_size = 16 * 12;
    let got_offset = dynamic_offset + dynamic_size;
    let got_size = 8 * (globals.len() as u64 + 1);
    let got_plt_offset = got_offset + got_size;
    let got_plt_size = 8 * (slots.len() as u64 + 3);

    let mut glob_dat_entries = Vec::new();
    bytes.extend(rela_entry(got_offset, 0, 8, text_offset as i64));
    for (i, _) in globals.iter().enumerate() {
        glob_dat_entries.push(bytes.len() as u64);
        bytes.extend(rela_entry(got_offset + 8 * (i as u64 + 1), (slots.len() + 1 + i) as u32, 6, 0));
    }
    sections.push(Section { name: names[2], kind: 4, flags: 2, offset: rela_dyn_offset, size: rela_dyn_size, link: 1, info: 0, align: 8, entsize: 24 });
    for (i, _) in slots.iter().enumerate() {
        bytes.extend(rela_entry(got_plt_offset + 8 * (i as u64 + 3), (i + 1) as u32, 7, 0));
    }
    sections.push(Section { name: names[3], kind: 4, flags: 0x42, offset: rela_plt_offset, size: rela_plt_size, link: 1, info: 9, align: 8, entsize: 24 });
    pad_to(&mut bytes, 16);

    // The linkage table: a header and one stub for each jump slot.
    assert_eq!(bytes.len() as u64, plt_offset);
    bytes.extend_from_slice(&[0xFF, 0x35, 0, 0, 0, 0, 0xFF, 0x25, 0, 0, 0, 0, 0x0F, 0x1F, 0x40, 0x00]);
    for (i, _) in slots.iter().enumerate() {
        let stub = plt_offset + 16 * (i as u64 + 1);
        bytes.extend_from_slice(&[0xFF, 0x25, 0, 0, 0, 0, 0x68]);
        put32(&mut bytes, i as u32);
        bytes.push(0xE9);
        put32(&mut bytes, (plt_offset as i64 - (stub as i64 + 16)) as u32);
    }
    sections.push(Section { name: names[4], kind: 1, flags: 6, offset: plt_offset, size: plt_size, link: 0, info: 0, align: 16, entsize: 16 });

    // The code: one `ret` for each defined symbol, one call of each stub,
    // one indirect call, and a final `ret`.
    assert_eq!(bytes.len() as u64, text_offset);
    for _ in defined.iter() {
        bytes.push(0xC3);
    }
    let mut calls = Vec::new();
    for (i, _) in slots.iter().enumerate() {
        let at = bytes.len() as u64;
        let stub = plt_offset + 16 * (i as u64 + 1);
        bytes.push(0xE8);
        put32(&mut bytes, (stub as i64 - (at as i64 + 5)) as u32);
        calls.push((at + 1, at + 5));
    }
    bytes.extend_from_slice(&[0xFF, 0x15, 0, 0, 0, 0]);
    bytes.push(0xC3);
    sections.push(Section { name: names[5], kind: 1, flags: 6, offset: text_offset, size: text_size, link: 0, info: 0, align: 16, entsize: 0 });
    pad_to(&mut bytes, 8);

    assert_eq!(bytes.len() as u64, dynamic_offset);
    let dynamic: [(u64, u64); 12] = [
        (1, libc as u64),
        (1, libapp as u64),
        (5, dynstr_offset),
        (6, dynsym_offset),
        (7, rela_dyn_offset),
        (8, rela_dyn_size),
        (9, 24),
        (23, rela_plt_offset),
        (2, rela_plt_size),
        (20, 7),
        (0x6fff_fff9, 1),
        (0, 0),
    ];
    for (tag, val) in dynamic.iter() {
        put64(&mut bytes, *tag);
        put64(&mut bytes, *val);
    }
    sections.push(Section { name: names[6], kind: 6, flags: 3, offset: dynamic_offset, size: dynamic_size, link: 2, info: 0, align: 8, entsize: 16 });

    assert_eq!(bytes.len() as u64, got_offset);
    for _ in 0..(globals.len() + 1) {
        put64(&mut bytes, 0);
    }
    sections.push(Section { name: names[7], kind: 1, flags: 3, offset: got_offset, size: got_size, link: 0, info: 0, align: 8, entsize: 8 });
    put64(&mut bytes, dynamic_offset);
    put64(&mut bytes, 0);
    put64(&mut bytes, 0);
    for (i, _) in slots.iter().enumerate() {
        put64(&mut bytes, plt_offset + 16 * (i as u64 + 1) + 6);
    }
    sections.push(Section { name: names[8], kind: 1, flags: 3, offset: got_plt_offset, size: got_plt_size, link: 0, info: 0, align: 8, entsize: 8 });

    let symtab_offset = bytes.len() as u64;
    let mut symtab = symbol_entry(0, 0, 0, 0, 0);
    for (i, name) in defined.iter().enumerate() {
        let at = add_name(&mut strtab, name);
        symtab.extend(symbol_entry(at, 0x12, TEXT_INDEX, text_offset + i as u64, 1));
    }
    for name in slots.iter().chain(globals.iter()) {
        let at = add_name(&mut strtab, name);
        symtab.extend(symbol_entry(at, 0x10, 0, 0, 0));
    }
    bytes.extend_from_slice(&symtab);
    sections.push(Section { name: names[9], kind: 2, flags: 0, offset: symtab_offset, size: symtab.len() as u64, link: 11, info: 1, align: 8, entsize: 24 });

    let strtab_offset = bytes.len() as u64;
    bytes.extend_from_slice(&strtab);
    sections.push(Section { name: names[10], kind: 3, flags: 0, offset: strtab_offset, size: strtab.len() as u64, link: 0, info: 0, align: 1, entsize: 0 });
    let shstrtab_offset = bytes.len() as u64;
    bytes.extend_from_slice(&shstrtab);
    sections.push(Section { name: names[11], kind: 3, flags: 0, offset: shstrtab_offset, size: shstrtab.len() as u64, link: 0, info: 0, align: 1, entsize: 0 });
    pad_to(&mut bytes, 8);

    let sh_offset = bytes.len() as u64;
    bytes.extend_from_slice(&[0u8; 64]);
    for s in sections.iter() {
        put32(&mut bytes, s.name);
        put32(&mut bytes, s.kind);
        put64(&mut bytes, s.flags);
        put64(&mut bytes, if s.flags & 2 != 0 { s.offset } else { 0 });
        put64(&mut bytes, s.offset);
        put64(&mut bytes, s.size);
        put32(&mut bytes, s.link);
        put32(&mut bytes, s.info);
        put64(&mut bytes, s.align);
        put64(&mut bytes, s.entsize);
    }
    let total = bytes.len() as u64;

    let mut header = Vec::new();
    header.extend_from_slice(&[0x7F, b'E', b'L', b'F', 2, 1, 1, 0, 0, 0, 0, 0, 0, 0, 0, 0]);
    put16(&mut header, 3);
    put16(&mut header, 62);
    put32(&mut header, 1);
    put64(&mut header, text_offset + defined.len() as u64);
    put64(&mut header, 0x40);
    put64(&mut header, sh_offset);
    put32(&mut header, 0);
    put16(&mut header, 64);
    put16(&mut header, 56);
    put16(&mut header, 3);
    put16(&mut header, 64);
    put16(&mut header, 13);
    put16(&mut header, 12);
    let segments: [(u32, u32, u64, u64, u64); 3] = [
        (6, 4, 0x40, 3 * 56, 8),
        (1, 7, 0, total, 0x1000),
        (2, 6, dynamic_offset, dynamic_size, 8),
    ];
    for (kind, flags, offset, size, align) in segments.iter() {
        put32(&mut header, *kind);
        put32(&mut header, *flags);
        put64(&mut header, *offset);
        put64(&mut header, *offset);
        put64(&mut header, *offset);
        put64(&mut header, *size);
        put64(&mut header, *size);
        put64(&mut header, *align);
    }
    bytes[..header.len()].copy_from_slice(&header);

    BuiltHost {
        bytes,
        plt_offset,
        rela_dyn_offset,
        rela_dyn_size,
        rela_plt_offset,
        dynamic_offset,
        dynsym_offset,
        symtab_offset,
        sh_offset,
        text_offset,
        calls,
        glob_dat_entries,
    }
}

const HOST_DEFINITIONS: [&str; 10] = [
    "roc_alloc",
    "roc_dealloc",
    "roc_fx_getInt",
    "roc_fx_getInt_help",
    "roc_fx_putInt",
    "roc_fx_putLine",
    "roc_memcpy",
    "roc_memset",
    "roc_panic",
    "roc_realloc",
];

const HOST_SLOTS: [&str; 3] = [
    "roc__mainForHost_1__Fx_caller",
    "roc__mainForHost_1__Fx_result_size",
    "roc__mainForHost_1_exposed_generic",
];

const HOST_GLOBALS: [&str; 1] = ["roc__mainForHost_size"];

fn benchmark_host() -> BuiltHost {
    build_host(&HOST_DEFINITIONS, &HOST_SLOTS, &HOST_GLOBALS)
}

#[test]
fn collect_definitions() {
    let host = benchmark_host();
    let symbols = load_symbols(&host.bytes).unwrap();

    let definitions = collect_roc_definitions(&symbols);

    let mut keys = definitions.entries.iter().map(|e| e.0.as_str()).collect::<Vec<_>>();
    keys.sort_unstable();

    assert_eq!(
        [
            "memcpy",
            "memset",
            "roc_alloc",
            "roc_dealloc",
            "roc_fx_getInt",
            "roc_fx_getInt_help",
            "roc_fx_putInt",
            "roc_fx_putLine",
            "roc_memcpy",
            "roc_memset",
            "roc_panic",
            "roc_realloc"
        ],
        keys.as_slice(),
    )
}

#[test]
fn collect_undefined_symbols_elf() {
    let host = benchmark_host();
    let symbols = load_dynamic_symbols(&host.bytes).unwrap();

    let mut keys: Vec<_> = symbols
        .iter()
        .filter(|s| is_roc_undefined(s))
        .filter_map(|s| s.name.as_deref())
        .collect();
    keys.sort_unstable();

    assert_eq!(
        [
            "roc__mainForHost_1__Fx_caller",
            "roc__mainForHost_1__Fx_result_size",
            "roc__mainForHost_1_exposed_generic",
            "roc__mainForHost_size"
        ],
        keys.as_slice()
    )
}

fn sorted_keys<V>(table: &roc_linker::name_map::NameMap<V>) -> Vec<String> {
    let mut keys: Vec<String> = table.entries.iter().map(|e| e.0.clone()).collect();
    keys.sort();
    keys
}

fn preprocessed_benchmark_host() -> (BuiltHost, Preprocessed) {
    let host = benchmark_host();
    let out = preprocess_elf(Endianness::Little, &host.bytes, "/some/dir/libapp.so", false).unwrap();
    (host, out)
}

#[test]
fn preprocessing_finds_symbols_and_stubs() {
    let (host, out) = preprocessed_benchmark_host();
    let md = &out.md;

    assert_eq!(
        sorted_keys(&md.roc_symbol_vaddresses),
        vec![
            "memcpy", "memset", "roc_alloc", "roc_dealloc", "roc_fx_getInt",
            "roc_fx_getInt_help", "roc_fx_putInt", "roc_fx_putLine", "roc_memcpy",
            "roc_memset", "roc_panic", "roc_realloc"
        ]
    );
    assert_eq!(
        sorted_keys(&md.plt_addresses),
        vec![
            "roc__mainForHost_1__Fx_caller",
            "roc__mainForHost_1__Fx_result_size",
            "roc__mainForHost_1_exposed_generic"
        ]
    );
    assert_eq!(
        md.app_functions,
        vec![
            "roc__mainForHost_1__Fx_caller",
            "roc__mainForHost_1__Fx_result_size",
            "roc__mainForHost_1_exposed_generic",
            "roc__mainForHost_size"
        ]
    );
    for (i, name) in HOST_SLOTS.iter().enumerate() {
        let stub = host.plt_offset + 16 * (i as u64 + 1);
        let entry = md.plt_addresses.entries.iter().find(|e| e.0 == *name).unwrap();
        assert_eq!(entry.1, (stub, stub));
        let index = md.dynamic_symbol_indices.entries.iter().find(|e| e.0 == *name).unwrap();
        assert_eq!(index.1, i as u64 + 1);
        let index = md.static_symbol_indices.entries.iter().find(|e| e.0 == *name).unwrap();
        assert_eq!(index.1, 11 + i as u64);
    }
    let address = md.roc_symbol_vaddresses.entries.iter().find(|e| e.0 == "roc_memcpy").unwrap();
    assert_eq!(address.1, host.text_offset + 6);
    let alias = md.roc_symbol_vaddresses.entries.iter().find(|e| e.0 == "memcpy").unwrap();
    assert_eq!(alias.1, host.text_offset + 6);
}

#[test]
fn preprocessing_records_call_sites() {
    let (host, out) = preprocessed_benchmark_host();
    let md = &out.md;

    assert_eq!(sorted_keys(&md.surgeries).len(), 4);
    for (i, name) in HOST_SLOTS.iter().enumerate() {
        let sites = &md.surgeries.entries.iter().find(|e| e.0 == *name).unwrap().1;
        assert_eq!(
            sites,
            &vec![SurgeryEntry {
                file_offset: host.calls[i].0,
                virtual_offset: VirtualOffset::Relative(host.calls[i].1),
                size: 4,
            }]
        );
    }
    let sites = &md.surgeries.entries.iter().find(|e| e.0 == "roc__mainForHost_size").unwrap().1;
    assert_eq!(
        sites,
        &vec![SurgeryEntry {
            file_offset: host.glob_dat_entries[0] + 16,
            virtual_offset: VirtualOffset::Absolute,
            size: 8,
        }]
    );
    assert!(!out.indirect_warning_given);
    let verbose = preprocess_elf(Endianness::Little, &host.bytes, "libapp.so", true).unwrap();
    assert!(verbose.indirect_warning_given);
    assert_eq!(verbose.md, out.md);
    assert_eq!(verbose.binary, out.binary);
}

#[test]
fn discovery_is_repeatable() {
    let host = benchmark_host();
    let first = collect_host(&host.bytes, false).unwrap();
    let second = collect_host(&host.bytes, false).unwrap();
    assert_eq!(first.md.surgeries, second.md.surgeries);
    assert_eq!(first.md, second.md);
}

#[test]
fn preprocessing_fixes_the_geometry() {
    let (host, out) = preprocessed_benchmark_host();
    let md = &out.md;
    let len = host.bytes.len() as u64;

    assert_eq!(md.ph_shift_bytes, 192);
    assert_eq!(md.ph_physical_shift_start, 0x40 + 3 * 56);
    assert_eq!(md.ph_virtual_shift_start, 0x40 + 3 * 56);
    assert_eq!(md.load_align_constraint, 0x1000);
    assert_eq!(md.rela_size, host.rela_dyn_size);
    assert_eq!(md.original_rela_paddr, host.rela_dyn_offset);
    assert_eq!(md.original_rela_vaddr, host.rela_dyn_offset);
    assert_eq!(md.new_rela_paddr, host.sh_offset);
    assert_eq!(md.exec_len, len + 192 + host.rela_dyn_size);
    assert_eq!(out.binary.len() as u64, md.exec_len);
    assert_eq!(md.new_rela_vaddr % 0x1000, md.new_rela_paddr % 0x1000);
    assert!(md.new_rela_vaddr >= len + 0x1000);
    assert!(md.new_rela_vaddr < len + 0x2000);
    assert_eq!(md.last_vaddr, md.new_rela_vaddr + md.rela_size);
    assert_eq!(md.dynamic_section_offset, host.dynamic_offset);
    assert_eq!(md.dynamic_section_count, 10);
    assert_eq!(md.dynamic_symbol_table_section_offset, host.dynsym_offset);
    assert_eq!(md.symbol_table_section_offset, host.symtab_offset);
    assert_eq!(md.symbol_table_size, 24 * 15);
    assert_eq!(md.rela_section_index, 3);
}

#[test]
fn preprocessing_rewrites_the_headers() {
    let (host, out) = preprocessed_benchmark_host();
    let md = &out.md;
    let bin = &out.binary;
    let old = &host.bytes;

    // File header.
    assert_eq!(read_u16(bin, 56), 6);
    assert_eq!(read_u64(bin, 40), host.sh_offset + 192 + md.rela_size);
    assert_eq!(read_u64(bin, 24), read_u64(old, 24) + 192);
    // The segment of the program headers and the first load segment grow.
    assert_eq!(read_u64(bin, 0x40 + 8), 0x40);
    assert_eq!(read_u64(bin, 0x40 + 32), 3 * 56 + 192);
    assert_eq!(read_u64(bin, 0x40 + 56 + 8), 0);
    assert_eq!(read_u64(bin, 0x40 + 56 + 32), old.len() as u64 + 192);
    assert_eq!(read_u64(bin, 0x40 + 56 + 40), old.len() as u64 + 192);
    // The dynamic segment moves.
    assert_eq!(read_u64(bin, 0x40 + 2 * 56 + 8), host.dynamic_offset + 192);
    assert_eq!(read_u64(bin, 0x40 + 2 * 56 + 16), host.dynamic_offset + 192);
    // The new segment loads the duplicate of the relocation table.
    let new = 0x40 + 3 * 56;
    assert_eq!(read_u32(bin, new), 1);
    assert_eq!(read_u32(bin, new + 4), 4);
    assert_eq!(read_u64(bin, new + 8), md.new_rela_paddr + 192);
    assert_eq!(read_u64(bin, new + 16), md.new_rela_vaddr + 192);
    assert_eq!(read_u64(bin, new + 24), md.new_rela_vaddr + 192);
    assert_eq!(read_u64(bin, new + 32), md.rela_size);
    assert_eq!(read_u64(bin, new + 40), md.rela_size);
    assert_eq!(read_u64(bin, new + 48), 0x1000);
    // The contents moved with the shift.
    let text = host.text_offset as usize;
    assert_eq!(&bin[text + 192..text + 192 + 10], &old[text..text + 10]);
    assert_eq!(&bin[..24], &old[..24]);
    // The room that was made is empty.
    assert_eq!(&bin[0x40 + 4 * 56..0x40 + 3 * 56 + 192], &[0u8; 192 - 56][..]);
}

#[test]
fn preprocessing_rewrites_the_tables() {
    let (host, out) = preprocessed_benchmark_host();
    let md = &out.md;
    let bin = &out.binary;

    // The dynamic table lost the placeholder library and kept the other one.
    let dynamic = (host.dynamic_offset + 192) as usize;
    let tags: Vec<u64> = (0..11).map(|i| read_u64(bin, dynamic + 16 * i)).collect();
    assert_eq!(tags, vec![1, 5, 6, 7, 8, 9, 23, 2, 20, 0x6fff_fff9, 0]);
    assert_eq!(read_u64(bin, dynamic + 16 * 2 + 8), host.dynsym_offset + 192);
    assert_eq!(read_u64(bin, dynamic + 16 * 3 + 8), md.new_rela_vaddr + 192);
    assert_eq!(read_u64(bin, dynamic + 16 * 4 + 8), md.rela_size);
    assert_eq!(read_u64(bin, dynamic + 16 * 6 + 8), host.rela_plt_offset + 192);
    // Every jump slot was bound to an application symbol, so none is left.
    assert_eq!(read_u64(bin, dynamic + 16 * 7 + 8), 0);
    let plt_relocations = (host.rela_plt_offset + 192) as usize;
    for i in 0..3 {
        let info = read_u64(bin, plt_relocations + 24 * i + 8);
        assert_eq!(info & 0xffff_ffff, 0);
        assert_eq!(info >> 32, i as u64 + 1);
    }
    // The section header of the jump-slot relocations shrank.
    let headers = (host.sh_offset + 192 + md.rela_size) as usize;
    assert_eq!(read_u64(bin, headers + 64 * 4 + 32), 0);
    assert_eq!(read_u64(bin, headers + 64 * 4 + 24), host.rela_plt_offset + 192);
    assert_eq!(read_u64(bin, headers + 64 * 3 + 24), md.new_rela_paddr + 192);
    assert_eq!(read_u64(bin, headers + 64 * 3 + 16), md.new_rela_vaddr + 192);
    assert_eq!(read_u64(bin, headers + 64 * 3 + 32), md.rela_size);
    // The duplicate of the relocation table: the relative relocation has
    // its target and addend shifted, the global-data one became relative.
    let table = (md.new_rela_paddr + 192) as usize;
    assert_eq!(read_u64(bin, table + 8), 8);
    assert_eq!(read_u64(bin, table + 16), host.text_offset + 192);
    assert_eq!(read_u64(bin, table + 24 + 8), 8);
    // The preprocessed binary is still an object file with the same symbols.
    let symbols = load_symbols(bin).unwrap();
    let alloc = symbols.iter().find(|s| s.name.as_deref() == Some("roc_alloc")).unwrap();
    assert_eq!(alloc.address, host.text_offset + 192);
}

#[test]
fn preprocessing_rejects_unsuitable_hosts() {
    let host = benchmark_host();
    assert_eq!(
        preprocess_elf(Endianness::Little, &host.bytes, "libother.so", false).err(),
        Some(LinkError::SharedLibNotFound)
    );
    assert_eq!(
        preprocess_elf(Endianness::Big, &host.bytes, "libapp.so", false).err(),
        Some(LinkError::BigEndianUnsupported)
    );
    assert_eq!(
        preprocess_elf(Endianness::Little, &[1, 2, 3], "libapp.so", false).err(),
        Some(LinkError::InvalidObject)
    );
    // Without a load segment at file offset zero the wrong file was given.
    let mut moved = host.bytes.clone();
    moved[0x40 + 56 + 8] = 8;
    let error = preprocess_elf(Endianness::Little, &moved, "libapp.so", false).err().unwrap();
    assert_eq!(error, LinkError::NoLoadAtZero);
    assert!(error.is_user_error());
    assert!(!LinkError::SharedLibNotFound.is_user_error());
}

fn app_object() -> Vec<u8> {
    let mut object = Object::new(BinaryFormat::Elf, Architecture::X86_64, ObjectEndianness::Little);
    let text = object.section_id(StandardSection::Text);
    let rodata = object.section_id(StandardSection::ReadOnlyData);
    let mut symbol = |object: &mut Object, name: &str, kind: SymbolKind, section, value| {
        object.add_symbol(Symbol {
            name: name.as_bytes().to_vec(),
            value,
            size: 8,
            kind,
            scope: SymbolScope::Dynamic,
            weak: false,
            section,
            flags: SymbolFlags::None,
        })
    };
    // Three functions of eight bytes each: `call roc_alloc`, `ret`, padding.
    let mut code = Vec::new();
    for _ in 0..3 {
        code.extend_from_slice(&[0xE8, 0, 0, 0, 0, 0xC3, 0x90, 0x90]);
    }
    object.append_section_data(text, &code, 16);
    object.append_section_data(rodata, &[0u8; 24], 8);
    let alloc = symbol(&mut object, "roc_alloc", SymbolKind::Text, SymbolSection::Undefined, 0);
    for (i, name) in HOST_SLOTS.iter().enumerate() {
        symbol(&mut object, name, SymbolKind::Text, SymbolSection::Section(text), 8 * i as u64);
        object
            .add_relocation(text, Relocation {
                offset: 8 * i as u64 + 1,
                size: 32,
                kind: RelocationKind::PltRelative,
                encoding: RelocationEncoding::Generic,
                symbol: alloc,
                addend: -4,
            })
            .unwrap();
    }
    let size = symbol(&mut object, HOST_GLOBALS[0], SymbolKind::Data, SymbolSection::Section(rodata), 16);
    object
        .add_relocation(rodata, Relocation {
            offset: 0,
            size: 64,
            kind: RelocationKind::Absolute,
            encoding: RelocationEncoding::Generic,
            symbol: size,
            addend: 4,
        })
        .unwrap();
    object.write().unwrap()
}

fn linked() -> (BuiltHost, Preprocessed, Vec<u8>, Vec<u8>) {
    let (host, out) = preprocessed_benchmark_host();
    let app = app_object();
    let linked = surgery_elf(&app, &out.md, out.binary.clone()).unwrap();
    (host, out, app, linked)
}

fn function_address(md: &Metadata, linked: &[u8], name: &str) -> u64 {
    let index = md.dynamic_symbol_indices.entries.iter().find(|e| e.0 == name).unwrap().1;
    let table = update_physical_offset(md, md.dynamic_symbol_table_section_offset);
    read_u64(linked, (table + 24 * index + 8) as usize)
}

#[test]
fn merging_places_the_application() {
    let (host, out, app, linked) = linked();
    let md = &out.md;

    assert_eq!(linked.len() as u64, md.exec_len + app.len() as u64 + 8 + 0x1000);
    // Room for one load-time relocation where the section headers were,
    // then the data at a multiple of 64.
    let data = (host.sh_offset + 192 + md.rela_size + 24 + 63) / 64 * 64;
    let code = (data + 24 + 63) / 64 * 64;
    let headers = (code + 24 + 63) / 64 * 64;
    assert_eq!(read_u64(&linked, 40), headers);
    assert_eq!(read_u16(&linked, 60), 15);
    assert_eq!(read_u16(&linked, 56), 6);
    assert_eq!(&linked[code as usize + 5..code as usize + 8], &[0xC3, 0x90, 0x90]);
    // The two new section headers.
    let new = (headers + 64 * 13) as usize;
    assert_eq!(read_u32(&linked, new + 4), 1);
    assert_eq!(read_u64(&linked, new + 8), 2);
    assert_eq!(read_u64(&linked, new + 24), data);
    assert_eq!(read_u64(&linked, new + 32), code - data);
    assert_eq!(read_u64(&linked, new + 64 + 8), 6);
    assert_eq!(read_u64(&linked, new + 64 + 24), code);
    assert_eq!(read_u64(&linked, new + 64 + 32), headers - code);
    let data_address = read_u64(&linked, new + 16);
    assert_eq!(data_address % 0x1000, data % 0x1000);
    assert!(data_address >= md.last_vaddr);
    assert!(data_address < md.last_vaddr + 0x1000);
    assert_eq!(read_u64(&linked, new + 64 + 16), data_address + (code - data));
    // The two new segments.
    let segment = 0x40 + 4 * 56;
    assert_eq!(read_u32(&linked, segment), 1);
    assert_eq!(read_u32(&linked, segment + 4), 6);
    assert_eq!(read_u64(&linked, segment + 8), data);
    assert_eq!(read_u64(&linked, segment + 16), data_address);
    assert_eq!(read_u64(&linked, segment + 32), code - data);
    assert_eq!(read_u64(&linked, segment + 48), 0x1000);
    assert_eq!(read_u32(&linked, segment + 56), 1);
    assert_eq!(read_u32(&linked, segment + 56 + 4), 7);
    assert_eq!(read_u64(&linked, segment + 56 + 8), code);
    assert_eq!(read_u64(&linked, segment + 56 + 16), data_address + (code - data));
    assert_eq!(read_u64(&linked, segment + 56 + 32), headers - code);
    // The functions lie eight bytes apart in the code.
    for (i, name) in HOST_SLOTS.iter().enumerate() {
        assert_eq!(
            function_address(md, &linked, name),
            data_address + (code - data) + 8 * i as u64
        );
    }
    assert_eq!(function_address(md, &linked, HOST_GLOBALS[0]), data_address + 16);
}

#[test]
fn merging_patches_every_call_site() {
    let (host, out, _, linked) = linked();
    let md = &out.md;

    for (i, name) in HOST_SLOTS.iter().enumerate() {
        let address = function_address(md, &linked, name);
        for site in md.surgeries.entries.iter().find(|e| e.0 == *name).unwrap().1.iter() {
            let at = update_physical_offset(md, site.file_offset) as usize;
            let field = read_u32(&linked, at) as i32 as i64;
            match site.virtual_offset {
                VirtualOffset::Relative(next) => {
                    let origin = update_virtual_offset(md, next);
                    assert_eq!((origin as i64 + field) as u64, address);
                }
                VirtualOffset::Absolute => panic!("a call site is relative"),
            }
        }
        // The stub jumps to the function and is padded with no-operations.
        let stub = (host.plt_offset + 192 + 16 * (i as u64 + 1)) as usize;
        assert_eq!(linked[stub], 0xE9);
        let jump = read_u32(&linked, stub + 1) as i32 as i64;
        assert_eq!((stub as i64 + 5 + jump) as u64, address);
        assert_eq!(&linked[stub + 5..stub + 16], &[0x90; 11]);
        // Both symbol tables describe the function.
        let index = md.static_symbol_indices.entries.iter().find(|e| e.0 == *name).unwrap().1;
        let table = update_physical_offset(md, md.symbol_table_section_offset);
        let entry = (table + 24 * index) as usize;
        assert_eq!(read_u16(&linked, entry + 6), 5);
        assert_eq!(read_u64(&linked, entry + 8), address);
        assert_eq!(read_u64(&linked, entry + 16), 8);
    }
    // The absolute site of the data symbol holds its address.
    let address = function_address(md, &linked, HOST_GLOBALS[0]);
    let site = &md.surgeries.entries.iter().find(|e| e.0 == HOST_GLOBALS[0]).unwrap().1[0];
    assert_eq!(site.virtual_offset, VirtualOffset::Absolute);
    let at = update_physical_offset(md, site.file_offset) as usize;
    assert_eq!(at as u64, md.new_rela_paddr + 192 + 24 + 16);
    assert_eq!(read_u64(&linked, at), address);
}

#[test]
fn merging_resolves_relocations() {
    let (host, out, _, linked) = linked();
    let md = &out.md;

    // Every function of the application calls the host's `roc_alloc`.
    let alloc = host.text_offset + 192;
    for name in HOST_SLOTS.iter() {
        let address = function_address(md, &linked, name);
        let data = (host.sh_offset + 192 + md.rela_size + 24 + 63) / 64 * 64;
        let code = (data + 24 + 63) / 64 * 64;
        let first = function_address(md, &linked, HOST_SLOTS[0]);
        let at = (code + (address - first) + 1) as usize;
        let field = read_u32(&linked, at) as i32 as i64;
        assert_eq!((address as i64 + 5 + field) as u64, alloc);
    }
    // One absolute relocation, so one load-time relocation was appended.
    let appended = (md.new_rela_paddr + 192 + md.rela_size) as usize;
    let target = function_address(md, &linked, HOST_GLOBALS[0]);
    assert_eq!(read_u64(&linked, appended), target - 16);
    assert_eq!(read_u64(&linked, appended + 8), 8);
    assert_eq!(read_u64(&linked, appended + 16), target + 4);
    let dynamic = (host.dynamic_offset + 192) as usize;
    assert_eq!(read_u64(&linked, dynamic + 16 * 4 + 8), md.rela_size + 24);
    assert_eq!(read_u64(&linked, dynamic + 16 * 9 + 8), 2);
    // The segment and the section of the relocation table grew with it.
    assert_eq!(read_u64(&linked, 0x40 + 3 * 56 + 32), md.rela_size + 24);
    assert_eq!(read_u64(&linked, 0x40 + 3 * 56 + 40), md.rela_size + 24);
    let headers = read_u64(&linked, 40) as usize;
    assert_eq!(read_u64(&linked, headers + 64 * 3 + 32), md.rela_size + 24);
}

#[test]
fn merging_rejects_unsuitable_input() {
    let (_, out) = preprocessed_benchmark_host();
    let app = app_object();

    assert_eq!(
        surgery_elf(&[0u8; 4], &out.md, out.binary.clone()).err(),
        Some(LinkError::InvalidObject)
    );
    let mut wide = out.binary.clone();
    wide[4] = 1;
    assert_eq!(surgery_elf(&app, &out.md, wide).err(), Some(LinkError::UnsupportedFormat));
    let mut big = out.binary.clone();
    big[5] = 2;
    assert_eq!(surgery_elf(&app, &out.md, big).err(), Some(LinkError::UnsupportedFormat));

    // An application without code.
    let mut object = Object::new(BinaryFormat::Elf, Architecture::X86_64, ObjectEndianness::Little);
    let rodata = object.section_id(StandardSection::ReadOnlyData);
    object.append_section_data(rodata, &[0u8; 8], 8);
    let empty = object.write().unwrap();
    assert_eq!(
        surgery_elf(&empty, &out.md, out.binary.clone()).err(),
        Some(LinkError::NoTextSections)
    );

    // An application that lacks a function the host requires.
    let mut object = Object::new(BinaryFormat::Elf, Architecture::X86_64, ObjectEndianness::Little);
    let text = object.section_id(StandardSection::Text);
    object.append_section_data(text, &[0xC3], 16);
    let partial = object.write().unwrap();
    assert_eq!(
        surgery_elf(&partial, &out.md, out.binary.clone()).err(),
        Some(LinkError::MissingAppFunction)
    );
}

fn section_header(host: &BuiltHost, index: usize) -> usize {
    host.sh_offset as usize + 64 * index
}

#[test]
fn hosts_must_have_their_sections() {
    let host = benchmark_host();
    let preprocess = |bytes: &[u8]| preprocess_elf(Endianness::Little, bytes, "libapp.so", false).err();

    // Without executable sections there is no code.
    let mut data_only = host.bytes.clone();
    data_only[section_header(&host, 5) + 8] = 2;
    data_only[section_header(&host, 6) + 8] = 2;
    assert_eq!(preprocess(&data_only), Some(LinkError::NoTextSections));

    // A linkage table under another name.
    let mut renamed = host.bytes.clone();
    let text_name = renamed[section_header(&host, 6)];
    renamed[section_header(&host, 5)] = text_name;
    assert_eq!(preprocess(&renamed), Some(LinkError::MissingSection));

    // The other required sections.
    for index in [1usize, 2, 7, 10] {
        let mut renamed = host.bytes.clone();
        renamed[section_header(&host, index)] = text_name;
        assert_eq!(preprocess(&renamed), Some(LinkError::MissingSection));
    }

    // A compressed dynamic table, dynamic string table, or code section.
    for index in [7usize, 2, 6, 5] {
        let mut compressed = host.bytes.clone();
        compressed[section_header(&host, index) + 9] = 0x08;
        assert_eq!(preprocess(&compressed), Some(LinkError::CompressedSection));
    }
    let mut compressed = host.bytes.clone();
    compressed[section_header(&host, 8) + 9] = 0x08;
    assert_eq!(preprocess(&compressed), Some(LinkError::CompressedSection));

    // A dynamic table without terminator runs out of the file.
    let mut endless = host.bytes.clone();
    let end = endless.len();
    for at in (host.dynamic_offset as usize..end).step_by(16) {
        if at + 8 <= end && read_u64(&endless, at) == 0 {
            endless[at] = 30;
        }
    }
    assert_eq!(preprocess(&endless), Some(LinkError::OutOfBounds));
}

#[test]
fn the_scan_lists_what_binds_application_symbols() {
    let host = benchmark_host();
    let found = collect_host(&host.bytes, false).unwrap();
    let mut md = Metadata::new();
    let deps = scan_elf_dynamic_deps(
        &found.sections,
        Some(&found.relocs),
        &mut md,
        &found.app_syms,
        "target/release/libapp.so",
        &host.bytes,
    )
    .unwrap();
    assert_eq!(deps.got_app_syms, vec![("roc__mainForHost_size".to_string(), 4)]);
    assert_eq!(deps.app_sym_indices, vec![1, 2, 3]);
    assert_eq!(deps.dynamic_lib_count, 11);
    assert_eq!(deps.shared_lib_index, 1);
    assert_eq!(deps.got_sections.len(), 2);
    assert_eq!(deps.got_sections[0], (host.dynamic_offset + 16 * 12, 16));
    assert_eq!(deps.got_sections[1], (host.dynamic_offset + 16 * 12 + 16, 48));
    assert_eq!(md.dynamic_section_offset, host.dynamic_offset);
    assert_eq!(md.symbol_table_section_offset, host.symtab_offset);
    assert_eq!(md.dynamic_symbol_table_section_offset, host.dynsym_offset);
    assert_eq!(md.symbol_table_size, 24 * 15);

    let mut md = Metadata::new();
    assert_eq!(
        scan_elf_dynamic_deps(&found.sections, None, &mut md, &found.app_syms, "libapp.so", &host.bytes)
            .err(),
        Some(LinkError::NoDynamicRelocations)
    );
    assert_eq!(
        scan_elf_dynamic_deps(
            &found.sections,
            Some(&found.relocs),
            &mut md,
            &found.app_syms,
            "libapp.so.2",
            &host.bytes
        )
        .err(),
        Some(LinkError::SharedLibNotFound)
    );
}

#[test]
fn merging_twice_gives_the_same_executable() {
    let (_, out, app, linked) = linked();
    let again = surgery_elf(&app, &out.md, out.binary.clone()).unwrap();
    assert_eq!(again, linked);
    // What lies behind the preprocessed host in the buffer does not matter.
    let mut longer = out.binary.clone();
    longer.extend_from_slice(&[0u8; 100]);
    let cut = surgery_elf(&app, &out.md, longer).unwrap();
    assert_eq!(cut.len(), linked.len());
}

/// An application with zero-initialized data between its constants and its code.
fn app_object_with_zeroed_data() -> Vec<u8> {
    let mut object = Object::new(BinaryFormat::Elf, Architecture::X86_64, ObjectEndianness::Little);
    let text = object.section_id(StandardSection::Text);
    let rodata = object.section_id(StandardSection::ReadOnlyData);
    let bss = object.section_id(StandardSection::UninitializedData);
    object.append_section_data(text, &[0xC3; 32], 16);
    object.append_section_data(rodata, &[7u8; 24], 8);
    object.append_section_bss(bss, 0x2345, 16);
    for (i, name) in HOST_SLOTS.iter().chain(HOST_GLOBALS.iter()).enumerate() {
        object.add_symbol(Symbol {
            name: name.as_bytes().to_vec(),
            value: 8 * i as u64,
            size: 8,
            kind: SymbolKind::Text,
            scope: SymbolScope::Dynamic,
            weak: false,
            section: SymbolSection::Section(text),
            flags: SymbolFlags::None,
        });
    }
    object.add_symbol(Symbol {
        name: b"buffer".to_vec(),
        value: 0x100,
        size: 0x2000,
        kind: SymbolKind::Data,
        scope: SymbolScope::Compilation,
        weak: false,
        section: SymbolSection::Section(bss),
        flags: SymbolFlags::None,
    });
    object.write().unwrap()
}

#[test]
fn zeroed_data_takes_memory_but_no_file_space() {
    let (host, out) = preprocessed_benchmark_host();
    let md = &out.md;
    let app = app_object_with_zeroed_data();
    let linked = surgery_elf(&app, md, out.binary.clone()).unwrap();

    let data = (host.sh_offset + 192 + md.rela_size + 63) / 64 * 64;
    let code = data + 64;
    let data_segment = 0x40 + 4 * 56;
    let code_segment = data_segment + 56;
    assert_eq!(read_u64(&linked, data_segment + 8), data);
    assert_eq!(read_u64(&linked, code_segment + 8), code);
    let data_address = read_u64(&linked, data_segment + 16);
    let code_address = read_u64(&linked, code_segment + 16);
    // In the file the code follows the constants; in memory the zeroed data
    // lies between them, and the code starts at the next address that
    // agrees with its file offset.
    assert_eq!(read_u64(&linked, data_segment + 32), 64);
    assert_eq!(read_u64(&linked, data_segment + 40), code_address - data_address);
    assert!(code_address >= data_address + 64 + 0x2345);
    assert!(code_address < data_address + 64 + 0x2345 + 0x1000);
    assert_eq!(code_address % 0x1000, code % 0x1000);
    assert_eq!(read_u64(&linked, code_segment + 32), read_u64(&linked, code_segment + 40));
    // The functions are where the code segment is loaded.
    for (i, name) in HOST_SLOTS.iter().enumerate() {
        assert_eq!(function_address(md, &linked, name), code_address + 8 * i as u64);
    }
    let headers = read_u64(&linked, 40) as usize;
    assert_eq!(read_u64(&linked, headers + 64 * 14 + 16), code_address);
    assert_eq!(read_u64(&linked, headers + 64 * 13 + 16), data_address);
}
