use roc_linker::bytes::{read_u16, read_u32, read_u64, write_u32, write_u64};
use roc_linker::preprocess::collect::{collect_indices, collect_names, discover_plt, select_undefined};
use roc_linker::preprocess::disasm::{branch_width_of, Decoded, Surgeries};
use roc_linker::preprocess::dynamic::{is_address_tag, remove_entry, rewrite_file_header, shift_dynamic_in};
use roc_linker::elf::{high_word_of, low_word_of, make_info_word};
use roc_linker::error::LinkError;
use roc_linker::surgery::finish::{compute_extents, Regions};
use roc_linker::surgery::layout::{find_code_start, place_sections_in, placing_order_of, Placement};
use roc_linker::metadata::{Metadata, SurgeryEntry, VirtualOffset};
use roc_linker::name_map::NameMap;
use roc_linker::object_file::{AppSection, RelocKind, RelocationRecord, Storage, SymbolRecord};
use roc_linker::surgery::patch::{patch_site_in, patch_stub_in, patch_symbol_in};
use roc_linker::elf::read_file_header;
use roc_linker::preprocess::plan::{
    find_last_segment_end, find_relocation_table, header_shift_bytes, scan_program_headers,
    LoadScan,
};
use roc_linker::reader::StoredRange;
use roc_linker::surgery::relocate::{apply_relocation_in, merge_section_in};
use roc_linker::preprocess::relocations::{bind_relas_in, compact_in, shift_rela_in, Site};
use roc_linker::preprocess::scan::{collect_bound_symbols, scan_dynamic_table, table_name_of};
use roc_linker::preprocess::sections::collect_tables;
use roc_linker::table::{
    grow_field_in, locate, shift_column_in, shrink_field_in, table_range, Space,
};
use std::collections::HashMap;

fn geometry() -> Metadata {
    let mut md = Metadata::new();
    md.original_rela_paddr = 0x200;
    md.original_rela_vaddr = 0x10200;
    md.new_rela_paddr = 0x1000;
    md.new_rela_vaddr = 0x13000;
    md.rela_size = 48;
    md.ph_physical_shift_start = 0xe8;
    md.ph_virtual_shift_start = 0x100e8;
    md.ph_shift_bytes = 192;
    md.load_align_constraint = 0x1000;
    md
}

fn rela(offset: u64, sym: u32, kind: u32, addend: u64) -> Vec<u8> {
    let mut e = Vec::new();
    e.extend_from_slice(&offset.to_le_bytes());
    e.extend_from_slice(&(((sym as u64) << 32) | kind as u64).to_le_bytes());
    e.extend_from_slice(&addend.to_le_bytes());
    e
}

#[test]
fn info_words_split_in_two_halves() {
    assert_eq!(make_info_word(5, 7), 0x0000_0005_0000_0007);
    assert_eq!(high_word_of(0x0000_0005_0000_0007), 5);
    assert_eq!(low_word_of(0x0000_0005_0000_0007), 7);
    assert_eq!(low_word_of(u64::MAX), u32::MAX);
    assert_eq!(high_word_of(u64::MAX), u32::MAX);
}

#[test]
fn tables_must_lie_inside_the_file() {
    assert_eq!(locate(100, 92, 8), Ok(92));
    assert_eq!(locate(100, 93, 8), Err(LinkError::OutOfBounds));
    assert_eq!(locate(100, u64::MAX, 8), Err(LinkError::OutOfBounds));
    assert_eq!(table_range(100, 4, 4, 24), Ok((4, 100)));
    assert_eq!(table_range(100, 5, 4, 24), Err(LinkError::OutOfBounds));
    assert_eq!(table_range(100, 0, u64::MAX, 24), Err(LinkError::OutOfBounds));
    assert_eq!(table_range(100, 50, 0, 24), Ok((50, 50)));
}

#[test]
fn a_column_of_addresses_is_shifted() {
    let md = geometry();
    let mut buf = vec![0u8; 80];
    for (i, v) in [0x10u64, 0x100e8, 0x10200, 0x13000].iter().enumerate() {
        write_u64(&mut buf, 8 + 16 * i + 8, *v);
        write_u64(&mut buf, 8 + 16 * i, 0x77);
    }
    assert_eq!(shift_column_in(&mut buf, &md, Space::Virtual, 8, 72, 16, 8), Ok(()));
    let values: Vec<u64> = (0..4).map(|i| read_u64(&buf, 8 + 16 * i + 8)).collect();
    assert_eq!(values, vec![0x10, 0x100e8 + 192, 0x13000 + 192, 0x13000 + 240]);
    for i in 0..4 {
        assert_eq!(read_u64(&buf, 8 + 16 * i), 0x77);
    }
    // A record that lies only partly in the table is left alone.
    let mut buf = vec![0xffu8; 40];
    write_u64(&mut buf, 0, 0x100e8);
    assert_eq!(shift_column_in(&mut buf, &md, Space::Virtual, 0, 20, 16, 0), Ok(()));
    assert_eq!(read_u64(&buf, 0), 0x100e8 + 192);
    assert_eq!(&buf[8..], &[0xffu8; 32][..]);
    // An address that cannot be shifted.
    let mut buf = vec![0xffu8; 16];
    assert_eq!(
        shift_column_in(&mut buf, &md, Space::Physical, 0, 16, 8, 0),
        Err(LinkError::ArithmeticOverflow)
    );
}

#[test]
fn fields_grow_and_shrink() {
    let mut buf = vec![0u8; 8];
    write_u64(&mut buf, 0, 100);
    assert_eq!(grow_field_in(&mut buf, 0, 24), Ok(()));
    assert_eq!(read_u64(&buf, 0), 124);
    assert_eq!(shrink_field_in(&mut buf, 0, 124), Ok(()));
    assert_eq!(read_u64(&buf, 0), 0);
    assert_eq!(shrink_field_in(&mut buf, 0, 1), Err(LinkError::ArithmeticOverflow));
    write_u64(&mut buf, 0, u64::MAX);
    assert_eq!(grow_field_in(&mut buf, 0, 1), Err(LinkError::ArithmeticOverflow));
}

#[test]
fn the_shift_makes_room_for_three_headers() {
    assert_eq!(header_shift_bytes(56), 192);
    assert_eq!(header_shift_bytes(0), 0);
    assert_eq!(header_shift_bytes(64), 192);
    assert_eq!(header_shift_bytes(21), 64);
    assert_eq!(header_shift_bytes(22), 128);
    assert_eq!(header_shift_bytes(0xffff), 196608);
}

#[test]
fn file_headers_need_their_64_bytes() {
    assert_eq!(read_file_header(&[0u8; 63]).err(), Some(LinkError::OutOfBounds));
    let mut data = vec![0u8; 64];
    write_u64(&mut data, 24, 0x401000);
    write_u64(&mut data, 32, 64);
    write_u64(&mut data, 40, 0x2000);
    data[54] = 56;
    data[56] = 9;
    data[58] = 64;
    data[60] = 30;
    let h = read_file_header(&data).unwrap();
    assert_eq!((h.entry, h.ph_offset, h.sh_offset), (0x401000, 64, 0x2000));
    assert_eq!((h.ph_ent_size, h.ph_num, h.sh_ent_size, h.sh_num), (56, 9, 64, 30));
}

#[test]
fn the_dynamic_table_names_the_relocation_table() {
    let mut data = vec![0u8; 64];
    for (i, (tag, val)) in [(5u64, 1u64), (7, 0x500), (8, 72), (7, 0x600)].iter().enumerate() {
        write_u64(&mut data, 16 * i, *tag);
        write_u64(&mut data, 16 * i + 8, *val);
    }
    assert_eq!(find_relocation_table(&data, 0, 64, (1, 2)), (0x600, 72));
    assert_eq!(find_relocation_table(&data, 0, 32, (1, 2)), (0x500, 2));
    assert_eq!(find_relocation_table(&data, 0, 16, (1, 2)), (1, 2));
    // Only the low half of a tag is looked at.
    write_u64(&mut data, 0, 0xffff_ffff_0000_0008);
    assert_eq!(find_relocation_table(&data, 0, 16, (1, 2)), (1, 1));
}

fn program_header(kind: u32, offset: u64, vaddr: u64, filesz: u64, memsz: u64, align: u64) -> Vec<u8> {
    let mut h = Vec::new();
    h.extend_from_slice(&kind.to_le_bytes());
    h.extend_from_slice(&0u32.to_le_bytes());
    for v in [offset, vaddr, vaddr, filesz, memsz, align] {
        h.extend_from_slice(&v.to_le_bytes());
    }
    h
}

#[test]
fn program_headers_give_the_load_geometry() {
    let mut table = Vec::new();
    table.extend(program_header(6, 0x40, 0x400040, 168, 168, 8));
    table.extend(program_header(1, 0, 0x400000, 0x800, 0x800, 0x1000));
    table.extend(program_header(1, 0x1000, 0x402000, 0x300, 0x900, 0x1000));
    table.extend(program_header(0x6474_e551, 0, 0xffff_0000, 0, 0x1000_0000, 16));
    let start = LoadScan { found: false, align: 0, virtual_start: 0, rela_paddr: 0 };
    let scan = scan_program_headers(&table, 0, 224, 0xe8, 0x400500, start).unwrap();
    assert!(scan.found);
    assert_eq!(scan.align, 0x1000);
    assert_eq!(scan.virtual_start, 0x4000e8);
    assert_eq!(scan.rela_paddr, 0x500);
    // The table lies in the second load segment.
    let start = LoadScan { found: false, align: 0, virtual_start: 0, rela_paddr: 0x1100 };
    let scan = scan_program_headers(&table, 0, 224, 0xe8, 0x402200, start).unwrap();
    assert_eq!(scan.rela_paddr, 0x1200);
    // No load segment at offset zero.
    let start = LoadScan { found: false, align: 5, virtual_start: 6, rela_paddr: 0x1100 };
    let scan = scan_program_headers(&table[112..], 0, 112, 0xe8, 0x402200, start).unwrap();
    assert!(!scan.found);
    assert_eq!((scan.align, scan.virtual_start), (5, 6));
    // The stack segment does not count for the last address.
    assert_eq!(find_last_segment_end(&table, 0, 224), Ok(0x402900));
    assert_eq!(find_last_segment_end(&table, 0, 112), Ok(0x400800));
    assert_eq!(find_last_segment_end(&table, 0, 0), Ok(0));
    let overflowing = program_header(1, 0, u64::MAX, 0, 1, 1);
    assert_eq!(find_last_segment_end(&overflowing, 0, 56), Err(LinkError::ArithmeticOverflow));
    let below = program_header(1, 0x1000, 0x800, 0x300, 0x300, 1);
    let start = LoadScan { found: false, align: 0, virtual_start: 0, rela_paddr: 0x1100 };
    assert_eq!(
        scan_program_headers(&below, 0, 56, 0, 0, start).err(),
        Some(LinkError::ArithmeticOverflow)
    );
}

#[test]
fn relocation_sections_are_listed() {
    let mut table = vec![0u8; 64 * 4];
    for (i, (kind, offset, size)) in [(1u32, 0x100u64, 8u64), (4, 0x200, 48), (9, 0x300, 32), (4, 0x400, 24)].iter().enumerate() {
        write_u32(&mut table, 64 * i + 4, *kind);
        write_u64(&mut table, 64 * i + 24, *offset);
        write_u64(&mut table, 64 * i + 32, *size);
    }
    let with_addend = collect_tables(&table, 0, 256, 4);
    assert_eq!(with_addend.len(), 2);
    assert_eq!((with_addend[0].index, with_addend[0].header), (1, 64));
    assert_eq!((with_addend[0].offset, with_addend[0].size), (0x200, 48));
    assert_eq!((with_addend[1].index, with_addend[1].offset), (3, 0x400));
    let without = collect_tables(&table, 0, 256, 9);
    assert_eq!(without.len(), 1);
    assert_eq!((without[0].index, without[0].offset, without[0].size), (2, 0x300, 32));
    assert_eq!(collect_tables(&table, 0, 64, 4).len(), 0);
}

#[test]
fn relocations_of_the_host_are_shifted() {
    let md = geometry();
    let mut buf = rela(0x100e8, 0, 8, 0x10200);
    assert_eq!(shift_rela_in(&mut buf, &md, 0), Ok(()));
    assert_eq!(buf, rela(0x100e8 + 192, 0, 8, 0x13000 + 192));
    // Only relative relocations have their addend shifted.
    let mut buf = rela(0x100e8, 3, 1, 0x10200);
    assert_eq!(shift_rela_in(&mut buf, &md, 0), Ok(()));
    assert_eq!(buf, rela(0x100e8 + 192, 3, 1, 0x10200));
    let mut buf = rela(0x100e8, 0, 8, (-8i64) as u64);
    assert_eq!(shift_rela_in(&mut buf, &md, 0), Err(LinkError::NegativeAddend));
    let mut buf = rela(u64::MAX, 0, 1, 0);
    assert_eq!(shift_rela_in(&mut buf, &md, 0), Err(LinkError::ArithmeticOverflow));
}

#[test]
fn global_data_relocations_become_patch_sites() {
    let md = geometry();
    let got = vec![
        ("roc__a".to_string(), 4u64),
        ("roc__b".to_string(), 5),
        ("roc__a_again".to_string(), 0x1_0000_0004),
    ];
    let mut buf = Vec::new();
    buf.extend(rela(0x10, 4, 6, 0));
    buf.extend(rela(0x18, 9, 6, 0));
    buf.extend(rela(0x20, 5, 7, 0));
    buf.extend(rela(0x28, 5, 6, 1));
    let mut sites: Vec<Site> = Vec::new();
    assert_eq!(bind_relas_in(&mut buf, &md, &got, 0x500, 0, 96, &mut sites), Ok(()));
    let site = |symbol: usize, at: u64| Site {
        symbol,
        entry: SurgeryEntry { file_offset: at, virtual_offset: VirtualOffset::Absolute, size: 8 },
    };
    assert_eq!(sites, vec![site(0, 0x510), site(2, 0x510), site(1, 0x500 + 72 + 16)]);
    let mut expected = Vec::new();
    expected.extend(rela(0x10, 0, 8, 0));
    expected.extend(rela(0x18, 9, 6, 0));
    expected.extend(rela(0x20, 5, 7, 0));
    expected.extend(rela(0x28, 0, 8, 1));
    assert_eq!(buf, expected);
}

#[test]
fn removed_jump_slots_go_to_the_end_in_order() {
    let k1 = rela(0x10, 1, 7, 0);
    let r5 = rela(0x18, 5, 7, 1);
    let k2 = rela(0x20, 5, 6, 2);
    let r6 = rela(0x28, 6, 7, 3);
    let k3 = rela(0x30, 0, 8, 4);
    let mut buf = vec![0xEEu8; 4];
    for e in [&k1, &r5, &k2, &r6, &k3] {
        buf.extend_from_slice(e);
    }
    buf.extend_from_slice(&[0xDD; 4]);
    let removed = compact_in(&mut buf, 4, 4 + 120, &vec![6, 5]);
    assert_eq!(removed, 48);
    let mut expected = vec![0xEEu8; 4];
    for e in [&k1, &k2, &k3, &rela(0x18, 5, 0, 1), &rela(0x28, 6, 0, 3)] {
        expected.extend_from_slice(e);
    }
    expected.extend_from_slice(&[0xDD; 4]);
    assert_eq!(buf, expected);
    // Nothing to remove, and an empty table.
    let before = buf.clone();
    assert_eq!(compact_in(&mut buf, 4, 4 + 120, &vec![9]), 0);
    assert_eq!(buf, before);
    assert_eq!(compact_in(&mut buf, 4, 4, &vec![5]), 0);
    assert_eq!(buf, before);
    // Everything is removed.
    let mut all = Vec::new();
    all.extend(rela(1, 5, 7, 0));
    all.extend(rela(2, 6, 7, 0));
    assert_eq!(compact_in(&mut all, 0, 48, &vec![5, 6]), 48);
    let mut expected = rela(1, 5, 0, 0);
    expected.extend(rela(2, 6, 0, 0));
    assert_eq!(all, expected);
}

#[test]
fn the_dynamic_table_is_shifted_and_spliced() {
    let md = geometry();
    let entries = [(1u64, 0x10u64), (1, 0x20), (5, 0x100e8), (10, 0x100e8), (0x6fff_fef5, 0x10200), (0, 0)];
    let mut buf = Vec::new();
    for (tag, val) in entries.iter() {
        buf.extend_from_slice(&tag.to_le_bytes());
        buf.extend_from_slice(&val.to_le_bytes());
    }
    assert_eq!(shift_dynamic_in(&mut buf, &md, 0, 80), Ok(()));
    let values: Vec<u64> = (0..6).map(|i| read_u64(&buf, 16 * i + 8)).collect();
    assert_eq!(values, vec![0x10, 0x20, 0x100e8 + 192, 0x100e8, 0x13000 + 192, 0]);
    assert_eq!(remove_entry(&mut buf, 0, 5, 1), Ok(()));
    let tags: Vec<u64> = (0..6).map(|i| read_u64(&buf, 16 * i)).collect();
    assert_eq!(tags, vec![1, 5, 10, 0x6fff_fef5, 0, 0]);
    assert_eq!(read_u64(&buf, 8), 0x10);
    assert_eq!(remove_entry(&mut buf, 0, 5, 5), Err(LinkError::OutOfBounds));
    assert_eq!(remove_entry(&mut buf, 0, 6, 0), Err(LinkError::OutOfBounds));
    assert_eq!(remove_entry(&mut buf, 16, 5, 0), Err(LinkError::OutOfBounds));
    assert!(is_address_tag(7));
    assert!(is_address_tag(23));
    assert!(is_address_tag(0x6fff_fffe));
    assert!(!is_address_tag(8));
    assert!(!is_address_tag(1));
    assert!(!is_address_tag(0x6fff_fff9));
}

#[test]
fn the_file_header_counts_the_new_segments() {
    let md = geometry();
    let mut buf = vec![0u8; 64];
    write_u64(&mut buf, 24, 0x10400);
    write_u64(&mut buf, 40, 0x1000);
    buf[56] = 9;
    assert_eq!(rewrite_file_header(&mut buf, &md, 9), Ok(()));
    assert_eq!(read_u64(&buf, 24), 0x10400 + 192);
    assert_eq!(read_u64(&buf, 40), 0x1000 + 192 + 48);
    assert_eq!(read_u16(&buf, 56), 12);
    assert_eq!(rewrite_file_header(&mut buf, &md, 0xfffd), Err(LinkError::ArithmeticOverflow));
    let mut short = vec![0u8; 63];
    assert_eq!(rewrite_file_header(&mut short, &md, 9), Err(LinkError::OutOfBounds));
}

#[test]
fn names_are_read_from_string_tables() {
    let table = b"\0libc.so.6\0libapp.so\0\xff\xfe\0tail";
    assert_eq!(table_name_of(table, 1), Ok("libc.so.6".to_string()));
    assert_eq!(table_name_of(table, 5), Ok(".so.6".to_string()));
    assert_eq!(table_name_of(table, 0), Ok(String::new()));
    assert_eq!(table_name_of(table, 11), Ok("libapp.so".to_string()));
    assert_eq!(table_name_of(table, 21), Err(LinkError::InvalidName));
    assert_eq!(table_name_of(table, 24), Err(LinkError::OutOfBounds));
    assert_eq!(table_name_of(table, 28), Err(LinkError::OutOfBounds));
    assert_eq!(table_name_of(table, 29), Err(LinkError::OutOfBounds));
}

#[test]
fn the_placeholder_library_is_found_by_its_file_name() {
    let dynstr = b"\0libc.so.6\0/build/libapp.so\0libapp.so.1\0";
    let mut exec = vec![0xAAu8; 8];
    for (tag, val) in [(1u64, 1u64), (1, 11), (5, 0), (1, 28), (0, 0)].iter() {
        exec.extend_from_slice(&tag.to_le_bytes());
        exec.extend_from_slice(&val.to_le_bytes());
    }
    let wanted = Some("libapp.so".to_string());
    assert_eq!(scan_dynamic_table(&exec, 8, dynstr, &wanted), Ok((4, Some(1))));
    assert_eq!(scan_dynamic_table(&exec, 8, dynstr, &Some("libc.so.6".to_string())), Ok((4, Some(0))));
    assert_eq!(scan_dynamic_table(&exec, 8, dynstr, &Some("libapp".to_string())), Ok((4, None)));
    assert_eq!(scan_dynamic_table(&exec, 8, dynstr, &None), Ok((4, None)));
    assert_eq!(scan_dynamic_table(&exec, 8 + 64, dynstr, &wanted), Ok((0, None)));
    // A table without terminator runs out of the file.
    assert_eq!(scan_dynamic_table(&exec[..72], 8, dynstr, &wanted), Err(LinkError::OutOfBounds));
    assert_eq!(scan_dynamic_table(&exec, 1000, dynstr, &wanted), Err(LinkError::OutOfBounds));
    assert_eq!(scan_dynamic_table(&exec, 8, b"\0", &wanted), Err(LinkError::OutOfBounds));
}

fn undefined(name: Option<&str>, index: u64) -> SymbolRecord {
    SymbolRecord {
        index,
        name: name.map(|n| n.to_string()),
        address: 0,
        size: 0,
        section: None,
        is_definition: false,
        is_undefined: true,
    }
}

fn dynamic_relocation(kind: u32, symbol: Option<u64>) -> RelocationRecord {
    RelocationRecord { offset: 0, kind: RelocKind::Elf(kind), symbol, addend: 0, size: 0 }
}

#[test]
fn stubs_follow_the_jump_slots() {
    let app_syms = vec![undefined(Some("roc__a"), 3), undefined(Some("roc__b"), 4)];
    let relocs = vec![
        dynamic_relocation(7, Some(9)),
        dynamic_relocation(6, Some(3)),
        dynamic_relocation(7, Some(4)),
        RelocationRecord { offset: 0, kind: RelocKind::Absolute, symbol: Some(3), addend: 0, size: 64 },
        dynamic_relocation(7, Some(3)),
        dynamic_relocation(7, None),
    ];
    let (addresses, places, seen) = discover_plt(&relocs, &app_syms, 0x401000, 0x1000).unwrap();
    assert_eq!(seen, 4);
    assert_eq!(addresses.len(), 2);
    assert_eq!(addresses.get(&0x401020), Some(&"roc__b".to_string()));
    assert_eq!(addresses.get(&0x401030), Some(&"roc__a".to_string()));
    assert_eq!(
        places.entries,
        vec![
            ("roc__b".to_string(), (0x1020, 0x401020)),
            ("roc__a".to_string(), (0x1030, 0x401030))
        ]
    );
    assert_eq!(
        discover_plt(&relocs, &app_syms, u64::MAX - 0x20, 0).err(),
        Some(LinkError::ArithmeticOverflow)
    );
    let nameless = vec![undefined(None, 4)];
    assert_eq!(discover_plt(&relocs, &nameless, 0, 0).err(), Some(LinkError::InvalidName));
}

#[test]
fn four_undefined_symbols_give_four_stubs() {
    let names = [
        "roc__mainForHost_1__Fx_caller",
        "roc__mainForHost_1__Fx_result_size",
        "roc__mainForHost_1_exposed_generic",
        "roc__mainForHost_size",
    ];
    let mut dynamic: Vec<SymbolRecord> =
        names.iter().enumerate().map(|(i, n)| undefined(Some(n), i as u64 + 1)).collect();
    dynamic.push(undefined(Some("malloc"), 5));
    let app_syms = select_undefined(&dynamic);
    assert_eq!(app_syms, dynamic[..4].to_vec());
    let relocs: Vec<RelocationRecord> = (1..=5).map(|i| dynamic_relocation(7, Some(i))).collect();
    let (_, places, _) = discover_plt(&relocs, &app_syms, 0x2000, 0x2000).unwrap();
    let mut keys: Vec<&str> = places.entries.iter().map(|e| e.0.as_str()).collect();
    keys.sort_unstable();
    assert_eq!(keys, names);
    assert_eq!(collect_names(&app_syms).unwrap(), names);
    let indices = collect_indices(&app_syms).unwrap();
    assert_eq!(indices.get(&names[2].to_string()), Some(&3));
    assert_eq!(collect_names(&vec![undefined(None, 1)]).err(), Some(LinkError::InvalidName));
    assert_eq!(collect_indices(&vec![undefined(None, 1)]).err(), Some(LinkError::InvalidName));
}

#[test]
fn bound_symbols_are_listed_per_relocation() {
    let app_syms = vec![undefined(Some("roc__a"), 3), undefined(Some("roc__b"), 4)];
    let relocs = vec![
        dynamic_relocation(6, Some(4)),
        dynamic_relocation(7, Some(4)),
        dynamic_relocation(6, Some(8)),
        dynamic_relocation(6, Some(3)),
        dynamic_relocation(6, Some(4)),
    ];
    assert_eq!(
        collect_bound_symbols(&relocs, 6, &app_syms),
        Ok(vec![("roc__b".to_string(), 4), ("roc__a".to_string(), 3), ("roc__b".to_string(), 4)])
    );
    assert_eq!(collect_bound_symbols(&relocs, 7, &app_syms), Ok(vec![("roc__b".to_string(), 4)]));
    assert_eq!(collect_bound_symbols(&relocs, 8, &app_syms), Ok(vec![]));
    let nameless = vec![undefined(None, 4)];
    assert_eq!(collect_bound_symbols(&relocs, 7, &nameless), Err(LinkError::InvalidName));
}

fn scanner() -> Surgeries {
    let app_syms = vec![undefined(Some("roc__a"), 1)];
    let mut stubs = HashMap::new();
    stubs.insert(0x401020u64, "roc__a".to_string());
    Surgeries::new(&app_syms, stubs)
}

fn instruction(op0_kind: u8, target: u64, operand: Option<u8>, next_ip: u64) -> Decoded {
    Decoded {
        len: 5,
        next_ip,
        op0_kind,
        branch_target: target,
        operand,
        call_far_indirect: false,
        call_near_indirect: false,
        jmp_far_indirect: false,
        jmp_near_indirect: false,
    }
}

#[test]
fn branches_to_stubs_are_recorded() {
    let mut s = scanner();
    assert_eq!(s.surgeries.entries, vec![("roc__a".to_string(), vec![])]);
    assert!(!s.indirect_warning_given);
    // A call in a section at address 0x402000 that starts at file offset 0x2000.
    let call = instruction(3, 0x401020, Some(100), 0x402105);
    assert_eq!(s.record_instruction(&call, 0x402000, 0x2000, false), Ok(()));
    // A short jump.
    let jump = instruction(3, 0x401020, Some(96), 0x402202);
    assert_eq!(s.record_instruction(&jump, 0x402000, 0x2000, false), Ok(()));
    let word = instruction(1, 0x401020, Some(98), 0x402303);
    assert_eq!(s.record_instruction(&word, 0x402000, 0x2000, false), Ok(()));
    // A call of something else.
    let other = instruction(3, 0x401030, Some(100), 0x402405);
    assert_eq!(s.record_instruction(&other, 0x402000, 0x2000, false), Ok(()));
    let entry = |file_offset, next, size| SurgeryEntry {
        file_offset,
        virtual_offset: VirtualOffset::Relative(next),
        size,
    };
    assert_eq!(
        s.surgeries.entries,
        vec![(
            "roc__a".to_string(),
            vec![entry(0x2101, 0x402105, 4), entry(0x2201, 0x402202, 1), entry(0x2301, 0x402303, 2)]
        )]
    );
}

#[test]
fn unsupported_branches_are_errors() {
    let mut s = scanner();
    let call = instruction(3, 0x401020, Some(100), 0x402105);
    let odd = instruction(3, 0x401020, Some(97), 0x402105);
    assert_eq!(
        s.record_instruction(&odd, 0x402000, 0x2000, false),
        Err(LinkError::UnsupportedOperand)
    );
    let none = instruction(2, 0x401020, None, 0x402105);
    assert_eq!(
        s.record_instruction(&none, 0x402000, 0x2000, false),
        Err(LinkError::UnsupportedOperand)
    );
    for kind in [4u8, 5] {
        let far = instruction(kind, 0, Some(1), 0x402105);
        assert_eq!(
            s.record_instruction(&far, 0x402000, 0x2000, false),
            Err(LinkError::UnsupportedBranch)
        );
    }
    let early = instruction(3, 0x401020, Some(100), 0x401fff);
    assert_eq!(
        s.record_instruction(&early, 0x402000, 0x2000, false),
        Err(LinkError::ArithmeticOverflow)
    );
    let mut unknown = scanner();
    unknown.surgeries = NameMap::new();
    assert_eq!(
        unknown.record_instruction(&call, 0x402000, 0x2000, false),
        Err(LinkError::UnknownSymbol)
    );
    assert_eq!(branch_width_of(Some(95)), Ok(1));
    assert_eq!(branch_width_of(Some(96)), Ok(1));
    assert_eq!(branch_width_of(Some(98)), Ok(2));
    assert_eq!(branch_width_of(Some(99)), Ok(4));
    assert_eq!(branch_width_of(Some(100)), Ok(4));
    assert_eq!(branch_width_of(Some(101)), Err(LinkError::UnsupportedOperand));
    assert_eq!(s.surgeries.entries, vec![("roc__a".to_string(), vec![])]);
}

#[test]
fn indirect_branches_are_noted_once_in_verbose_mode() {
    let mut s = scanner();
    let mut indirect = instruction(24, 0, Some(3), 0x402006);
    indirect.call_near_indirect = true;
    assert_eq!(s.record_instruction(&indirect, 0x402000, 0x2000, false), Ok(()));
    assert!(!s.indirect_warning_given);
    assert_eq!(s.record_instruction(&indirect, 0x402000, 0x2000, true), Ok(()));
    assert!(s.indirect_warning_given);
    assert_eq!(s.record_instruction(&indirect, 0x402000, 0x2000, true), Ok(()));
    assert!(s.indirect_warning_given);
    let mut plain = scanner();
    let direct = instruction(24, 0, Some(3), 0x402006);
    assert_eq!(plain.record_instruction(&direct, 0x402000, 0x2000, true), Ok(()));
    assert!(!plain.indirect_warning_given);
}

#[test]
fn code_is_decoded_instruction_by_instruction() {
    let range = StoredRange { storage: Storage::Plain, offset: 0x2000, uncompressed_size: 0 };
    // nop; call 0x401020; jmp 0x401020 (short); call [rip]; ret
    let mut code = vec![0x90u8, 0xE8];
    code.extend_from_slice(&((0x401020i64 - 0x402006) as i32).to_le_bytes());
    code.extend_from_slice(&[0xEB, (0x401020i64 - 0x402008) as i8 as u8]);
    code.extend_from_slice(&[0xFF, 0x15, 0, 0, 0, 0, 0xC3]);
    let mut near = scanner();
    near.app_func_addresses.insert(0x402008 - 0x60, "roc__a".to_string());
    assert_eq!(near.append_text_section(&code, 0x402000, &range, true), Ok(()));
    assert!(near.indirect_warning_given);
    let entry = |file_offset, next, size| SurgeryEntry {
        file_offset,
        virtual_offset: VirtualOffset::Relative(next),
        size,
    };
    assert_eq!(
        near.surgeries.entries[0].1,
        vec![entry(0x2002, 0x402006, 4)]
    );
    // A compressed code section is refused whatever it holds.
    let compressed = StoredRange { storage: Storage::Compressed, offset: 0x2000, uncompressed_size: 0 };
    for held in [&code[..], &[0x90, 0xC3][..], &[][..]] {
        let mut s = scanner();
        assert_eq!(
            s.append_text_section(held, 0x402000, &compressed, false),
            Err(LinkError::CompressedSection)
        );
        assert_eq!(s.surgeries.entries, vec![("roc__a".to_string(), vec![])]);
    }
    let unreadable = StoredRange { storage: Storage::Unreadable, offset: 0, uncompressed_size: 0 };
    assert_eq!(
        scanner().append_text_section(&code, 0x402000, &unreadable, false),
        Err(LinkError::CompressedSection)
    );
    // A far call.
    let far = [0x9A, 0, 0, 0, 0, 0, 0];
    let mut s = scanner();
    assert_eq!(s.append_text_section(&[0x90, 0xC3], 0x402000, &range, false), Ok(()));
    assert_eq!(s.append_text_section(&[], 0x402000, &range, false), Ok(()));
    // In 64-bit mode the far call is no instruction, so nothing is found.
    assert_eq!(s.append_text_section(&far, 0x402000, &range, false), Ok(()));
    assert_eq!(s.surgeries.entries, vec![("roc__a".to_string(), vec![])]);
}

fn section(index: u64, name: &str, size: u64, file_size: u64) -> AppSection {
    AppSection {
        index,
        name: name.to_string(),
        size,
        file_size,
        data: vec![index as u8; file_size as usize],
        relocations: Vec::new(),
    }
}

fn defined(name: &str, index: u64, section: u64, address: u64, size: u64) -> SymbolRecord {
    SymbolRecord {
        index,
        name: Some(name.to_string()),
        address,
        size,
        section: Some(section),
        is_definition: true,
        is_undefined: false,
    }
}

fn fresh(offset: u64, virt_offset: u64) -> Placement {
    Placement {
        offset,
        virt_offset,
        sections: HashMap::new(),
        symbols: HashMap::new(),
        functions: NameMap::new(),
    }
}

#[test]
fn sections_are_placed_group_by_group() {
    let mut md = geometry();
    md.app_functions = vec!["roc__main".to_string(), "roc_alloc".to_string()];
    md.roc_symbol_vaddresses.insert("roc_alloc".to_string(), 0x500);
    md.roc_symbol_vaddresses.insert("roc_panic".to_string(), 0x600);
    let sections = vec![
        section(1, ".text", 100, 100),
        section(2, ".bss", 0x2000, 0),
        section(3, ".rodata.str", 10, 10),
        section(4, ".debug_info", 50, 50),
        section(5, ".text.hot", 8, 8),
        section(6, ".data.rel.ro", 16, 16),
    ];
    let symbols = vec![
        defined("roc__main", 1, 1, 0x20, 40),
        defined("helper", 2, 5, 4, 4),
        defined("roc_alloc", 3, 1, 0x40, 8),
        defined("roc_panic", 4, 1, 0x50, 8),
        defined("table", 5, 3, 2, 8),
        defined("zeros", 6, 2, 0x100, 0x10),
        defined("info", 7, 4, 0, 0),
    ];
    let order = placing_order_of(&sections);
    assert_eq!(order, vec![2, 5, 1, 0, 4]);
    let mut st = fresh(0x3001, 0x15000);
    assert_eq!(place_sections_in(&mut st, &md, &sections, &symbols, &order), Ok(()));
    assert_eq!(st.sections.get(&3), Some(&(0x3040, 0x15040)));
    assert_eq!(st.sections.get(&6), Some(&(0x3080, 0x15080)));
    assert_eq!(st.sections.get(&2), Some(&(0x30c0, 0x150c0)));
    // The zeroed section took no file space but 0x2000 bytes of memory.
    assert_eq!(st.sections.get(&1), Some(&(0x30c0, 0x170c0)));
    assert_eq!(st.sections.get(&5), Some(&(0x3140, 0x17140)));
    assert_eq!(st.sections.get(&4), None);
    assert_eq!((st.offset, st.virt_offset), (0x3148, 0x17148));
    // Symbols of the host are not recorded by index, required functions by name.
    assert_eq!(st.symbols.get(&1), Some(&0x170e0));
    assert_eq!(st.symbols.get(&2), Some(&0x17144));
    assert_eq!(st.symbols.get(&3), None);
    assert_eq!(st.symbols.get(&4), None);
    assert_eq!(st.symbols.get(&5), Some(&0x15042));
    assert_eq!(st.symbols.get(&6), Some(&0x151c0));
    assert_eq!(st.symbols.get(&7), None);
    assert_eq!(
        st.functions.entries,
        vec![("roc__main".to_string(), (0x170e0, 40)), ("roc_alloc".to_string(), (0x17100, 8))]
    );
    assert_eq!(find_code_start(&st.sections, &sections, &vec![0, 4]), Ok((0x30c0, 0x170c0)));
    assert_eq!(find_code_start(&st.sections, &sections, &vec![4, 0]), Ok((0x30c0, 0x170c0)));
    assert_eq!(find_code_start(&st.sections, &sections, &vec![]), Err(LinkError::NoTextSections));
    assert_eq!(find_code_start(&st.sections, &sections, &vec![3]), Err(LinkError::MissingSection));
}

#[test]
fn sections_must_have_one_size() {
    let md = geometry();
    let sections = vec![section(1, ".text", 100, 90)];
    let mut st = fresh(0, 0);
    assert_eq!(
        place_sections_in(&mut st, &md, &sections, &vec![], &vec![0]),
        Err(LinkError::SectionSizeMismatch)
    );
    let mut zero = geometry();
    zero.load_align_constraint = 0;
    let sections = vec![section(1, ".text", 100, 100)];
    let mut st = fresh(0, 0);
    assert_eq!(
        place_sections_in(&mut st, &zero, &sections, &vec![], &vec![0]),
        Err(LinkError::ZeroAlignment)
    );
    let mut st = fresh(u64::MAX - 10, 0);
    assert_eq!(
        place_sections_in(&mut st, &md, &sections, &vec![], &vec![0]),
        Err(LinkError::ArithmeticOverflow)
    );
}

fn relocation(offset: u64, kind: RelocKind, symbol: Option<u64>, addend: i64, size: u8) -> RelocationRecord {
    RelocationRecord { offset, kind, symbol, addend, size }
}

#[test]
fn relocations_of_the_application_are_resolved() {
    let mut md = geometry();
    md.roc_symbol_vaddresses.insert("roc_alloc".to_string(), 0x10400);
    let mut placed = fresh(0, 0);
    placed.symbols.insert(1, 0x20000);
    let symbols = vec![
        defined("local", 1, 1, 0, 0),
        undefined(Some("roc_alloc"), 2),
        undefined(Some("__divti3"), 3),
        undefined(Some("__udivti3"), 4),
        undefined(Some("missing"), 5),
        undefined(None, 6),
    ];
    let mut buf = vec![0u8; 0x1400];
    let mut appended: u64 = 0;
    let mut apply = |buf: &mut Vec<u8>, appended: &mut u64, rel: RelocationRecord| {
        apply_relocation_in(buf, appended, &placed, &md, &symbols, &rel, 0x500, 0x21000)
    };
    // Relative to a symbol of the application.
    assert_eq!(apply(&mut buf, &mut appended, relocation(0x10, RelocKind::Relative, Some(1), -4, 32)), Ok(()));
    assert_eq!(read_u32(&buf, 0x510) as i32, 0x20000 - 0x21010 - 4);
    assert_eq!(read_u32(&buf, 0x514), 0);
    // Relative to a symbol of the host, which has moved with the shift.
    assert_eq!(apply(&mut buf, &mut appended, relocation(0x20, RelocKind::PltRelative, Some(2), -4, 64)), Ok(()));
    assert_eq!(read_u64(&buf, 0x520) as i64, 0x10400 + 192 - 0x21020 - 4);
    assert_eq!(appended, 0);
    // Absolute: a load-time relocation is appended behind the table.
    assert_eq!(apply(&mut buf, &mut appended, relocation(0x30, RelocKind::Absolute, Some(1), 8, 64)), Ok(()));
    assert_eq!(apply(&mut buf, &mut appended, relocation(0x38, RelocKind::Absolute, Some(2), 0, 64)), Ok(()));
    assert_eq!(appended, 2);
    assert_eq!(read_u64(&buf, 0x530), 0);
    let table = 0x1000 + 192 + 48;
    assert_eq!(&buf[table..table + 24], &rela(0x21030, 0, 8, 0x20008)[..]);
    assert_eq!(&buf[table + 24..table + 48], &rela(0x21038, 0, 8, 0x10400 + 192)[..]);
    // Always linked intrinsics are passed over.
    assert_eq!(apply(&mut buf, &mut appended, relocation(0x40, RelocKind::Absolute, Some(3), 0, 64)), Ok(()));
    assert_eq!(apply(&mut buf, &mut appended, relocation(0x40, RelocKind::Other, Some(4), 0, 7)), Ok(()));
    assert_eq!(appended, 2);
    for (rel, error) in [
        (relocation(0, RelocKind::Relative, Some(5), 0, 32), LinkError::UndefinedSymbol),
        (relocation(0, RelocKind::Relative, Some(6), 0, 32), LinkError::UndefinedSymbol),
        (relocation(0, RelocKind::Relative, Some(7), 0, 32), LinkError::UndefinedSymbol),
        (relocation(0, RelocKind::Relative, None, 0, 32), LinkError::UnsupportedRelocationTarget),
        (relocation(0, RelocKind::Elf(4), Some(1), 0, 32), LinkError::UnsupportedRelocationKind),
        (relocation(0, RelocKind::Other, Some(1), 0, 32), LinkError::UnsupportedRelocationKind),
        (relocation(0, RelocKind::Relative, Some(1), 0, 16), LinkError::UnsupportedRelocationSize),
        (relocation(0, RelocKind::Relative, Some(1), 0, 0), LinkError::UnsupportedRelocationSize),
        (relocation(0x1000, RelocKind::Relative, Some(1), 0, 32), LinkError::OutOfBounds),
        (relocation(u64::MAX, RelocKind::Relative, Some(1), 0, 32), LinkError::ArithmeticOverflow),
    ] {
        let before = buf.clone();
        assert_eq!(apply(&mut buf, &mut appended, rel), Err(error));
        assert_eq!(buf, before);
    }
    let mut small = vec![0u8; table + 23];
    assert_eq!(
        apply(&mut small, &mut appended, relocation(0, RelocKind::Absolute, Some(1), 0, 64)),
        Err(LinkError::OutOfBounds)
    );
}

#[test]
fn sections_are_copied_to_their_place() {
    let md = geometry();
    let mut placed = fresh(0, 0);
    placed.sections.insert(1, (0x40, 0x20040));
    placed.symbols.insert(9, 0x20060);
    let mut sec = section(1, ".text", 6, 6);
    sec.data = vec![1, 2, 3, 4, 5, 6];
    sec.relocations = vec![relocation(2, RelocKind::Relative, Some(9), 0, 32)];
    let mut buf = vec![0xAAu8; 0x60];
    let mut appended = 0;
    assert_eq!(merge_section_in(&mut buf, &mut appended, &placed, &md, &vec![], &sec), Ok(()));
    assert_eq!(&buf[0x40..0x46], &[1, 2, 0x1e, 0, 0, 0]);
    assert_eq!(buf[0x3f], 0xAA);
    assert_eq!(buf[0x46], 0xAA);
    let mut short = vec![0u8; 0x45];
    assert_eq!(
        merge_section_in(&mut short, &mut appended, &placed, &md, &vec![], &sec),
        Err(LinkError::OutOfBounds)
    );
    sec.index = 2;
    assert_eq!(
        merge_section_in(&mut buf, &mut appended, &placed, &md, &vec![], &sec),
        Err(LinkError::MissingSection)
    );
}

#[test]
fn the_regions_give_the_extents() {
    let regions = Regions { data: (0x3040, 0x15040), code: (0x30c0, 0x170c0), end: 0x3148, appended: 3 };
    let x = compute_extents(&regions).unwrap();
    assert_eq!(x.sh_offset, 0x3180);
    assert_eq!(x.data_size, 0x80);
    assert_eq!(x.data_memory, 0x2080);
    assert_eq!(x.code_vaddr, 0x170c0);
    assert_eq!(x.code_size, 0xc0);
    assert_eq!(x.added_size, 72);
    let backwards = Regions { data: (0x3040, 0x15040), code: (0x3000, 0x170c0), end: 0x3148, appended: 0 };
    assert_eq!(compute_extents(&backwards).err(), Some(LinkError::ArithmeticOverflow));
}

#[test]
fn call_sites_are_patched() {
    let md = geometry();
    let mut buf = vec![0xCCu8; 0x400];
    let relative = SurgeryEntry { file_offset: 0x100, virtual_offset: VirtualOffset::Relative(0x10104), size: 4 };
    assert_eq!(patch_site_in(&mut buf, &md, &relative, 0x20000), Ok(()));
    assert_eq!(read_u32(&buf, 0x100 + 192) as i32, 0x20000 - (0x10104 + 192));
    assert_eq!(buf[0x100 + 192 + 4], 0xCC);
    assert_eq!(buf[0x100 + 192 - 1], 0xCC);
    // Backwards.
    assert_eq!(patch_site_in(&mut buf, &md, &relative, 0x10000), Ok(()));
    assert_eq!(read_u32(&buf, 0x100 + 192) as i32, 0x10000 - (0x10104 + 192));
    let wide = SurgeryEntry { file_offset: 0x80, virtual_offset: VirtualOffset::Relative(0x90), size: 8 };
    assert_eq!(patch_site_in(&mut buf, &md, &wide, 0x20), Ok(()));
    assert_eq!(read_u64(&buf, 0x80) as i64, 0x20 - 0x90);
    let absolute = SurgeryEntry { file_offset: 0x210, virtual_offset: VirtualOffset::Absolute, size: 8 };
    let mut table = vec![0u8; 0x1100];
    assert_eq!(patch_site_in(&mut table, &md, &absolute, 0x1234_5678_9abc), Ok(()));
    assert_eq!(read_u64(&table, 0x1010 + 192), 0x1234_5678_9abc);
    for size in [0u8, 1, 2, 3, 5, 16] {
        let odd = SurgeryEntry { file_offset: 0x100, virtual_offset: VirtualOffset::Absolute, size };
        assert_eq!(patch_site_in(&mut buf, &md, &odd, 0), Err(LinkError::UnsupportedSurgerySize));
    }
    let outside = SurgeryEntry { file_offset: 0x400, virtual_offset: VirtualOffset::Absolute, size: 4 };
    assert_eq!(patch_site_in(&mut buf, &md, &outside, 0), Err(LinkError::OutOfBounds));
    let far = SurgeryEntry { file_offset: 0, virtual_offset: VirtualOffset::Relative(u64::MAX), size: 4 };
    assert_eq!(patch_site_in(&mut buf, &md, &far, 0), Err(LinkError::ArithmeticOverflow));
}

#[test]
fn stubs_and_symbols_are_patched() {
    let md = geometry();
    let mut buf = vec![0xCCu8; 0x400];
    assert_eq!(patch_stub_in(&mut buf, &md, (0x100, 0x10100), 0x20000), Ok(()));
    let at = 0x100 + 192;
    assert_eq!(buf[at], 0xE9);
    assert_eq!(read_u32(&buf, at + 1) as i32, 0x20000 - (0x10100 + 192 + 5));
    assert_eq!(&buf[at + 5..at + 16], &[0x90; 11]);
    assert_eq!(buf[at + 16], 0xCC);
    assert_eq!(buf[at - 1], 0xCC);
    assert_eq!(patch_stub_in(&mut buf, &md, (0x400 - 192 - 15, 0), 0), Err(LinkError::OutOfBounds));
    assert_eq!(patch_symbol_in(&mut buf, 0x200, 3, 5, (0x20000, 40)), Ok(()));
    let entry = 0x200 + 72;
    assert_eq!(read_u32(&buf, entry), 0xCCCC_CCCC);
    assert_eq!(read_u16(&buf, entry + 4), 0xCCCC);
    assert_eq!(read_u16(&buf, entry + 6), 5);
    assert_eq!(read_u64(&buf, entry + 8), 0x20000);
    assert_eq!(read_u64(&buf, entry + 16), 40);
    assert_eq!(patch_symbol_in(&mut buf, 0x200, 20, 5, (0, 0)), Ok(()));
    assert_eq!(patch_symbol_in(&mut buf, 0x200, 21, 5, (0, 0)), Err(LinkError::OutOfBounds));
    assert_eq!(patch_symbol_in(&mut buf, u64::MAX, u64::MAX, 5, (0, 0)), Err(LinkError::OutOfBounds));
}
