use roc_linker::names::{ends_with, same_text, starts_with};
use roc_linker::object_file::SymbolRecord;
use roc_linker::parser::{any, keyword, State};
use roc_linker::symbols::{
    collect_roc_definitions, find_char, is_roc_definition, is_roc_symbol, is_roc_undefined,
    libc_alias_of, skip_char, trim_underscores,
};

fn symbol(name: Option<&str>, address: u64, defined: bool) -> SymbolRecord {
    SymbolRecord {
        index: address,
        name: name.map(|n| n.to_string()),
        address,
        size: 0,
        section: if defined { Some(1) } else { None },
        is_definition: defined,
        is_undefined: !defined,
    }
}

#[test]
fn prefixes_and_suffixes() {
    assert!(starts_with(".rodata.str", ".rodata"));
    assert!(starts_with(".rodata", ".rodata"));
    assert!(!starts_with(".rodat", ".rodata"));
    assert!(!starts_with("x.rodata", ".rodata"));
    assert!(starts_with("anything", ""));
    assert!(ends_with(".data.rel.ro", ".rel.ro"));
    assert!(ends_with(".rel.ro", ".rel.ro"));
    assert!(!ends_with(".rel.ro.x", ".rel.ro"));
    assert!(!ends_with("l.ro", ".rel.ro"));
    assert!(same_text("__divti3", "__divti3"));
    assert!(!same_text("__divti3", "__divti"));
    assert!(!same_text("__divti3", "__udivti3"));
    assert!(starts_with("héllo wörld", "héllo"));
    assert!(ends_with("héllo wörld", "wörld"));
}

#[test]
fn roc_symbols_are_told_by_their_name() {
    assert!(is_roc_symbol(&symbol(Some("roc_alloc"), 0, true)));
    assert!(is_roc_symbol(&symbol(Some("_roc_alloc"), 0, true)));
    assert!(is_roc_symbol(&symbol(Some("___roc__mainForHost_1_exposed"), 0, true)));
    assert!(!is_roc_symbol(&symbol(Some("croc_alloc"), 0, true)));
    assert!(!is_roc_symbol(&symbol(Some("roc"), 0, true)));
    assert!(!is_roc_symbol(&symbol(Some("_"), 0, true)));
    assert!(!is_roc_symbol(&symbol(Some(""), 0, true)));
    assert!(!is_roc_symbol(&symbol(None, 0, true)));
    assert!(is_roc_definition(&symbol(Some("roc_alloc"), 0, true)));
    assert!(!is_roc_definition(&symbol(Some("roc_alloc"), 0, false)));
    assert!(is_roc_undefined(&symbol(Some("roc__main"), 0, false)));
    assert!(!is_roc_undefined(&symbol(Some("roc__main"), 0, true)));
    assert!(!is_roc_undefined(&symbol(Some("main"), 0, false)));
}

#[test]
fn names_are_trimmed_and_cut() {
    assert_eq!(trim_underscores("__roc_x"), "roc_x");
    assert_eq!(trim_underscores("roc_x_"), "roc_x_");
    assert_eq!(trim_underscores("___"), "");
    assert_eq!(skip_char("__a_", '_', 0), 2);
    assert_eq!(skip_char("__a_", '_', 3), 4);
    assert_eq!(find_char("roc_alloc@GLIBC_2.2.5", '@', 0), 9);
    assert_eq!(find_char("roc_alloc", '@', 0), 9);
    assert_eq!(find_char("@@", '@', 1), 1);
}

#[test]
fn some_definitions_stand_for_libc_functions() {
    assert_eq!(libc_alias_of("roc_memcpy"), Some("memcpy".to_string()));
    assert_eq!(libc_alias_of("roc_memset"), Some("memset".to_string()));
    assert_eq!(libc_alias_of("roc_memmove"), Some("memmove".to_string()));
    assert_eq!(libc_alias_of("roc_mmap"), Some("mmap".to_string()));
    assert_eq!(libc_alias_of("roc_getppid"), Some("getppid".to_string()));
    assert_eq!(libc_alias_of("roc_shm_open"), Some("shm_open".to_string()));
    assert_eq!(libc_alias_of("roc_alloc"), None);
    assert_eq!(libc_alias_of("memcpy"), None);
}

#[test]
fn definitions_of_the_host_are_collected() {
    let symbols = vec![
        symbol(Some("main"), 1, true),
        symbol(Some("roc_alloc"), 2, true),
        symbol(Some("_roc_dealloc@VERSION_1"), 3, true),
        symbol(Some("roc_panic"), 4, false),
        symbol(Some("__roc_memcpy"), 5, true),
        symbol(None, 6, true),
        symbol(Some("roc_memset"), 7, true),
        symbol(Some("roc_alloc@@V2"), 8, true),
        symbol(Some("roc_panic"), 9, true),
    ];
    let found = collect_roc_definitions(&symbols);
    assert_eq!(
        found.entries,
        vec![
            ("roc_alloc".to_string(), 8),
            ("roc_dealloc".to_string(), 3),
            ("memcpy".to_string(), 5),
            ("roc_memcpy".to_string(), 5),
            ("memset".to_string(), 7),
            ("roc_memset".to_string(), 7),
            ("roc_panic".to_string(), 9),
        ]
    );
}

#[test]
fn a_host_exporting_the_five_primitives() {
    let names = ["roc_alloc", "roc_dealloc", "roc_panic", "roc_memcpy", "roc_memset"];
    let symbols: Vec<SymbolRecord> =
        names.iter().enumerate().map(|(i, n)| symbol(Some(n), 0x1000 + i as u64, true)).collect();
    let found = collect_roc_definitions(&symbols);
    let mut keys: Vec<&str> = found.entries.iter().map(|e| e.0.as_str()).collect();
    keys.sort_unstable();
    assert_eq!(
        keys,
        ["memcpy", "memset", "roc_alloc", "roc_dealloc", "roc_memcpy", "roc_memset", "roc_panic"]
    );
}

fn state(input: &str) -> State<'_> {
    State { input, line: 3, column: 7, indent_col: 2, is_indenting: true }
}

#[test]
fn any_takes_one_character() {
    let (next, ch) = any(&state("if x")).ok().unwrap();
    assert_eq!(ch, 'i');
    assert_eq!(next.input, "f x");
    assert_eq!((next.line, next.column, next.indent_col, next.is_indenting), (3, 7, 2, true));
    let (next, ch) = any(&state("\nx")).ok().unwrap();
    assert_eq!(ch, '\n');
    assert_eq!(next.input, "x");
    assert_eq!((next.line, next.column), (4, 0));
    let (next, ch) = any(&state("é")).ok().unwrap();
    assert_eq!(ch, 'é');
    assert_eq!(next.input, "");
    let back = any(&state("")).err().unwrap();
    assert_eq!((back.input, back.line, back.column), ("", 3, 7));
}

#[test]
fn keyword_advances_the_column() {
    let (next, _) = keyword("if", &state("if x")).ok().unwrap();
    assert_eq!(next.input, " x");
    assert_eq!((next.line, next.column, next.indent_col, next.is_indenting), (3, 9, 2, true));
    let (next, _) = keyword("é", &state("éa")).ok().unwrap();
    assert_eq!(next.input, "a");
    assert_eq!(next.column, 9);
    let back = keyword("if", &state("i")).err().unwrap();
    assert_eq!((back.input, back.line, back.column), ("i", 3, 7));
    let back = keyword("if", &state("of")).err().unwrap();
    assert_eq!(back.input, "of");
}

#[test]
fn the_last_line_and_column_can_still_be_read() {
    let at_end = State { input: "ab", line: u32::MAX, column: u32::MAX, indent_col: 1, is_indenting: false };
    let (next, ch) = any(&at_end).ok().unwrap();
    assert_eq!(ch, 'a');
    assert_eq!((next.input, next.line, next.column), ("b", u32::MAX, u32::MAX));
    let back = keyword("if", &at_end).err().unwrap();
    assert_eq!((back.input, back.line, back.column), ("ab", u32::MAX, u32::MAX));
    let empty = State { input: "", line: u32::MAX, column: u32::MAX, indent_col: 1, is_indenting: false };
    assert!(any(&empty).is_err());
    let room = State { input: "if", line: 1, column: u32::MAX - 2, indent_col: 1, is_indenting: false };
    let (next, _) = keyword("if", &room).ok().unwrap();
    assert_eq!(next.column, u32::MAX);
}
