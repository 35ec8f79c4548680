//! The symbols through which host and application refer to each other.
//!
//! They are told apart by name: after any leading underscores, the name of
//! such a symbol begins with `roc_`.

use vstd::prelude::*;
use vstd::string::{StringExecFns, StrSliceExecFns};
use crate::name_map::NameMap;
use crate::names::{same_text, starts_with};
use crate::object_file::SymbolRecord;

verus! {

/// The position of the first character of `s[k..]` that is not `c`; the
/// length of `s` when there is none.
pub open spec fn first_other(s: Seq<char>, c: char, k: int) -> int
    decreases s.len() - k,
{
    if k < 0 || k >= s.len() || s[k] != c {
        k
    } else {
        first_other(s, c, k + 1)
    }
}

/// The position of the first `c` in `s[k..]`; the length of `s` when there is none.
pub open spec fn first_of(s: Seq<char>, c: char, k: int) -> int
    decreases s.len() - k,
{
    if k < 0 || k >= s.len() || s[k] == c {
        k
    } else {
        first_of(s, c, k + 1)
    }
}

/// `s` without its leading underscores.
pub open spec fn trimmed(s: Seq<char>) -> Seq<char> {
    s.subrange(first_other(s, '_', 0), s.len() as int)
}

/// True for the names of the symbols through which host and application
/// refer to each other.
pub open spec fn is_roc_name(s: Seq<char>) -> bool {
    "roc_"@.is_prefix_of(trimmed(s))
}

/// The name under which a definition of the host is recorded: the name of
/// the symbol without leading underscores and without a version suffix,
/// which starts at the first `@`.
pub open spec fn definition_name(s: Seq<char>) -> Seq<char> {
    trimmed(s).subrange(0, first_of(trimmed(s), '@', 0))
}

/// True when the symbol has a name and it is one of those names.
pub open spec fn roc_symbol(sym: SymbolRecord) -> bool {
    match sym.name {
        Some(n) => is_roc_name(n@),
        None => false,
    }
}

/// True for the symbols that the host defines for the application.
pub open spec fn roc_definition(sym: SymbolRecord) -> bool {
    sym.is_definition && roc_symbol(sym)
}

/// True for the symbols that the host expects from the application.
pub open spec fn roc_undefined(sym: SymbolRecord) -> bool {
    sym.is_undefined && roc_symbol(sym)
}

/// The name of the C library function that a definition of the host also
/// stands for, if it stands for one.
pub open spec fn libc_alias(name: Seq<char>) -> Option<Seq<char>> {
    if name == "roc_memcpy"@ {
        Some("memcpy"@)
    } else if name == "roc_memset"@ {
        Some("memset"@)
    } else if name == "roc_memmove"@ {
        Some("memmove"@)
    } else if name == "roc_mmap"@ {
        Some("mmap"@)
    } else if name == "roc_getppid"@ {
        Some("getppid"@)
    } else if name == "roc_shm_open"@ {
        Some("shm_open"@)
    } else {
        None
    }
}

/// The addresses `acc` with those of the definitions among `symbols[k..]`
/// added, each under its definition name and under its alias if it has one.
/// A later definition of a name replaces an earlier one.
pub open spec fn definitions(symbols: Seq<SymbolRecord>, k: int, acc: Map<Seq<char>, u64>) -> Map<
    Seq<char>,
    u64,
>
    decreases symbols.len() - k,
{
    if k < 0 || k >= symbols.len() {
        acc
    } else if !roc_definition(symbols[k]) {
        definitions(symbols, k + 1, acc)
    } else {
        let name = definition_name(symbols[k].name->Some_0@);
        let aliased = match libc_alias(name) {
            Some(alias) => acc.insert(alias, symbols[k].address),
            None => acc,
        };
        definitions(symbols, k + 1, aliased.insert(name, symbols[k].address))
    }
}

/// Finds the first character of `s[k..]` that is not `c`.
pub fn skip_char(s: &str, c: char, k: usize) -> (r: usize)
    requires
        k <= s@.len(),
    ensures
        r == first_other(s@, c, k as int),
        k <= r <= s@.len(),
{
    let n: usize = s.unicode_len();
    let mut i: usize = k;
    while i < n && s.get_char(i) == c
        invariant
            k <= i <= n,
            n == s@.len(),
            first_other(s@, c, k as int) == first_other(s@, c, i as int),
        decreases n - i,
    {
        i += 1;
    }
    i
}

/// Finds the first `c` in `s[k..]`.
pub fn find_char(s: &str, c: char, k: usize) -> (r: usize)
    requires
        k <= s@.len(),
    ensures
        r == first_of(s@, c, k as int),
        k <= r <= s@.len(),
{
    let n: usize = s.unicode_len();
    let mut i: usize = k;
    while i < n && s.get_char(i) != c
        invariant
            k <= i <= n,
            n == s@.len(),
            first_of(s@, c, k as int) == first_of(s@, c, i as int),
        decreases n - i,
    {
        i += 1;
    }
    i
}

/// `name` without its leading underscores.
pub fn trim_underscores(name: &str) -> (r: &str)
    ensures
        r@ == trimmed(name@),
{
    let start: usize = skip_char(name, '_', 0);
    name.substring_char(start, name.unicode_len())
}

/// True when `sym` is a symbol through which host and application refer to
/// each other.
pub fn is_roc_symbol(sym: &SymbolRecord) -> (r: bool)
    ensures
        r == roc_symbol(*sym),
{
    match &sym.name {
        Some(name) => starts_with(trim_underscores(name.as_str()), "roc_"),
        None => false,
    }
}

/// True when the host defines `sym` for the application.
pub fn is_roc_definition(sym: &SymbolRecord) -> (r: bool)
    ensures
        r == roc_definition(*sym),
{
    sym.is_definition && is_roc_symbol(sym)
}

/// True when the host expects `sym` from the application.
pub fn is_roc_undefined(sym: &SymbolRecord) -> (r: bool)
    ensures
        r == roc_undefined(*sym),
{
    sym.is_undefined && is_roc_symbol(sym)
}

/// The name of the C library function that `name` also stands for.
pub fn libc_alias_of(name: &str) -> (r: Option<String>)
    ensures
        match r {
            Some(alias) => libc_alias(name@) == Some(alias@),
            None => libc_alias(name@).is_none(),
        },
{
    if same_text(name, "roc_memcpy") {
        Some(String::from_str("memcpy"))
    } else if same_text(name, "roc_memset") {
        Some(String::from_str("memset"))
    } else if same_text(name, "roc_memmove") {
        Some(String::from_str("memmove"))
    } else if same_text(name, "roc_mmap") {
        Some(String::from_str("mmap"))
    } else if same_text(name, "roc_getppid") {
        Some(String::from_str("getppid"))
    } else if same_text(name, "roc_shm_open") {
        Some(String::from_str("shm_open"))
    } else {
        None
    }
}

/// The addresses of the symbols that the host defines for the application.
pub fn collect_roc_definitions(symbols: &Vec<SymbolRecord>) -> (vaddresses: NameMap<u64>)
    ensures
        vaddresses.wf(),
        vaddresses@ == definitions(symbols@, 0, Map::empty()),
{
    let mut vaddresses: NameMap<u64> = NameMap::new();
    let n: usize = symbols.len();
    let mut k: usize = 0;
    while k < n
        invariant
            k <= n,
            n == symbols@.len(),
            vaddresses.wf(),
            definitions(symbols@, 0, Map::empty()) == definitions(symbols@, k as int, vaddresses@),
        decreases n - k,
    {
        if is_roc_definition(&symbols[k]) {
            match &symbols[k].name {
                Some(full) => {
                    let short = trim_underscores(full.as_str());
                    let until: usize = find_char(short, '@', 0);
                    let name = String::from_str(short.substring_char(0, until));
                    let address: u64 = symbols[k].address;
                    match libc_alias_of(name.as_str()) {
                        Some(alias) => {
                            vaddresses.insert(alias, address);
                        },
                        None => {},
                    }
                    vaddresses.insert(name, address);
                },
                None => {},
            }
        }
        k += 1;
    }
    vaddresses
}

} // verus!
