//! What surgical linking reads from a parsed object file, as plain values.

use vstd::prelude::*;

verus! {

/// How the value of a relocation is computed.
#[derive(Debug, Clone, Copy, PartialEq, Eq, Structural)]
pub enum RelocKind {
    /// The address of the symbol plus the addend.
    Absolute,
    /// The address of the symbol plus the addend, less the address of the place.
    Relative,
    /// The address of the symbol's linkage-table entry plus the addend, less
    /// the address of the place.
    PltRelative,
    /// A relocation type of the ELF format that has no general meaning.
    Elf(u32),
    /// Any other kind.
    Other,
}

/// One relocation.
#[derive(Debug, Clone, Copy, PartialEq, Eq, Structural)]
pub struct RelocationRecord {
    /// Offset of the place inside its section (for a dynamic relocation, its address).
    pub offset: u64,
    pub kind: RelocKind,
    /// Index of the symbol that the relocation refers to; `None` when it
    /// refers to a section or to an absolute address.
    pub symbol: Option<u64>,
    pub addend: i64,
    /// Width of the place in bits.
    pub size: u8,
}

/// One symbol.
#[derive(Debug, Clone, PartialEq, Eq)]
pub struct SymbolRecord {
    /// Index in the symbol table.
    pub index: u64,
    /// The name; `None` when it is not valid text.
    pub name: Option<String>,
    pub address: u64,
    pub size: u64,
    /// Index of the section in which the symbol is defined, if it is defined in one.
    pub section: Option<u64>,
    pub is_definition: bool,
    pub is_undefined: bool,
}

/// How the contents of a section are stored in the file.
#[derive(Debug, Clone, Copy, PartialEq, Eq, Structural)]
pub enum Storage {
    /// As they are.
    Plain,
    /// Compressed.
    Compressed,
    /// The section is marked as compressed, but how could not be made sense of.
    Unreadable,
}

/// One section.
#[derive(Debug, Clone, PartialEq, Eq)]
pub struct SectionRecord {
    /// Index in the section table.
    pub index: u64,
    /// The name; empty when it is not valid text.
    pub name: String,
    pub address: u64,
    /// Size in memory.
    pub size: u64,
    /// True for sections that hold code.
    pub is_text: bool,
}

/// A section of the application object with its contents and relocations.
#[derive(Debug, Clone, PartialEq, Eq)]
pub struct AppSection {
    /// Index in the section table.
    pub index: u64,
    pub name: String,
    /// Size in memory.
    pub size: u64,
    /// Size in the file.
    pub file_size: u64,
    /// The bytes stored in the file.
    pub data: Vec<u8>,
    pub relocations: Vec<RelocationRecord>,
}

/// A section of the application as mathematical values.
pub struct AppSectionView {
    pub index: u64,
    pub name: Seq<char>,
    pub size: u64,
    pub file_size: u64,
    pub data: Seq<u8>,
    pub relocations: Seq<RelocationRecord>,
}

impl AppSection {
    /// The section with its name, contents and relocations as sequences.
    pub open spec fn view(self) -> AppSectionView {
        AppSectionView {
            index: self.index,
            name: self.name@,
            size: self.size,
            file_size: self.file_size,
            data: self.data@,
            relocations: self.relocations@,
        }
    }
}

/// The view of each section.
pub open spec fn section_views(sections: Seq<AppSection>) -> Seq<AppSectionView> {
    Seq::new(sections.len(), |i: int| sections[i]@)
}

/// The name of a symbol, empty when it has none.
pub open spec fn symbol_name(sym: SymbolRecord) -> Seq<char> {
    match sym.name {
        Some(n) => n@,
        None => Seq::empty(),
    }
}

/// The name of a symbol, empty when it has none.
pub fn name_of(sym: &SymbolRecord) -> (r: String)
    ensures
        r@ == symbol_name(*sym),
{
    match &sym.name {
        Some(n) => n.clone(),
        None => String::new(),
    }
}

/// The position in `symbols[k..]` of the first symbol with the index `index`.
pub open spec fn symbol_position(symbols: Seq<SymbolRecord>, index: u64, k: int) -> Option<usize>
    decreases symbols.len() - k,
{
    if k < 0 || k >= symbols.len() {
        None
    } else if symbols[k].index == index {
        Some(k as usize)
    } else {
        symbol_position(symbols, index, k + 1)
    }
}

/// Finds the symbol with the index `index`.
pub fn find_symbol(symbols: &Vec<SymbolRecord>, index: u64) -> (r: Option<usize>)
    ensures
        r == symbol_position(symbols@, index, 0),
        r is Some ==> r->Some_0 < symbols@.len(),
{
    let n: usize = symbols.len();
    let mut k: usize = 0;
    while k < n
        invariant
            k <= n,
            n == symbols@.len(),
            symbol_position(symbols@, index, 0) == symbol_position(symbols@, index, k as int),
        decreases n - k,
    {
        if symbols[k].index == index {
            return Some(k);
        }
        k += 1;
    }
    None
}

/// A position that is found is a position of the list, from `k` on, and
/// holds a symbol with the index that was looked for.
pub proof fn lemma_symbol_position_in_range(symbols: Seq<SymbolRecord>, index: u64, k: int)
    requires
        0 <= k,
        symbols.len() <= usize::MAX,
        symbol_position(symbols, index, k) is Some,
    ensures
        k <= symbol_position(symbols, index, k)->Some_0 < symbols.len(),
        symbols[symbol_position(symbols, index, k)->Some_0 as int].index == index,
    decreases symbols.len() - k,
{
    if k < symbols.len() && symbols[k].index != index {
        lemma_symbol_position_in_range(symbols, index, k + 1);
    }
}

} // verus!
