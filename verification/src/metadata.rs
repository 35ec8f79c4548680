//! The record that carries every patch site from preprocessing to merging.

use vstd::prelude::*;
use crate::error::LinkError;
use crate::name_map::NameMap;

verus! {

/// How the value written at a patch site is computed from the final address
/// of the function the site refers to.
#[derive(Debug, Clone, Copy, PartialEq, Eq, Structural)]
pub enum VirtualOffset {
    /// The final address itself is written.
    Absolute,
    /// The distance from the given address (the address immediately after the
    /// patched instruction) to the final address is written.
    Relative(u64),
}

/// One call-site patch obligation.
#[derive(Debug, Clone, Copy, PartialEq, Eq, Structural)]
pub struct SurgeryEntry {
    /// Where to write, as an offset into the host executable before any shift.
    pub file_offset: u64,
    /// How the written value is computed.
    pub virtual_offset: VirtualOffset,
    /// The width in bytes of the operand to overwrite.
    pub size: u8,
}

/// Everything preprocessing learns about a host executable and merging needs.
///
/// A value is meaningful only together with the preprocessed binary it was
/// derived from.
#[derive(Debug, Clone, PartialEq, Eq)]
pub struct Metadata {
    /// Names of the symbols the host requires the application to define.
    pub app_functions: Vec<String>,
    /// Symbol name to (file offset, virtual address) of its stub in the
    /// procedure linkage table.
    pub plt_addresses: NameMap<(u64, u64)>,
    /// Symbol name to the patch sites that refer to it.
    pub surgeries: NameMap<Vec<SurgeryEntry>>,
    /// Symbol name to its index in the dynamic symbol table.
    pub dynamic_symbol_indices: NameMap<u64>,
    /// Symbol name to its index in the static symbol table.
    pub static_symbol_indices: NameMap<u64>,
    /// Host-defined symbol name to its virtual address.
    pub roc_symbol_vaddresses: NameMap<u64>,
    /// Total length of the preprocessed binary.
    pub exec_len: u64,
    /// Alignment of the first load segment.
    pub load_align_constraint: u64,
    /// First virtual address after the relocated relocation table.
    pub last_vaddr: u64,
    /// File offset of the dynamic table before any shift.
    pub dynamic_section_offset: u64,
    /// Number of entries of the dynamic table after preprocessing.
    pub dynamic_section_count: u64,
    /// File offset of the dynamic symbol table before any shift.
    pub dynamic_symbol_table_section_offset: u64,
    /// File offset of the static symbol table before any shift.
    pub symbol_table_section_offset: u64,
    /// Size in bytes of the static symbol table.
    pub symbol_table_size: u64,
    /// File offset of the relocation table before it was relocated.
    pub original_rela_paddr: u64,
    /// Virtual address of the relocation table before it was relocated.
    pub original_rela_vaddr: u64,
    /// File offset of the relocated relocation table, not counting the header shift.
    pub new_rela_paddr: u64,
    /// Virtual address of the relocated relocation table, not counting the header shift.
    pub new_rela_vaddr: u64,
    /// Size in bytes of the relocation table.
    pub rela_size: u64,
    /// Index of the section header that describes the relocation table.
    pub rela_section_index: u64,
    /// File offset from which everything is shifted to make room for new program headers.
    pub ph_physical_shift_start: u64,
    /// Virtual address from which everything is shifted.
    pub ph_virtual_shift_start: u64,
    /// Number of bytes inserted after the program header table.
    pub ph_shift_bytes: u64,
}

/// The numbers of the metadata: the lengths, offsets, addresses and counts
/// that describe the preprocessed binary, without the tables.
pub struct Geometry {
    pub exec_len: u64,
    pub load_align_constraint: u64,
    pub last_vaddr: u64,
    pub dynamic_section_offset: u64,
    pub dynamic_section_count: u64,
    pub dynamic_symbol_table_section_offset: u64,
    pub symbol_table_section_offset: u64,
    pub symbol_table_size: u64,
    pub original_rela_paddr: u64,
    pub original_rela_vaddr: u64,
    pub new_rela_paddr: u64,
    pub new_rela_vaddr: u64,
    pub rela_size: u64,
    pub rela_section_index: u64,
    pub ph_physical_shift_start: u64,
    pub ph_virtual_shift_start: u64,
    pub ph_shift_bytes: u64,
}

impl Geometry {
    /// All numbers zero.
    pub open spec fn zero() -> Geometry {
        Geometry {
            exec_len: 0,
            load_align_constraint: 0,
            last_vaddr: 0,
            dynamic_section_offset: 0,
            dynamic_section_count: 0,
            dynamic_symbol_table_section_offset: 0,
            symbol_table_section_offset: 0,
            symbol_table_size: 0,
            original_rela_paddr: 0,
            original_rela_vaddr: 0,
            new_rela_paddr: 0,
            new_rela_vaddr: 0,
            rela_size: 0,
            rela_section_index: 0,
            ph_physical_shift_start: 0,
            ph_virtual_shift_start: 0,
            ph_shift_bytes: 0,
        }
    }
}

impl Metadata {
    /// The numbers of the metadata.
    pub open spec fn geometry(self) -> Geometry {
        Geometry {
            exec_len: self.exec_len,
            load_align_constraint: self.load_align_constraint,
            last_vaddr: self.last_vaddr,
            dynamic_section_offset: self.dynamic_section_offset,
            dynamic_section_count: self.dynamic_section_count,
            dynamic_symbol_table_section_offset: self.dynamic_symbol_table_section_offset,
            symbol_table_section_offset: self.symbol_table_section_offset,
            symbol_table_size: self.symbol_table_size,
            original_rela_paddr: self.original_rela_paddr,
            original_rela_vaddr: self.original_rela_vaddr,
            new_rela_paddr: self.new_rela_paddr,
            new_rela_vaddr: self.new_rela_vaddr,
            rela_size: self.rela_size,
            rela_section_index: self.rela_section_index,
            ph_physical_shift_start: self.ph_physical_shift_start,
            ph_virtual_shift_start: self.ph_virtual_shift_start,
            ph_shift_bytes: self.ph_shift_bytes,
        }
    }

    /// True when the tables of `other` are the tables of this record.
    pub open spec fn same_tables(self, other: Metadata) -> bool {
        &&& self.app_functions == other.app_functions
        &&& self.plt_addresses == other.plt_addresses
        &&& self.surgeries == other.surgeries
        &&& self.dynamic_symbol_indices == other.dynamic_symbol_indices
        &&& self.static_symbol_indices == other.static_symbol_indices
        &&& self.roc_symbol_vaddresses == other.roc_symbol_vaddresses
    }

    /// Every name-keyed table holds each name once.
    pub open spec fn wf(self) -> bool {
        &&& self.plt_addresses.wf()
        &&& self.surgeries.wf()
        &&& self.dynamic_symbol_indices.wf()
        &&& self.static_symbol_indices.wf()
        &&& self.roc_symbol_vaddresses.wf()
    }

    /// The patch sites recorded under `name`; none when the name is unknown.
    pub open spec fn sites(self, name: Seq<char>) -> Seq<SurgeryEntry> {
        if self.surgeries.lists().dom().contains(name) {
            self.surgeries.lists()[name]
        } else {
            Seq::empty()
        }
    }

    /// True when `name` is one of the functions the application must define.
    pub open spec fn requires_function(self, name: Seq<char>) -> bool {
        exists|i: int| 0 <= i < self.app_functions@.len() && #[trigger] self.app_functions@[i]@ == name
    }

    /// True for a record with empty tables and all geometry fields zero.
    pub open spec fn is_fresh(self) -> bool {
        &&& self.wf()
        &&& self.app_functions@.len() == 0
        &&& self.plt_addresses.entries@.len() == 0
        &&& self.surgeries.entries@.len() == 0
        &&& self.dynamic_symbol_indices.entries@.len() == 0
        &&& self.static_symbol_indices.entries@.len() == 0
        &&& self.roc_symbol_vaddresses.entries@.len() == 0
        &&& self.exec_len == 0
        &&& self.load_align_constraint == 0
        &&& self.last_vaddr == 0
        &&& self.dynamic_section_offset == 0
        &&& self.dynamic_section_count == 0
        &&& self.dynamic_symbol_table_section_offset == 0
        &&& self.symbol_table_section_offset == 0
        &&& self.symbol_table_size == 0
        &&& self.original_rela_paddr == 0
        &&& self.original_rela_vaddr == 0
        &&& self.new_rela_paddr == 0
        &&& self.new_rela_vaddr == 0
        &&& self.rela_size == 0
        &&& self.rela_section_index == 0
        &&& self.ph_physical_shift_start == 0
        &&& self.ph_virtual_shift_start == 0
        &&& self.ph_shift_bytes == 0
    }

    /// A record with empty tables and all geometry fields zero.
    pub fn new() -> (r: Self)
        ensures
            r.is_fresh(),
    {
        Metadata {
            app_functions: Vec::new(),
            plt_addresses: NameMap::new(),
            surgeries: NameMap::new(),
            dynamic_symbol_indices: NameMap::new(),
            static_symbol_indices: NameMap::new(),
            roc_symbol_vaddresses: NameMap::new(),
            exec_len: 0,
            load_align_constraint: 0,
            last_vaddr: 0,
            dynamic_section_offset: 0,
            dynamic_section_count: 0,
            dynamic_symbol_table_section_offset: 0,
            symbol_table_section_offset: 0,
            symbol_table_size: 0,
            original_rela_paddr: 0,
            original_rela_vaddr: 0,
            new_rela_paddr: 0,
            new_rela_vaddr: 0,
            rela_size: 0,
            rela_section_index: 0,
            ph_physical_shift_start: 0,
            ph_virtual_shift_start: 0,
            ph_shift_bytes: 0,
        }
    }

    /// Checks that every name-keyed table holds each name once.
    pub fn is_well_formed(&self) -> (r: bool)
        ensures
            r == self.wf(),
    {
        self.plt_addresses.is_well_formed() && self.surgeries.is_well_formed()
            && self.dynamic_symbol_indices.is_well_formed()
            && self.static_symbol_indices.is_well_formed()
            && self.roc_symbol_vaddresses.is_well_formed()
    }

    /// True when `name` is one of the functions the application must define.
    pub fn is_app_function(&self, name: &String) -> (r: bool)
        ensures
            r == self.requires_function(name@),
    {
        let n: usize = self.app_functions.len();
        let mut i: usize = 0;
        while i < n
            invariant
                i <= n,
                n == self.app_functions@.len(),
                forall|j: int| 0 <= j < i ==> self.app_functions@[j]@ != name@,
            decreases n - i,
        {
            if self.app_functions[i] == *name {
                return true;
            }
            i += 1;
        }
        false
    }
}

impl NameMap<Vec<SurgeryEntry>> {
    /// The patch sites recorded under each name.
    pub open spec fn lists(self) -> Map<Seq<char>, Seq<SurgeryEntry>> {
        Map::new(
            |name: Seq<char>| self.has(name),
            |name: Seq<char>| self.entries@[self.position(name)].1@,
        )
    }

    /// Appends `entry` to the patch sites recorded under `name`.
    pub fn add_site(&mut self, name: &String, entry: SurgeryEntry) -> (r: Result<(), LinkError>)
        requires
            old(self).wf(),
        ensures
            final(self).wf(),
            final(self).names() == old(self).names(),
            match r {
                Ok(_) => with_site(old(self).lists(), name@, entry) == Ok::<
                    Map<Seq<char>, Seq<SurgeryEntry>>,
                    LinkError,
                >(final(self).lists()),
                Err(e) => with_site(old(self).lists(), name@, entry) == Err::<
                    Map<Seq<char>, Seq<SurgeryEntry>>,
                    LinkError,
                >(e) && *final(self) == *old(self),
            },
    {
        let ghost before = *self;
        match self.find(name) {
            None => Err(LinkError::UnknownSymbol),
            Some(i) => {
                self.entries[i].1.push(entry);
                proof {
                    let after = *self;
                    assert(after.entries@.len() == before.entries@.len());
                    assert(forall|j: int|
                        0 <= j < after.entries@.len() ==> after.entries@[j].0@
                            == before.entries@[j].0@);
                    assert(after.wf());
                    assert forall|other: Seq<char>| after.has(other) == before.has(other) by {
                        if before.has(other) {
                            let p = before.position(other);
                            assert(after.entries@[p].0@ == other);
                        }
                        if after.has(other) {
                            let p = after.position(other);
                            assert(before.entries@[p].0@ == other);
                        }
                    }
                    assert forall|other: Seq<char>| after.has(other) implies after.position(other)
                        == before.position(other) by {
                        let p = before.position(other);
                        assert(after.entries@[p].0@ == other);
                        after.lemma_position(p);
                    }
                    after.lemma_position(i as int);
                    assert(forall|j: int|
                        0 <= j < after.entries@.len() && j != i ==> after.entries@[j]
                            == before.entries@[j]);
                    assert(after.lists() =~= before.lists().insert(
                        name@,
                        before.lists()[name@].push(entry),
                    ));
                    assert(after.names() =~= before.names());
                }
                Ok(())
            },
        }
    }
}

/// The lists of patch sites with `entry` appended to the list of `name`,
/// which must exist.
pub open spec fn with_site(
    lists: Map<Seq<char>, Seq<SurgeryEntry>>,
    name: Seq<char>,
    entry: SurgeryEntry,
) -> Result<Map<Seq<char>, Seq<SurgeryEntry>>, LinkError> {
    if lists.dom().contains(name) {
        Ok(lists.insert(name, lists[name].push(entry)))
    } else {
        Err(LinkError::UnknownSymbol)
    }
}

impl Default for Metadata {
    fn default() -> (r: Self)
        ensures
            r.is_fresh(),
    {
        Metadata::new()
    }
}

} // verus!
