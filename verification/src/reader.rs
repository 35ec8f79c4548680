//! Reading of object files.
//!
//! The functions of this module hand out, as plain values, what the `object`
//! crate finds in an object file. Their contracts are not proved: each says
//! only that what is handed out depends on nothing but the bytes of the file
//! and the section asked for.

use object::{
    CompressionFormat, Object, ObjectSection, ObjectSymbol, RelocationKind, RelocationTarget,
    SectionIndex, SectionKind,
};
use vstd::prelude::*;
use crate::error::LinkError;
use crate::object_file::{RelocationRecord, RelocKind, SectionRecord, Storage, SymbolRecord};

verus! {

/// Where the contents of a section are stored.
#[derive(Debug, Clone, Copy, PartialEq, Eq, Structural)]
pub struct StoredRange {
    pub storage: Storage,
    /// File offset of the stored contents.
    pub offset: u64,
    /// Size of the contents once uncompressed.
    pub uncompressed_size: u64,
}

/// What a reader hands out, as a mathematical sequence.
pub open spec fn listed<T>(r: Option<Vec<T>>) -> Option<Seq<T>> {
    match r {
        Some(v) => Some(v@),
        None => None,
    }
}

/// The sections that `object::Object::sections` yields for the file `data`;
/// `None` when `object::File::parse` rejects the file.
pub uninterp spec fn parsed_sections(data: Seq<u8>) -> Option<Seq<SectionRecord>>;

/// The file offset and size that `object::ObjectSection::file_range` gives
/// for the section `index` of the file `data`; the outer `None` when the file
/// or the index is rejected.
pub uninterp spec fn section_file_range(data: Seq<u8>, index: u64) -> Option<Option<(u64, u64)>>;

/// What `object::ObjectSection::compressed_file_range` gives for the section
/// `index` of the file `data`; `None` when the file or the index is rejected.
pub uninterp spec fn section_stored_range(data: Seq<u8>, index: u64) -> Option<StoredRange>;

/// The bytes that `object::ObjectSection::data` gives for the section
/// `index` of the file `data`; `None` when it fails.
pub uninterp spec fn section_data(data: Seq<u8>, index: u64) -> Option<Seq<u8>>;

/// The bytes that `object::ObjectSection::uncompressed_data` gives for the
/// section `index` of the file `data`; `None` when it fails.
pub uninterp spec fn section_uncompressed_data(data: Seq<u8>, index: u64) -> Option<Seq<u8>>;

/// The relocations that `object::ObjectSection::relocations` yields for the
/// section `index` of the file `data`; `None` when the file or the index is rejected.
pub uninterp spec fn section_relocations(data: Seq<u8>, index: u64) -> Option<Seq<RelocationRecord>>;

/// The symbols that `object::Object::symbols` yields for the file `data`.
pub uninterp spec fn parsed_symbols(data: Seq<u8>) -> Option<Seq<SymbolRecord>>;

/// The symbols that `object::Object::dynamic_symbols` yields for the file `data`.
pub uninterp spec fn parsed_dynamic_symbols(data: Seq<u8>) -> Option<Seq<SymbolRecord>>;

/// The relocations that `object::Object::dynamic_relocations` yields for the
/// file `data`; `None` when the file is rejected or has none.
pub uninterp spec fn parsed_dynamic_relocations(data: Seq<u8>) -> Option<Seq<RelocationRecord>>;

/// Calls `object::File::parse` and `object::Object::sections`, and hands
/// out index, name, address, size and kind of each section. An unreadable
/// name is handed out as the empty name. Unproved: the result is a function
/// of the bytes of the file.
#[verifier::external_body]
pub(crate) fn read_sections(data: &[u8]) -> (r: Option<Vec<SectionRecord>>)
    ensures
        listed(r) == parsed_sections(data@),
{
    let file = object::File::parse(data).ok()?;
    Some(file.sections().map(|s| SectionRecord {
        index: s.index().0 as u64,
        name: s.name().unwrap_or_default().to_string(),
        address: s.address(),
        size: s.size(),
        is_text: s.kind() == SectionKind::Text,
    }).collect())
}

/// Calls `object::ObjectSection::file_range` on the section `index`.
/// Unproved: the result is a function of the bytes of the file and the index.
#[verifier::external_body]
pub(crate) fn read_file_range(data: &[u8], index: u64) -> (r: Option<Option<(u64, u64)>>)
    ensures
        r == section_file_range(data@, index),
{
    let file = object::File::parse(data).ok()?;
    let section = file.section_by_index(SectionIndex(index as usize)).ok()?;
    Some(section.file_range())
}

/// Calls `object::ObjectSection::compressed_file_range` on the section
/// `index`. A failure of that call is handed out as unreadable storage.
/// Unproved: the result is a function of the bytes of the file and the index.
#[verifier::external_body]
pub(crate) fn read_stored_range(data: &[u8], index: u64) -> (r: Option<StoredRange>)
    ensures
        r == section_stored_range(data@, index),
{
    let file = object::File::parse(data).ok()?;
    let section = file.section_by_index(SectionIndex(index as usize)).ok()?;
    Some(match section.compressed_file_range() {
        Ok(range) => StoredRange {
            storage: match range.format {
                CompressionFormat::None => Storage::Plain,
                _ => Storage::Compressed,
            },
            offset: range.offset,
            uncompressed_size: range.uncompressed_size,
        },
        Err(_) => StoredRange { storage: Storage::Unreadable, offset: 0, uncompressed_size: 0 },
    })
}

/// Calls `object::ObjectSection::data` on the section `index`. Unproved:
/// the result is a function of the bytes of the file and the index.
#[verifier::external_body]
pub(crate) fn read_section_data(data: &[u8], index: u64) -> (r: Option<Vec<u8>>)
    ensures
        listed(r) == section_data(data@, index),
{
    let file = object::File::parse(data).ok()?;
    let section = file.section_by_index(SectionIndex(index as usize)).ok()?;
    section.data().ok().map(|bytes| bytes.to_vec())
}

/// Calls `object::ObjectSection::uncompressed_data` on the section `index`.
/// Unproved: the result is a function of the bytes of the file and the index.
#[verifier::external_body]
pub(crate) fn read_uncompressed_data(data: &[u8], index: u64) -> (r: Option<Vec<u8>>)
    ensures
        listed(r) == section_uncompressed_data(data@, index),
{
    let file = object::File::parse(data).ok()?;
    let section = file.section_by_index(SectionIndex(index as usize)).ok()?;
    section.uncompressed_data().ok().map(|bytes| bytes.into_owned())
}

/// Calls `object::ObjectSection::relocations` on the section `index` and
/// hands out offset, kind, target symbol, addend and width of each
/// relocation. Unproved: the result is a function of the bytes of the file
/// and the index.
#[verifier::external_body]
pub(crate) fn read_relocations(data: &[u8], index: u64) -> (r: Option<Vec<RelocationRecord>>)
    ensures
        listed(r) == section_relocations(data@, index),
{
    let file = object::File::parse(data).ok()?;
    let section = file.section_by_index(SectionIndex(index as usize)).ok()?;
    Some(section.relocations().map(|(offset, r)| RelocationRecord {
        offset,
        kind: match r.kind() {
            RelocationKind::Absolute => RelocKind::Absolute,
            RelocationKind::Relative => RelocKind::Relative,
            RelocationKind::PltRelative => RelocKind::PltRelative,
            RelocationKind::Elf(n) => RelocKind::Elf(n),
            _ => RelocKind::Other,
        },
        symbol: match r.target() { RelocationTarget::Symbol(i) => Some(i.0 as u64), _ => None },
        addend: r.addend(),
        size: r.size(),
    }).collect())
}

/// Calls `object::Object::symbols` and hands out index, name, address, size,
/// section and the two definedness flags of each symbol. Unproved: the result
/// is a function of the bytes of the file.
#[verifier::external_body]
pub(crate) fn read_symbols(data: &[u8]) -> (r: Option<Vec<SymbolRecord>>)
    ensures
        listed(r) == parsed_symbols(data@),
{
    let file = object::File::parse(data).ok()?;
    Some(file.symbols().map(|s| SymbolRecord {
        index: s.index().0 as u64,
        name: s.name().ok().map(|n| n.to_string()),
        address: s.address(),
        size: s.size(),
        section: s.section().index().map(|i| i.0 as u64),
        is_definition: s.is_definition(),
        is_undefined: s.is_undefined(),
    }).collect())
}

/// Calls `object::Object::dynamic_symbols` and hands out the same fields as
/// `read_symbols`. Unproved: the result is a function of the bytes of the file.
#[verifier::external_body]
pub(crate) fn read_dynamic_symbols(data: &[u8]) -> (r: Option<Vec<SymbolRecord>>)
    ensures
        listed(r) == parsed_dynamic_symbols(data@),
{
    let file = object::File::parse(data).ok()?;
    Some(file.dynamic_symbols().map(|s| SymbolRecord {
        index: s.index().0 as u64,
        name: s.name().ok().map(|n| n.to_string()),
        address: s.address(),
        size: s.size(),
        section: s.section().index().map(|i| i.0 as u64),
        is_definition: s.is_definition(),
        is_undefined: s.is_undefined(),
    }).collect())
}

/// Calls `object::Object::dynamic_relocations` and hands out the same fields
/// as `read_relocations`. Unproved: the result is a function of the bytes of
/// the file.
#[verifier::external_body]
pub(crate) fn read_dynamic_relocations(data: &[u8]) -> (r: Option<Vec<RelocationRecord>>)
    ensures
        listed(r) == parsed_dynamic_relocations(data@),
{
    let file = object::File::parse(data).ok()?;
    Some(file.dynamic_relocations()?.map(|(offset, r)| RelocationRecord {
        offset,
        kind: match r.kind() {
            RelocationKind::Absolute => RelocKind::Absolute,
            RelocationKind::Relative => RelocKind::Relative,
            RelocationKind::PltRelative => RelocKind::PltRelative,
            RelocationKind::Elf(n) => RelocKind::Elf(n),
            _ => RelocKind::Other,
        },
        symbol: match r.target() { RelocationTarget::Symbol(i) => Some(i.0 as u64), _ => None },
        addend: r.addend(),
        size: r.size(),
    }).collect())
}

/// The symbols of the static symbol table of the object file `data`.
pub fn load_symbols(data: &[u8]) -> (r: Result<Vec<SymbolRecord>, LinkError>)
    ensures
        match r {
            Ok(symbols) => parsed_symbols(data@) == Some(symbols@),
            Err(e) => parsed_symbols(data@).is_none() && e == LinkError::InvalidObject,
        },
{
    match read_symbols(data) {
        Some(symbols) => Ok(symbols),
        None => Err(LinkError::InvalidObject),
    }
}

/// The symbols of the dynamic symbol table of the object file `data`.
pub fn load_dynamic_symbols(data: &[u8]) -> (r: Result<Vec<SymbolRecord>, LinkError>)
    ensures
        match r {
            Ok(symbols) => parsed_dynamic_symbols(data@) == Some(symbols@),
            Err(e) => parsed_dynamic_symbols(data@).is_none() && e == LinkError::InvalidObject,
        },
{
    match read_dynamic_symbols(data) {
        Some(symbols) => Ok(symbols),
        None => Err(LinkError::InvalidObject),
    }
}

} // verus!
