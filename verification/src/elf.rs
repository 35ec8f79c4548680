//! Layout of the records of a 64-bit little-endian ELF file.
//!
//! Only what surgical linking reads or writes is listed: the size of each
//! record, the offset of each field inside its record, and the values of the
//! type codes and tags that are told apart.

use vstd::prelude::*;
use crate::bytes::{
    fits, put_u32, put_u64, read_u16, read_u64, u16_at, u64_at, write_u32, write_u64,
};
use crate::error::LinkError;

verus! {

/// Size of the file header.
pub const FILE_HEADER_SIZE: usize = 64;

/// Offset of the class byte in the file header; 2 means 64-bit.
pub const EI_CLASS: usize = 4;

/// Offset of the data-encoding byte in the file header; 1 means little-endian.
pub const EI_DATA: usize = 5;

// Values of the class and data-encoding bytes.
pub const ELFCLASS64: u8 = 2;

pub const ELFDATA2LSB: u8 = 1;

// Offsets of the fields of the file header.
pub const E_ENTRY: usize = 24;

pub const E_PHOFF: usize = 32;

pub const E_SHOFF: usize = 40;

pub const E_PHENTSIZE: usize = 54;

pub const E_PHNUM: usize = 56;

pub const E_SHENTSIZE: usize = 58;

pub const E_SHNUM: usize = 60;

/// Size of a program header.
pub const PROGRAM_HEADER_SIZE: usize = 56;

// Offsets of the fields of a program header.
pub const P_TYPE: usize = 0;

pub const P_FLAGS: usize = 4;

pub const P_OFFSET: usize = 8;

pub const P_VADDR: usize = 16;

pub const P_PADDR: usize = 24;

pub const P_FILESZ: usize = 32;

pub const P_MEMSZ: usize = 40;

pub const P_ALIGN: usize = 48;

// Segment types.
pub const PT_LOAD: u32 = 1;

pub const PT_PHDR: u32 = 6;

pub const PT_GNU_STACK: u32 = 0x6474_e551;

// Segment permissions.
pub const PF_X: u32 = 1;

pub const PF_W: u32 = 2;

pub const PF_R: u32 = 4;

/// Size of a section header.
pub const SECTION_HEADER_SIZE: usize = 64;

// Offsets of the fields of a section header.
pub const SH_NAME: usize = 0;

pub const SH_TYPE: usize = 4;

pub const SH_FLAGS: usize = 8;

pub const SH_ADDR: usize = 16;

pub const SH_OFFSET: usize = 24;

pub const SH_SIZE: usize = 32;

pub const SH_LINK: usize = 40;

pub const SH_INFO: usize = 44;

pub const SH_ADDRALIGN: usize = 48;

pub const SH_ENTSIZE: usize = 56;

// Section types.
pub const SHT_PROGBITS: u32 = 1;

pub const SHT_RELA: u32 = 4;

pub const SHT_REL: u32 = 9;

// Section flags.
pub const SHF_ALLOC: u64 = 2;

pub const SHF_EXECINSTR: u64 = 4;

/// Size of an entry of the dynamic table.
pub const DYN_SIZE: usize = 16;

// Offsets of the fields of an entry of the dynamic table.
pub const D_TAG: usize = 0;

pub const D_VAL: usize = 8;

// Tags of the dynamic table.
pub const DT_NULL: u32 = 0;

pub const DT_NEEDED: u32 = 1;

pub const DT_PLTRELSZ: u32 = 2;

pub const DT_PLTGOT: u32 = 3;

pub const DT_HASH: u32 = 4;

pub const DT_STRTAB: u32 = 5;

pub const DT_SYMTAB: u32 = 6;

pub const DT_RELA: u32 = 7;

pub const DT_RELASZ: u32 = 8;

pub const DT_INIT: u32 = 12;

pub const DT_FINI: u32 = 13;

pub const DT_REL: u32 = 17;

pub const DT_DEBUG: u32 = 21;

pub const DT_JMPREL: u32 = 23;

pub const DT_INIT_ARRAY: u32 = 25;

pub const DT_FINI_ARRAY: u32 = 26;

pub const DT_PREINIT_ARRAY: u32 = 32;

pub const DT_SYMTAB_SHNDX: u32 = 34;

pub const DT_GNU_HASH: u32 = 0x6fff_fef5;

pub const DT_TLSDESC_PLT: u32 = 0x6fff_fef6;

pub const DT_TLSDESC_GOT: u32 = 0x6fff_fef7;

pub const DT_GNU_CONFLICT: u32 = 0x6fff_fef8;

pub const DT_GNU_LIBLIST: u32 = 0x6fff_fef9;

pub const DT_CONFIG: u32 = 0x6fff_fefa;

pub const DT_DEPAUDIT: u32 = 0x6fff_fefb;

pub const DT_AUDIT: u32 = 0x6fff_fefc;

pub const DT_PLTPAD: u32 = 0x6fff_fefd;

pub const DT_MOVETAB: u32 = 0x6fff_fefe;

pub const DT_SYMINFO: u32 = 0x6fff_feff;

pub const DT_VERSYM: u32 = 0x6fff_fff0;

pub const DT_RELACOUNT: u32 = 0x6fff_fff9;

pub const DT_VERDEF: u32 = 0x6fff_fffc;

pub const DT_VERNEED: u32 = 0x6fff_fffe;

/// Size of a relocation without addend.
pub const REL_SIZE: usize = 16;

/// Size of a relocation with addend.
pub const RELA_SIZE: usize = 24;

// Offsets of the fields of a relocation.
pub const R_OFFSET: usize = 0;

pub const R_INFO: usize = 8;

pub const R_ADDEND: usize = 16;

// Relocation types.
pub const R_X86_64_NONE: u32 = 0;

pub const R_X86_64_GLOB_DAT: u32 = 6;

pub const R_X86_64_JUMP_SLOT: u32 = 7;

pub const R_X86_64_RELATIVE: u32 = 8;

/// Size of a symbol table entry.
pub const SYM_SIZE: usize = 24;

// Offsets of the fields of a symbol table entry.
pub const ST_SHNDX: usize = 6;

pub const ST_VALUE: usize = 8;

pub const ST_SIZE: usize = 16;

/// Size of an entry of the global offset table.
pub const GOT_ENTRY_SIZE: usize = 8;

/// Sections added by merging start at a multiple of this.
pub const MIN_SECTION_ALIGNMENT: u64 = 0x40;

/// Distance between two stubs of the procedure linkage table, and the size of one stub.
pub const PLT_ADDRESS_OFFSET: u64 = 0x10;

/// The low 32 bits of a 64-bit field: the type code of a relocation's info
/// word, or the tag of a dynamic-table entry as it is told apart.
pub open spec fn low_word(v: u64) -> u32 {
    (v as int % 0x1_0000_0000) as u32
}

/// The high 32 bits of a 64-bit field: the symbol index of a relocation's info word.
pub open spec fn high_word(v: u64) -> u32 {
    (v as int / 0x1_0000_0000) as u32
}

/// The info word of a relocation with the given symbol index and type code.
pub open spec fn info_word(sym: u32, kind: u32) -> u64 {
    (sym as int * 0x1_0000_0000 + kind as int) as u64
}

/// The low 32 bits of `v`.
pub fn low_word_of(v: u64) -> (r: u32)
    ensures
        r == low_word(v),
{
    (v % 0x1_0000_0000) as u32
}

/// The high 32 bits of `v`.
pub fn high_word_of(v: u64) -> (r: u32)
    ensures
        r == high_word(v),
{
    (v / 0x1_0000_0000) as u32
}

/// Builds the info word of a relocation.
pub fn make_info_word(sym: u32, kind: u32) -> (r: u64)
    ensures
        r == info_word(sym, kind),
        low_word(r) == kind,
        high_word(r) == sym,
{
    (sym as u64) * 0x1_0000_0000 + (kind as u64)
}

/// A program header, field by field.
pub struct ProgramHeader {
    pub p_type: u32,
    pub p_flags: u32,
    pub p_offset: u64,
    pub p_vaddr: u64,
    pub p_paddr: u64,
    pub p_filesz: u64,
    pub p_memsz: u64,
    pub p_align: u64,
}

/// A section header, field by field.
pub struct SectionHeader {
    pub sh_name: u32,
    pub sh_type: u32,
    pub sh_flags: u64,
    pub sh_addr: u64,
    pub sh_offset: u64,
    pub sh_size: u64,
    pub sh_link: u32,
    pub sh_info: u32,
    pub sh_addralign: u64,
    pub sh_entsize: u64,
}

/// `s` with the program header `h` stored at `at`.
pub open spec fn put_program_header(s: Seq<u8>, at: int, h: ProgramHeader) -> Seq<u8> {
    let s = put_u32(s, at + P_TYPE, h.p_type);
    let s = put_u32(s, at + P_FLAGS, h.p_flags);
    let s = put_u64(s, at + P_OFFSET, h.p_offset);
    let s = put_u64(s, at + P_VADDR, h.p_vaddr);
    let s = put_u64(s, at + P_PADDR, h.p_paddr);
    let s = put_u64(s, at + P_FILESZ, h.p_filesz);
    let s = put_u64(s, at + P_MEMSZ, h.p_memsz);
    put_u64(s, at + P_ALIGN, h.p_align)
}

/// `s` with the section header `h` stored at `at`.
pub open spec fn put_section_header(s: Seq<u8>, at: int, h: SectionHeader) -> Seq<u8> {
    let s = put_u32(s, at + SH_NAME, h.sh_name);
    let s = put_u32(s, at + SH_TYPE, h.sh_type);
    let s = put_u64(s, at + SH_FLAGS, h.sh_flags);
    let s = put_u64(s, at + SH_ADDR, h.sh_addr);
    let s = put_u64(s, at + SH_OFFSET, h.sh_offset);
    let s = put_u64(s, at + SH_SIZE, h.sh_size);
    let s = put_u32(s, at + SH_LINK, h.sh_link);
    let s = put_u32(s, at + SH_INFO, h.sh_info);
    let s = put_u64(s, at + SH_ADDRALIGN, h.sh_addralign);
    put_u64(s, at + SH_ENTSIZE, h.sh_entsize)
}

/// Stores the program header `h` at `at`.
pub fn write_program_header(buf: &mut Vec<u8>, at: usize, h: &ProgramHeader)
    requires
        fits(old(buf)@, at as int, PROGRAM_HEADER_SIZE as int),
    ensures
        final(buf)@ == put_program_header(old(buf)@, at as int, *h),
        final(buf)@.len() == old(buf)@.len(),
{
    let total: usize = buf.len();
    write_u32(buf, at + P_TYPE, h.p_type);
    write_u32(buf, at + P_FLAGS, h.p_flags);
    write_u64(buf, at + P_OFFSET, h.p_offset);
    write_u64(buf, at + P_VADDR, h.p_vaddr);
    write_u64(buf, at + P_PADDR, h.p_paddr);
    write_u64(buf, at + P_FILESZ, h.p_filesz);
    write_u64(buf, at + P_MEMSZ, h.p_memsz);
    write_u64(buf, at + P_ALIGN, h.p_align);
}

/// Stores the section header `h` at `at`.
pub fn write_section_header(buf: &mut Vec<u8>, at: usize, h: &SectionHeader)
    requires
        fits(old(buf)@, at as int, SECTION_HEADER_SIZE as int),
    ensures
        final(buf)@ == put_section_header(old(buf)@, at as int, *h),
        final(buf)@.len() == old(buf)@.len(),
{
    let total: usize = buf.len();
    write_u32(buf, at + SH_NAME, h.sh_name);
    write_u32(buf, at + SH_TYPE, h.sh_type);
    write_u64(buf, at + SH_FLAGS, h.sh_flags);
    write_u64(buf, at + SH_ADDR, h.sh_addr);
    write_u64(buf, at + SH_OFFSET, h.sh_offset);
    write_u64(buf, at + SH_SIZE, h.sh_size);
    write_u32(buf, at + SH_LINK, h.sh_link);
    write_u32(buf, at + SH_INFO, h.sh_info);
    write_u64(buf, at + SH_ADDRALIGN, h.sh_addralign);
    write_u64(buf, at + SH_ENTSIZE, h.sh_entsize);
}

/// The fields of the file header that surgical linking reads.
#[derive(Debug, Clone, Copy, PartialEq, Eq, Structural)]
pub struct FileHeader {
    pub entry: u64,
    pub ph_offset: u64,
    pub sh_offset: u64,
    pub ph_ent_size: u16,
    pub ph_num: u16,
    pub sh_ent_size: u16,
    pub sh_num: u16,
}

/// The file header of the image `s`.
pub open spec fn file_header(s: Seq<u8>) -> Result<FileHeader, LinkError> {
    if s.len() < FILE_HEADER_SIZE {
        Err(LinkError::OutOfBounds)
    } else {
        Ok(
            FileHeader {
                entry: u64_at(s, E_ENTRY as int),
                ph_offset: u64_at(s, E_PHOFF as int),
                sh_offset: u64_at(s, E_SHOFF as int),
                ph_ent_size: u16_at(s, E_PHENTSIZE as int),
                ph_num: u16_at(s, E_PHNUM as int),
                sh_ent_size: u16_at(s, E_SHENTSIZE as int),
                sh_num: u16_at(s, E_SHNUM as int),
            },
        )
    }
}

/// Reads the file header.
pub fn read_file_header(data: &[u8]) -> (r: Result<FileHeader, LinkError>)
    ensures
        r == file_header(data@),
{
    if data.len() < FILE_HEADER_SIZE {
        return Err(LinkError::OutOfBounds);
    }
    Ok(
        FileHeader {
            entry: read_u64(data, E_ENTRY),
            ph_offset: read_u64(data, E_PHOFF),
            sh_offset: read_u64(data, E_SHOFF),
            ph_ent_size: read_u16(data, E_PHENTSIZE),
            ph_num: read_u16(data, E_PHNUM),
            sh_ent_size: read_u16(data, E_SHENTSIZE),
            sh_num: read_u16(data, E_SHNUM),
        },
    )
}

} // verus!
