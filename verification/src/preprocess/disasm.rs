//! Discovery of the call sites of the host that must be patched.
//!
//! The code of the host is decoded instruction by instruction. Every near
//! call or jump whose target is the stub of an application function in the
//! procedure linkage table is recorded as a patch site.

use std::collections::HashMap;
use iced_x86::{Decoder, DecoderOptions};
use vstd::prelude::*;
use crate::error::LinkError;
use crate::metadata::{SurgeryEntry, VirtualOffset, with_site};
use crate::name_map::NameMap;
use crate::object_file::{name_of, SectionRecord, Storage, symbol_name, SymbolRecord};
use crate::reader::{
    read_stored_range, read_uncompressed_data, section_stored_range, section_uncompressed_data,
    StoredRange,
};
use crate::wrap::{wrap, wrap64};

verus! {

broadcast use vstd::std_specs::hash::group_hash_axioms;

/// Operand kind of a near branch with a 16-bit target.
pub const OP_NEAR_BRANCH16: u8 = 1;

/// Operand kind of a near branch with a 32-bit target.
pub const OP_NEAR_BRANCH32: u8 = 2;

/// Operand kind of a near branch with a 64-bit target.
pub const OP_NEAR_BRANCH64: u8 = 3;

/// Operand kind of a far branch with a 16-bit offset.
pub const OP_FAR_BRANCH16: u8 = 4;

/// Operand kind of a far branch with a 32-bit offset.
pub const OP_FAR_BRANCH32: u8 = 5;

/// Encoded operand: branch in 16-bit mode with a 1-byte displacement.
pub const OPERAND_BR16_1: u8 = 95;

/// Encoded operand: branch in 32-bit mode with a 1-byte displacement.
pub const OPERAND_BR32_1: u8 = 96;

/// Encoded operand: branch in 16-bit mode with a 2-byte displacement.
pub const OPERAND_BR16_2: u8 = 98;

/// Encoded operand: branch in 32-bit mode with a 4-byte displacement.
pub const OPERAND_BR32_4: u8 = 99;

/// Encoded operand: branch in 64-bit mode with a 4-byte displacement.
pub const OPERAND_BR64_4: u8 = 100;

/// What is read from one decoded instruction.
#[derive(Debug, Clone, Copy, PartialEq, Eq)]
pub struct Decoded {
    /// Length of the instruction in bytes.
    pub len: usize,
    /// Address of the instruction that follows.
    pub next_ip: u64,
    /// Kind of the first operand, as the decoder numbers the kinds.
    pub op0_kind: u8,
    /// Target of a near branch; zero for any other instruction.
    pub branch_target: u64,
    /// How the first operand is encoded, as the decoder numbers the encodings.
    pub operand: Option<u8>,
    pub call_far_indirect: bool,
    pub call_near_indirect: bool,
    pub jmp_far_indirect: bool,
    pub jmp_near_indirect: bool,
}

/// What `iced_x86::Decoder::decode` reads from the instruction that starts
/// at `pos` in `code`, when decoding in 64-bit mode with the instruction
/// pointer `ip` and no options.
pub uninterp spec fn decoded(code: Seq<u8>, pos: usize, ip: u64) -> Decoded;

/// Calls `iced_x86::Decoder::with_ip` on the bytes `code[pos..]` and
/// `iced_x86::Decoder::decode` once, and hands out length, next instruction
/// pointer, first operand kind, near branch target, first operand encoding
/// and the four indirect-branch tests of the instruction. Unproved: the
/// result is a function of the arguments.
#[verifier::external_body]
pub(crate) fn decode_instruction(code: &[u8], pos: usize, ip: u64) -> (r: Decoded)
    requires
        pos <= code@.len(),
    ensures
        r == decoded(code@, pos, ip),
{
    let inst = Decoder::with_ip(64, &code[pos..], ip, DecoderOptions::NONE).decode();
    Decoded {
        len: inst.len(),
        next_ip: inst.next_ip(),
        op0_kind: inst.op0_kind() as u8,
        branch_target: inst.near_branch_target(),
        operand: inst.op_code().try_op_kind(0).ok().map(|k| k as u8),
        call_far_indirect: inst.is_call_far_indirect(),
        call_near_indirect: inst.is_call_near_indirect(),
        jmp_far_indirect: inst.is_jmp_far_indirect(),
        jmp_near_indirect: inst.is_jmp_near_indirect(),
    }
}

/// The state of the discovery, as mathematical values.
pub struct Scan {
    /// The patch sites recorded under each name.
    pub lists: Map<Seq<char>, Seq<SurgeryEntry>>,
    /// An indirect call or jump was seen and reported.
    pub warned: bool,
}

/// The state of the discovery.
pub struct Surgeries {
    /// The patch sites found so far, by the name of the function they call.
    pub surgeries: NameMap<Vec<SurgeryEntry>>,
    /// Address of each stub of the procedure linkage table that stands for
    /// an application function, with the name of the function.
    pub app_func_addresses: HashMap<u64, String>,
    /// True once an indirect call or jump has been seen in verbose mode;
    /// such instructions cannot be analyzed and are left as they are.
    pub indirect_warning_given: bool,
}

/// True for the operand kinds of near branches.
pub open spec fn is_near_branch(kind: u8) -> bool {
    kind == OP_NEAR_BRANCH16 || kind == OP_NEAR_BRANCH32 || kind == OP_NEAR_BRANCH64
}

/// True for the operand kinds of far branches.
pub open spec fn is_far_branch(kind: u8) -> bool {
    kind == OP_FAR_BRANCH16 || kind == OP_FAR_BRANCH32
}

/// The width in bytes of the displacement of a branch whose operand is
/// encoded as `operand`.
pub open spec fn branch_width(operand: Option<u8>) -> Result<u8, LinkError> {
    if operand == Some(OPERAND_BR16_1) || operand == Some(OPERAND_BR32_1) {
        Ok(1)
    } else if operand == Some(OPERAND_BR16_2) {
        Ok(2)
    } else if operand == Some(OPERAND_BR32_4) || operand == Some(OPERAND_BR64_4) {
        Ok(4)
    } else {
        Err(LinkError::UnsupportedOperand)
    }
}

/// True when the instruction is an indirect call or jump.
pub open spec fn is_indirect(d: Decoded) -> bool {
    d.call_far_indirect || d.call_near_indirect || d.jmp_far_indirect || d.jmp_near_indirect
}

/// The names of the functions behind the stubs.
pub open spec fn stub_names(targets: Map<u64, String>) -> Map<u64, Seq<char>> {
    Map::new(|a: u64| targets.contains_key(a), |a: u64| targets[a]@)
}

/// The state after the instruction `d` has been looked at.
///
/// `address` is the address of the section that holds the instruction and
/// `file_offset` the file offset of that section. A near branch to a stub is
/// recorded under the name of the stub's function: the site is the
/// displacement at the end of the instruction, relative to the address of the
/// next instruction. A branch to a stub with an unknown operand encoding, and
/// any far branch, are errors. An indirect call or jump is only noted, and
/// only in verbose mode.
pub open spec fn record_instruction(
    st: Scan,
    targets: Map<u64, Seq<char>>,
    d: Decoded,
    address: u64,
    file_offset: u64,
    verbose: bool,
) -> Result<Scan, LinkError> {
    if is_near_branch(d.op0_kind) {
        if !targets.contains_key(d.branch_target) {
            Ok(st)
        } else {
            match branch_width(d.operand) {
                Err(e) => Err(e),
                Ok(width) => if d.next_ip - width - address < 0 || d.next_ip - width - address
                    + file_offset > u64::MAX {
                    Err(LinkError::ArithmeticOverflow)
                } else {
                    match with_site(
                        st.lists,
                        targets[d.branch_target],
                        SurgeryEntry {
                            file_offset: (d.next_ip - width - address + file_offset) as u64,
                            virtual_offset: VirtualOffset::Relative(d.next_ip),
                            size: width,
                        },
                    ) {
                        Ok(lists) => Ok(Scan { lists, warned: st.warned }),
                        Err(e) => Err(e),
                    }
                },
            }
        }
    } else if is_far_branch(d.op0_kind) {
        Err(LinkError::UnsupportedBranch)
    } else {
        Ok(Scan { lists: st.lists, warned: st.warned || (is_indirect(d) && verbose) })
    }
}

/// The state after the instructions of `code` from `pos` on have been
/// decoded and looked at, one after the other. An instruction that the
/// decoder gives no length, or a length beyond the end of the code, is an error.
pub open spec fn scan_code(
    st: Scan,
    targets: Map<u64, Seq<char>>,
    code: Seq<u8>,
    pos: int,
    address: u64,
    file_offset: u64,
    verbose: bool,
) -> Result<Scan, LinkError>
    decreases code.len() - pos,
{
    if pos < 0 || pos >= code.len() {
        Ok(st)
    } else {
        let d = decoded(code, pos as usize, wrap64(address + pos));
        if d.len == 0 || pos + d.len > code.len() {
            Err(LinkError::UndecodableInstruction)
        } else {
            match record_instruction(st, targets, d, address, file_offset, verbose) {
                Ok(next) => scan_code(
                    next,
                    targets,
                    code,
                    pos + d.len,
                    address,
                    file_offset,
                    verbose,
                ),
                Err(e) => Err(e),
            }
        }
    }
}

/// Whether a code section that is stored as `range` says can be scanned:
/// its contents must be stored as they are. A code section that is
/// compressed, or whose compression cannot be made sense of, is an error
/// whatever it holds, because its bytes cannot be patched in place.
pub open spec fn code_storage(range: StoredRange) -> Result<(), LinkError> {
    if range.storage == Storage::Plain {
        Ok(())
    } else {
        Err(LinkError::CompressedSection)
    }
}

/// The state after the code `code` of a section at `address`, stored as
/// `range` says, has been scanned. Nothing is decoded unless the section is
/// stored as it is.
pub open spec fn scan_section(
    st: Scan,
    targets: Map<u64, Seq<char>>,
    code: Seq<u8>,
    address: u64,
    range: StoredRange,
    verbose: bool,
) -> Result<Scan, LinkError> {
    match code_storage(range) {
        Err(e) => Err(e),
        Ok(_) => scan_code(st, targets, code, 0, address, range.offset, verbose),
    }
}

/// The state after the code sections among `sections[k..]` of the file
/// `data` have been scanned. How a section is stored is looked at before its
/// contents are read.
pub open spec fn scan_sections(
    st: Scan,
    targets: Map<u64, Seq<char>>,
    data: Seq<u8>,
    sections: Seq<SectionRecord>,
    k: int,
    verbose: bool,
) -> Result<Scan, LinkError>
    decreases sections.len() - k,
{
    if k < 0 || k >= sections.len() {
        Ok(st)
    } else if !sections[k].is_text {
        scan_sections(st, targets, data, sections, k + 1, verbose)
    } else {
        match section_stored_range(data, sections[k].index) {
            None => Err(LinkError::InvalidObject),
            Some(range) => match code_storage(range) {
                Err(e) => Err(e),
                Ok(_) => match section_uncompressed_data(data, sections[k].index) {
                    None => Err(LinkError::InvalidObject),
                    Some(code) => match scan_section(
                        st,
                        targets,
                        code,
                        sections[k].address,
                        range,
                        verbose,
                    ) {
                        Ok(next) => scan_sections(next, targets, data, sections, k + 1, verbose),
                        Err(e) => Err(e),
                    },
                },
            },
        }
    }
}

/// True when one of the sections `sections[k..]` holds code.
pub open spec fn has_code(sections: Seq<SectionRecord>, k: int) -> bool
    decreases sections.len() - k,
{
    if k < 0 || k >= sections.len() {
        false
    } else {
        sections[k].is_text || has_code(sections, k + 1)
    }
}

/// The lists of patch sites with an empty list under the name of each of
/// the symbols `symbols[k..]`.
pub open spec fn empty_lists(
    lists: Map<Seq<char>, Seq<SurgeryEntry>>,
    symbols: Seq<SymbolRecord>,
    k: int,
) -> Map<Seq<char>, Seq<SurgeryEntry>>
    decreases symbols.len() - k,
{
    if k < 0 || k >= symbols.len() {
        lists
    } else {
        empty_lists(
            lists.insert(symbol_name(symbols[k]), Seq::empty()),
            symbols,
            k + 1,
        )
    }
}

/// Relates what a step of the discovery returned and left in its state to
/// what it is specified to produce.
pub open spec fn scanned_as(r: Result<(), LinkError>, st: Scan, expected: Result<Scan, LinkError>) -> bool {
    match r {
        Ok(_) => expected == Ok::<Scan, LinkError>(st),
        Err(e) => expected == Err::<Scan, LinkError>(e),
    }
}

/// Computes `branch_width`.
pub fn branch_width_of(operand: Option<u8>) -> (r: Result<u8, LinkError>)
    ensures
        r == branch_width(operand),
{
    match operand {
        Some(k) => {
            if k == OPERAND_BR16_1 || k == OPERAND_BR32_1 {
                Ok(1)
            } else if k == OPERAND_BR16_2 {
                Ok(2)
            } else if k == OPERAND_BR32_4 || k == OPERAND_BR64_4 {
                Ok(4)
            } else {
                Err(LinkError::UnsupportedOperand)
            }
        },
        None => Err(LinkError::UnsupportedOperand),
    }
}

impl Surgeries {
    /// No name occurs twice in the table of patch sites.
    pub open spec fn wf(self) -> bool {
        self.surgeries.wf()
    }

    /// The patch sites found so far and whether a warning was given; the
    /// stubs are given by `targets`.
    pub open spec fn scan(self) -> Scan {
        Scan { lists: self.surgeries.lists(), warned: self.indirect_warning_given }
    }

    /// The names of the functions behind the stubs.
    pub open spec fn targets(self) -> Map<u64, Seq<char>> {
        stub_names(self.app_func_addresses@)
    }

    /// Starts the discovery with an empty list of patch sites for each of
    /// the symbols that the host expects from the application.
    pub fn new(application_symbols: &Vec<SymbolRecord>, app_func_addresses: HashMap<u64, String>) -> (r:
        Self)
        ensures
            r.wf(),
            r.app_func_addresses == app_func_addresses,
            !r.indirect_warning_given,
            r.surgeries.lists() == empty_lists(Map::empty(), application_symbols@, 0),
    {
        let mut surgeries: NameMap<Vec<SurgeryEntry>> = NameMap::new();
        proof {
            assert(surgeries.lists() =~= Map::<Seq<char>, Seq<SurgeryEntry>>::empty());
        }
        let n: usize = application_symbols.len();
        let mut k: usize = 0;
        while k < n
            invariant
                k <= n,
                n == application_symbols@.len(),
                surgeries.wf(),
                empty_lists(Map::empty(), application_symbols@, 0) == empty_lists(
                    surgeries.lists(),
                    application_symbols@,
                    k as int,
                ),
            decreases n - k,
        {
            let name = name_of(&application_symbols[k]);
            let ghost before = surgeries;
            surgeries.insert(name, Vec::new());
            proof {
                assert(surgeries.lists() =~= before.lists().insert(
                    symbol_name(application_symbols@[k as int]),
                    Seq::empty(),
                )) by {
                    assert forall|other: Seq<char>| surgeries.has(other) implies (
                    #[trigger] surgeries.lists()[other]) == before.lists().insert(
                        name@,
                        Seq::empty(),
                    )[other] by {
                        assert(surgeries@[other] == surgeries.entries@[surgeries.position(other)].1);
                        if other != name@ {
                            assert(before@[other] == before.entries@[before.position(other)].1);
                        }
                    }
                }
            }
            k += 1;
        }
        Surgeries { surgeries, app_func_addresses, indirect_warning_given: false }
    }

    /// Looks at one decoded instruction of a section at `address` whose
    /// contents start at `file_offset` in the file.
    pub fn record_instruction(
        &mut self,
        d: &Decoded,
        address: u64,
        file_offset: u64,
        verbose: bool,
    ) -> (r: Result<(), LinkError>)
        requires
            old(self).wf(),
        ensures
            final(self).wf(),
            final(self).app_func_addresses == old(self).app_func_addresses,
            final(self).surgeries.names() == old(self).surgeries.names(),
            scanned_as(
                r,
                final(self).scan(),
                record_instruction(
                    old(self).scan(),
                    old(self).targets(),
                    *d,
                    address,
                    file_offset,
                    verbose,
                ),
            ),
    {
        let kind: u8 = d.op0_kind;
        if kind == OP_NEAR_BRANCH16 || kind == OP_NEAR_BRANCH32 || kind == OP_NEAR_BRANCH64 {
            let name: &String = match self.app_func_addresses.get(&d.branch_target) {
                Some(n) => n,
                None => {
                    return Ok(());
                },
            };
            let width: u8 = branch_width_of(d.operand)?;
            if d.next_ip < width as u64 || d.next_ip - (width as u64) < address {
                return Err(LinkError::ArithmeticOverflow);
            }
            let offset: u64 = match (d.next_ip - (width as u64) - address).checked_add(file_offset) {
                Some(v) => v,
                None => {
                    return Err(LinkError::ArithmeticOverflow);
                },
            };
            self.surgeries.add_site(
                name,
                SurgeryEntry {
                    file_offset: offset,
                    virtual_offset: VirtualOffset::Relative(d.next_ip),
                    size: width,
                },
            )
        } else if kind == OP_FAR_BRANCH16 || kind == OP_FAR_BRANCH32 {
            Err(LinkError::UnsupportedBranch)
        } else {
            if (d.call_far_indirect || d.call_near_indirect || d.jmp_far_indirect
                || d.jmp_near_indirect) && !self.indirect_warning_given && verbose {
                self.indirect_warning_given = true;
            }
            Ok(())
        }
    }

    /// Scans the code `code` of one section of the host.
    pub fn append_text_section(&mut self, code: &[u8], address: u64, range: &StoredRange, verbose: bool) -> (r:
        Result<(), LinkError>)
        requires
            old(self).wf(),
        ensures
            final(self).wf(),
            final(self).app_func_addresses == old(self).app_func_addresses,
            final(self).surgeries.names() == old(self).surgeries.names(),
            scanned_as(
                r,
                final(self).scan(),
                scan_section(old(self).scan(), old(self).targets(), code@, address, *range, verbose),
            ),
    {
        match range.storage {
            Storage::Plain => {},
            _ => {
                return Err(LinkError::CompressedSection);
            },
        }
        let n: usize = code.len();
        let mut pos: usize = 0;
        while pos < n
            invariant
                pos <= n,
                n == code@.len(),
                self.wf(),
                self.app_func_addresses == old(self).app_func_addresses,
                self.surgeries.names() == old(self).surgeries.names(),
                range.storage == Storage::Plain,
                scan_code(
                    old(self).scan(),
                    old(self).targets(),
                    code@,
                    0,
                    address,
                    range.offset,
                    verbose,
                ) == scan_code(
                    self.scan(),
                    self.targets(),
                    code@,
                    pos as int,
                    address,
                    range.offset,
                    verbose,
                ),
            decreases n - pos,
        {
            let ip: u64 = wrap(address as i128 + pos as i128);
            let d = decode_instruction(code, pos, ip);
            if d.len == 0 || d.len > n - pos {
                return Err(LinkError::UndecodableInstruction);
            }
            self.record_instruction(&d, address, range.offset, verbose)?;
            pos = pos + d.len;
        }
        Ok(())
    }

    /// Scans every code section of the host executable `object_bytes`,
    /// whose sections are `sections`. The host must have code.
    pub fn append_text_sections(&mut self, object_bytes: &[u8], sections: &Vec<SectionRecord>, verbose: bool) -> (r:
        Result<(), LinkError>)
        requires
            old(self).wf(),
        ensures
            final(self).wf(),
            final(self).app_func_addresses == old(self).app_func_addresses,
            final(self).surgeries.names() == old(self).surgeries.names(),
            scanned_as(
                r,
                final(self).scan(),
                if has_code(sections@, 0) {
                    scan_sections(old(self).scan(), old(self).targets(), object_bytes@, sections@, 0, verbose)
                } else {
                    Err(LinkError::NoTextSections)
                },
            ),
    {
        let n: usize = sections.len();
        let mut found: bool = false;
        let mut k: usize = 0;
        while k < n
            invariant
                k <= n,
                n == sections@.len(),
                self.scan() == old(self).scan(),
                has_code(sections@, 0) == (found || has_code(sections@, k as int)),
            decreases n - k,
        {
            if sections[k].is_text {
                found = true;
            }
            k += 1;
        }
        if !found {
            return Err(LinkError::NoTextSections);
        }
        let mut k: usize = 0;
        while k < n
            invariant
                k <= n,
                n == sections@.len(),
                self.wf(),
                self.app_func_addresses == old(self).app_func_addresses,
                self.surgeries.names() == old(self).surgeries.names(),
                has_code(sections@, 0),
                scan_sections(old(self).scan(), old(self).targets(), object_bytes@, sections@, 0, verbose)
                    == scan_sections(
                    self.scan(),
                    self.targets(),
                    object_bytes@,
                    sections@,
                    k as int,
                    verbose,
                ),
            decreases n - k,
        {
            if sections[k].is_text {
                let range = match read_stored_range(object_bytes, sections[k].index) {
                    Some(r) => r,
                    None => {
                        return Err(LinkError::InvalidObject);
                    },
                };
                match range.storage {
                    Storage::Plain => {},
                    _ => {
                        return Err(LinkError::CompressedSection);
                    },
                }
                let code = match read_uncompressed_data(object_bytes, sections[k].index) {
                    Some(c) => c,
                    None => {
                        return Err(LinkError::InvalidObject);
                    },
                };
                self.append_text_section(code.as_slice(), sections[k].address, &range, verbose)?;
            }
            k += 1;
        }
        Ok(())
    }
}

/// Scanning the same code twice from the same state records the same
/// call sites: the outcome of a scan is determined by the state it starts
/// from, the stubs, the bytes of the file and its sections.
pub proof fn lemma_scan_repeatable(
    before: Scan,
    targets: Map<u64, Seq<char>>,
    data: Seq<u8>,
    sections: Seq<SectionRecord>,
    verbose: bool,
    first: Scan,
    second: Scan,
)
    requires
        scanned_as(Ok(()), first, scan_sections(before, targets, data, sections, 0, verbose)),
        scanned_as(Ok(()), second, scan_sections(before, targets, data, sections, 0, verbose)),
    ensures
        first == second,
        first.lists == second.lists,
{
}

} // verus!
