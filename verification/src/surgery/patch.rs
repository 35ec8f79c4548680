//! Patching of the host: every recorded call site, the stub in the procedure
//! linkage table and the symbol table entries of each function that the
//! application defines for the host.

use vstd::prelude::*;
use crate::bytes::{
    fill_bytes, fits, lemma_put_u16_frame, lemma_put_u16_len, lemma_put_u32_frame,
    lemma_put_u32_len, lemma_put_u64_frame, lemma_put_u64_len, lemma_u32_read_back,
    lemma_u64_read_back, put_u16, put_u32, put_u64, repeated, splice, u32_at, u64_at, write_bytes,
    write_u16, write_u32, write_u64,
};
use crate::elf::{low_word, low_word_of, PLT_ADDRESS_OFFSET, ST_SHNDX, ST_SIZE, ST_VALUE, SYM_SIZE};
use crate::error::LinkError;
use crate::metadata::{Metadata, SurgeryEntry, VirtualOffset};
use crate::name_map::NameMap;
use crate::table::{locate, located, move_coordinate, moved, outcome, Space};
use crate::wrap::{lemma_distance_recovers, lemma_near_distance, signed32, wrap64, wrap_distance};

verus! {

/// Length of the jump instruction that replaces a stub.
pub const JMP_INST_LEN: usize = 5;

/// The address from which the displacement of a patch site is measured: the
/// address behind the instruction for a relative site, mapped to where it
/// lies after the shift; zero for an absolute site.
pub open spec fn site_origin(md: Metadata, entry: SurgeryEntry) -> Result<u64, LinkError> {
    match entry.virtual_offset {
        VirtualOffset::Relative(address) => moved(md.geometry(), Space::Virtual, address),
        VirtualOffset::Absolute => Ok(0),
    }
}

/// `s` with the patch site `entry` made to refer to the function at the
/// address `func`: the distance from the site's origin to the function is
/// stored little-endian at the site, cut to the width of the site.
pub open spec fn patch_site(s: Seq<u8>, md: Metadata, entry: SurgeryEntry, func: u64) -> Result<
    Seq<u8>,
    LinkError,
> {
    match site_origin(md, entry) {
        Err(e) => Err(e),
        Ok(origin) => if entry.size != 4 && entry.size != 8 {
            Err(LinkError::UnsupportedSurgerySize)
        } else {
            match moved(md.geometry(), Space::Physical, entry.file_offset) {
                Err(e) => Err(e),
                Ok(offset) => match located(s.len() as int, offset as int, entry.size as int) {
                    Err(e) => Err(e),
                    Ok(at) => if entry.size == 4 {
                        Ok(put_u32(s, at as int, low_word(wrap64(func - origin))))
                    } else {
                        Ok(put_u64(s, at as int, wrap64(func - origin)))
                    },
                },
            }
        },
    }
}

/// `s` with the patch sites `sites[k..]` made to refer to the function at `func`.
pub open spec fn patch_sites(s: Seq<u8>, md: Metadata, sites: Seq<SurgeryEntry>, k: int, func: u64) -> Result<
    Seq<u8>,
    LinkError,
>
    decreases sites.len() - k,
{
    if k < 0 || k >= sites.len() {
        Ok(s)
    } else {
        match patch_site(s, md, sites[k], func) {
            Ok(t) => patch_sites(t, md, sites, k + 1, func),
            Err(e) => Err(e),
        }
    }
}

/// `s` with the stub of the procedure linkage table at file offset
/// `stub.0` and address `stub.1`, both from before the shift, replaced by a
/// direct jump to the function at `func`, followed by no-operation bytes up
/// to the size of a stub.
pub open spec fn patch_stub(s: Seq<u8>, md: Metadata, stub: (u64, u64), func: u64) -> Result<
    Seq<u8>,
    LinkError,
> {
    match moved(md.geometry(), Space::Physical, stub.0) {
        Err(e) => Err(e),
        Ok(offset) => match moved(md.geometry(), Space::Virtual, stub.1) {
            Err(e) => Err(e),
            Ok(address) => match located(
                s.len() as int,
                offset as int,
                PLT_ADDRESS_OFFSET as int,
            ) {
                Err(e) => Err(e),
                Ok(at) => {
                    let s1 = splice(s, at as int, seq![0xE9u8]);
                    let s2 = put_u32(s1, at + 1, low_word(wrap64(func - address - JMP_INST_LEN)));
                    Ok(
                        splice(
                            s2,
                            at + JMP_INST_LEN,
                            repeated(0x90, PLT_ADDRESS_OFFSET - JMP_INST_LEN),
                        ),
                    )
                },
            }
        },
    }
}

/// `s` with the entry `index` of the symbol table at `table` made to
/// describe the function at `func`: its section index, address and size.
pub open spec fn patch_symbol(s: Seq<u8>, table: u64, index: u64, section: u16, func: (u64, u64)) -> Result<
    Seq<u8>,
    LinkError,
> {
    match located(s.len() as int, table + index * SYM_SIZE, SYM_SIZE as int) {
        Err(e) => Err(e),
        Ok(at) => Ok(
            put_u64(
                put_u64(put_u16(s, at + ST_SHNDX, section), at + ST_VALUE, func.0),
                at + ST_SIZE,
                func.1,
            ),
        ),
    }
}

/// What is the same for every function that is patched.
pub struct PatchContext {
    /// Name to address and size of the functions that the application defines.
    pub functions: Map<Seq<char>, (u64, u64)>,
    /// File offset of the dynamic symbol table after the shift.
    pub dynsym: u64,
    /// File offset of the static symbol table after the shift.
    pub symtab: u64,
    /// Section index written into the symbol table entries.
    pub section: u16,
}

/// `s` with everything that refers to the function `name` patched: the
/// recorded call sites, the stub if there is one, and the entries of the
/// dynamic and of the static symbol table if there are any. The application
/// must define the function.
pub open spec fn patch_function(s: Seq<u8>, md: Metadata, cx: PatchContext, name: Seq<char>) -> Result<
    Seq<u8>,
    LinkError,
> {
    if !cx.functions.contains_key(name) {
        Err(LinkError::MissingAppFunction)
    } else {
        let func = cx.functions[name];
        match patch_sites(s, md, md.sites(name), 0, func.0) {
            Err(e) => Err(e),
            Ok(s1) => match (match md.plt_addresses.lookup(name) {
                Some(stub) => patch_stub(s1, md, stub, func.0),
                None => Ok(s1),
            }) {
                Err(e) => Err(e),
                Ok(s2) => match (match md.dynamic_symbol_indices.lookup(name) {
                    Some(i) => patch_symbol(s2, cx.dynsym, i, cx.section, func),
                    None => Ok(s2),
                }) {
                    Err(e) => Err(e),
                    Ok(s3) => match md.static_symbol_indices.lookup(name) {
                        Some(i) => patch_symbol(s3, cx.symtab, i, cx.section, func),
                        None => Ok(s3),
                    },
                },
            },
        }
    }
}

/// `s` with the functions `names[k..]` patched in turn.
pub open spec fn patch_functions(s: Seq<u8>, md: Metadata, cx: PatchContext, names: Seq<String>, k: int) -> Result<
    Seq<u8>,
    LinkError,
>
    decreases names.len() - k,
{
    if k < 0 || k >= names.len() {
        Ok(s)
    } else {
        match patch_function(s, md, cx, names[k]@) {
            Ok(t) => patch_functions(t, md, cx, names, k + 1),
            Err(e) => Err(e),
        }
    }
}

/// `s` with every function that the host requires patched. The symbol
/// tables are found at their offsets after the shift, and the symbols are
/// attributed to the last program header.
pub open spec fn patched(s: Seq<u8>, md: Metadata, functions: Map<Seq<char>, (u64, u64)>, ph_num: u16) -> Result<
    Seq<u8>,
    LinkError,
> {
    match moved(md.geometry(), Space::Physical, md.dynamic_symbol_table_section_offset) {
        Err(e) => Err(e),
        Ok(dynsym) => match moved(md.geometry(), Space::Physical, md.symbol_table_section_offset) {
            Err(e) => Err(e),
            Ok(symtab) => patch_functions(
                s,
                md,
                PatchContext { functions, dynsym, symtab, section: (ph_num - 1) as u16 },
                md.app_functions@,
                0,
            ),
        },
    }
}

/// Makes one patch site refer to the function at `func`.
pub fn patch_site_in(buf: &mut Vec<u8>, md: &Metadata, entry: &SurgeryEntry, func: u64) -> (r:
    Result<(), LinkError>)
    ensures
        outcome(r, final(buf)@, patch_site(old(buf)@, *md, *entry, func)),
        final(buf)@.len() == old(buf)@.len(),
{
    let origin: u64 = match entry.virtual_offset {
        VirtualOffset::Relative(address) => move_coordinate(md, Space::Virtual, address)?,
        VirtualOffset::Absolute => 0,
    };
    if entry.size != 4 && entry.size != 8 {
        return Err(LinkError::UnsupportedSurgerySize);
    }
    let offset: u64 = move_coordinate(md, Space::Physical, entry.file_offset)?;
    let at: usize = locate(buf.len(), offset, entry.size as u64)?;
    let distance: u64 = wrap_distance(func, origin, 0);
    if entry.size == 4 {
        write_u32(buf, at, low_word_of(distance));
    } else {
        write_u64(buf, at, distance);
    }
    Ok(())
}

/// Makes the given patch sites refer to the function at `func`.
pub fn patch_sites_in(buf: &mut Vec<u8>, md: &Metadata, sites: &Vec<SurgeryEntry>, func: u64) -> (r:
    Result<(), LinkError>)
    ensures
        outcome(r, final(buf)@, patch_sites(old(buf)@, *md, sites@, 0, func)),
        final(buf)@.len() == old(buf)@.len(),
{
    let n: usize = sites.len();
    let mut k: usize = 0;
    while k < n
        invariant
            k <= n,
            n == sites@.len(),
            buf@.len() == old(buf)@.len(),
            patch_sites(old(buf)@, *md, sites@, 0, func) == patch_sites(
                buf@,
                *md,
                sites@,
                k as int,
                func,
            ),
        decreases n - k,
    {
        patch_site_in(buf, md, &sites[k], func)?;
        k += 1;
    }
    Ok(())
}

/// Replaces a stub of the procedure linkage table by a jump to the function at `func`.
pub fn patch_stub_in(buf: &mut Vec<u8>, md: &Metadata, stub: (u64, u64), func: u64) -> (r: Result<
    (),
    LinkError,
>)
    ensures
        outcome(r, final(buf)@, patch_stub(old(buf)@, *md, stub, func)),
        final(buf)@.len() == old(buf)@.len(),
{
    let offset: u64 = move_coordinate(md, Space::Physical, stub.0)?;
    let address: u64 = move_coordinate(md, Space::Virtual, stub.1)?;
    let at: usize = locate(buf.len(), offset, PLT_ADDRESS_OFFSET)?;
    let target: u32 = low_word_of(wrap_distance(func, address, -5));
    buf.set(at, 0xE9);
    proof {
        assert(buf@ =~= splice(old(buf)@, at as int, seq![0xE9u8]));
    }
    write_u32(buf, at + 1, target);
    fill_bytes(buf, at + JMP_INST_LEN, PLT_ADDRESS_OFFSET as usize - JMP_INST_LEN, 0x90);
    Ok(())
}

/// Makes an entry of a symbol table describe the function `func`.
pub fn patch_symbol_in(buf: &mut Vec<u8>, table: u64, index: u64, section: u16, func: (u64, u64)) -> (r:
    Result<(), LinkError>)
    ensures
        outcome(r, final(buf)@, patch_symbol(old(buf)@, table, index, section, func)),
        final(buf)@.len() == old(buf)@.len(),
{
    let total: usize = buf.len();
    let wide: u128 = table as u128 + index as u128 * 24;
    if wide + 24 > total as u128 {
        return Err(LinkError::OutOfBounds);
    }
    let at: usize = wide as usize;
    write_u16(buf, at + ST_SHNDX, section);
    write_u64(buf, at + ST_VALUE, func.0);
    write_u64(buf, at + ST_SIZE, func.1);
    Ok(())
}

/// Patches everything that refers to the function `name`.
pub fn patch_function_in(
    buf: &mut Vec<u8>,
    md: &Metadata,
    functions: &NameMap<(u64, u64)>,
    dynsym: u64,
    symtab: u64,
    section: u16,
    name: &String,
) -> (r: Result<(), LinkError>)
    requires
        md.wf(),
        functions.wf(),
    ensures
        outcome(
            r,
            final(buf)@,
            patch_function(
                old(buf)@,
                *md,
                PatchContext { functions: functions@, dynsym, symtab, section },
                name@,
            ),
        ),
        final(buf)@.len() == old(buf)@.len(),
{
    let func: (u64, u64) = match functions.get(name) {
        Some(f) => *f,
        None => {
            return Err(LinkError::MissingAppFunction);
        },
    };
    match md.surgeries.get(name) {
        Some(sites) => {
            patch_sites_in(buf, md, sites, func.0)?;
        },
        None => {},
    }
    match md.plt_addresses.get(name) {
        Some(stub) => {
            patch_stub_in(buf, md, *stub, func.0)?;
        },
        None => {},
    }
    match md.dynamic_symbol_indices.get(name) {
        Some(i) => {
            patch_symbol_in(buf, dynsym, *i, section, func)?;
        },
        None => {},
    }
    match md.static_symbol_indices.get(name) {
        Some(i) => {
            patch_symbol_in(buf, symtab, *i, section, func)?;
        },
        None => {},
    }
    Ok(())
}

/// Patches every function that the host requires.
pub fn patch_in(buf: &mut Vec<u8>, md: &Metadata, functions: &NameMap<(u64, u64)>, ph_num: u16) -> (r:
    Result<(), LinkError>)
    requires
        md.wf(),
        functions.wf(),
        ph_num >= 1,
    ensures
        outcome(r, final(buf)@, patched(old(buf)@, *md, functions@, ph_num)),
        final(buf)@.len() == old(buf)@.len(),
{
    let dynsym: u64 = move_coordinate(md, Space::Physical, md.dynamic_symbol_table_section_offset)?;
    let symtab: u64 = move_coordinate(md, Space::Physical, md.symbol_table_section_offset)?;
    let section: u16 = ph_num - 1;
    let ghost cx = PatchContext { functions: functions@, dynsym, symtab, section };
    let n: usize = md.app_functions.len();
    let mut k: usize = 0;
    while k < n
        invariant
            k <= n,
            n == md.app_functions@.len(),
            md.wf(),
            functions.wf(),
            buf@.len() == old(buf)@.len(),
            cx == (PatchContext { functions: functions@, dynsym, symtab, section }),
            section == ph_num - 1,
            moved(md.geometry(), Space::Physical, md.dynamic_symbol_table_section_offset) == Ok::<
                u64,
                LinkError,
            >(dynsym),
            moved(md.geometry(), Space::Physical, md.symbol_table_section_offset) == Ok::<u64, LinkError>(
                symtab,
            ),
            patch_functions(old(buf)@, *md, cx, md.app_functions@, 0) == patch_functions(
                buf@,
                *md,
                cx,
                md.app_functions@,
                k as int,
            ),
        decreases n - k,
    {
        patch_function_in(buf, md, functions, dynsym, symtab, section, &md.app_functions[k])?;
        k += 1;
    }
    Ok(())
}

/// A patched call site refers to the function.
///
/// After the site `entry` has been patched for the function at `func`, the
/// field at the site, read back little-endian, leads to the function from
/// the site's origin: for an 8-byte site the origin plus the field is the
/// address of the function modulo two to the 64th power, so that an absolute
/// site holds the address itself. A 4-byte site holds the low half of that
/// distance, and leads to the function exactly whenever the distance fits in
/// a signed 32-bit field.
pub proof fn lemma_patched_site_refers(s: Seq<u8>, md: Metadata, entry: SurgeryEntry, func: u64)
    requires
        s.len() <= usize::MAX,
        patch_site(s, md, entry, func) is Ok,
    ensures
        ({
            let t = patch_site(s, md, entry, func)->Ok_0;
            let origin = site_origin(md, entry)->Ok_0;
            let at = md.physical_image(entry.file_offset as int);
            &&& t.len() == s.len()
            &&& entry.size == 8 ==> wrap64(origin + u64_at(t, at)) == func
            &&& entry.size == 8 && entry.virtual_offset == VirtualOffset::Absolute ==> u64_at(t, at)
                == func
            &&& entry.size == 4 ==> u32_at(t, at) == low_word(wrap64(func - origin))
            &&& entry.size == 4 && -0x8000_0000 <= func - origin < 0x8000_0000 ==> origin + signed32(
                u32_at(t, at),
            ) == func
        }),
{
    let origin = site_origin(md, entry)->Ok_0;
    let at = md.physical_image(entry.file_offset as int);
    if entry.size == 8 {
        lemma_u64_read_back(s, at, wrap64(func - origin));
        lemma_distance_recovers(func, origin);
        if entry.virtual_offset == VirtualOffset::Absolute {
            assert(wrap64(func - 0) == func);
        }
    } else {
        lemma_u32_read_back(s, at, low_word(wrap64(func - origin)));
        if -0x8000_0000 <= func - origin < 0x8000_0000 {
            lemma_near_distance(func, origin);
        }
    }
}

/// The bytes of the image that the patch site `entry` occupies.
pub open spec fn site_bytes(md: Metadata, entry: SurgeryEntry, j: int) -> bool {
    md.physical_image(entry.file_offset as int) <= j < md.physical_image(entry.file_offset as int)
        + entry.size
}

/// True when the patch sites `a` and `b` have no byte in common.
pub open spec fn sites_apart(md: Metadata, a: SurgeryEntry, b: SurgeryEntry) -> bool {
    md.physical_image(a.file_offset as int) + a.size <= md.physical_image(b.file_offset as int)
        || md.physical_image(b.file_offset as int) + b.size <= md.physical_image(
        a.file_offset as int,
    )
}

/// True when the field at the patch site `entry` of the image `t` leads to
/// the function at `func`, as `lemma_patched_site_refers` says.
pub open spec fn site_refers(t: Seq<u8>, md: Metadata, entry: SurgeryEntry, func: u64) -> bool {
    let origin = site_origin(md, entry)->Ok_0;
    let at = md.physical_image(entry.file_offset as int);
    &&& entry.size == 8 ==> wrap64(origin + u64_at(t, at)) == func
    &&& entry.size == 4 ==> u32_at(t, at) == low_word(wrap64(func - origin))
    &&& entry.size == 4 && -0x8000_0000 <= func - origin < 0x8000_0000 ==> origin + signed32(
        u32_at(t, at),
    ) == func
}

/// Patching a site changes no byte outside the site.
pub proof fn lemma_patch_site_frame(s: Seq<u8>, md: Metadata, entry: SurgeryEntry, func: u64)
    requires
        s.len() <= usize::MAX,
        patch_site(s, md, entry, func) is Ok,
    ensures
        patch_site(s, md, entry, func)->Ok_0.len() == s.len(),
        forall|j: int|
            0 <= j < s.len() && !site_bytes(md, entry, j) ==> patch_site(
                s,
                md,
                entry,
                func,
            )->Ok_0[j] == s[j],
{
    let origin = site_origin(md, entry)->Ok_0;
    let at = md.physical_image(entry.file_offset as int);
    let t = patch_site(s, md, entry, func)->Ok_0;
    if entry.size == 8 {
        lemma_put_u64_len(s, at, wrap64(func - origin));
        lemma_put_u64_frame(s, at, wrap64(func - origin));
    } else {
        lemma_put_u32_len(s, at, low_word(wrap64(func - origin)));
        lemma_put_u32_frame(s, at, low_word(wrap64(func - origin)));
    }
}

/// Patching a list of sites changes no byte outside those sites.
pub proof fn lemma_patch_sites_frame(s: Seq<u8>, md: Metadata, sites: Seq<SurgeryEntry>, k: int, func: u64)
    requires
        0 <= k,
        s.len() <= usize::MAX,
        patch_sites(s, md, sites, k, func) is Ok,
    ensures
        patch_sites(s, md, sites, k, func)->Ok_0.len() == s.len(),
        forall|j: int|
            0 <= j < s.len() && (forall|i: int| k <= i < sites.len() ==> !site_bytes(md, sites[i], j))
                ==> patch_sites(s, md, sites, k, func)->Ok_0[j] == s[j],
    decreases sites.len() - k,
{
    if k < sites.len() {
        let s1 = patch_site(s, md, sites[k], func)->Ok_0;
        lemma_patch_site_frame(s, md, sites[k], func);
        lemma_patch_sites_frame(s1, md, sites, k + 1, func);
    }
}

/// A field of the image is read the same from two images that agree on
/// its bytes.
pub proof fn lemma_site_read_stable(s: Seq<u8>, t: Seq<u8>, md: Metadata, entry: SurgeryEntry, func: u64)
    requires
        s.len() == t.len(),
        0 <= md.physical_image(entry.file_offset as int),
        md.physical_image(entry.file_offset as int) + entry.size <= s.len(),
        entry.size == 4 || entry.size == 8,
        forall|j: int| site_bytes(md, entry, j) ==> s[j] == t[j],
        site_refers(s, md, entry, func),
    ensures
        site_refers(t, md, entry, func),
{
    let at = md.physical_image(entry.file_offset as int);
    if entry.size == 8 {
        assert(s.subrange(at, at + 8) =~= t.subrange(at, at + 8));
    } else {
        assert(s.subrange(at, at + 4) =~= t.subrange(at, at + 4));
    }
}

/// After all call sites of a function have been patched, every one of them
/// refers to the function, provided that no two of them overlap.
pub proof fn lemma_patched_sites_refer(s: Seq<u8>, md: Metadata, sites: Seq<SurgeryEntry>, k: int, func: u64)
    requires
        0 <= k,
        s.len() <= usize::MAX,
        patch_sites(s, md, sites, k, func) is Ok,
        forall|a: int, b: int| k <= a < b < sites.len() ==> sites_apart(md, sites[a], sites[b]),
    ensures
        forall|i: int|
            k <= i < sites.len() ==> site_refers(
                patch_sites(s, md, sites, k, func)->Ok_0,
                md,
                #[trigger] sites[i],
                func,
            ),
    decreases sites.len() - k,
{
    if k < sites.len() {
        let s1 = patch_site(s, md, sites[k], func)->Ok_0;
        let t = patch_sites(s, md, sites, k, func)->Ok_0;
        lemma_patched_site_refers(s, md, sites[k], func);
        lemma_patch_site_frame(s, md, sites[k], func);
        lemma_patched_sites_refer(s1, md, sites, k + 1, func);
        lemma_patch_sites_frame(s1, md, sites, k + 1, func);
        assert forall|j: int| site_bytes(md, sites[k], j) implies s1[j] == t[j] by {
            assert forall|i: int| k + 1 <= i < sites.len() implies !site_bytes(md, sites[i], j) by {
                assert(sites_apart(md, sites[k], sites[i]));
            }
        }
        lemma_site_read_stable(s1, t, md, sites[k], func);
    }
}

/// The bytes of the image that the stub `stub` occupies.
pub open spec fn stub_bytes(md: Metadata, stub: (u64, u64), j: int) -> bool {
    md.physical_image(stub.0 as int) <= j < md.physical_image(stub.0 as int) + PLT_ADDRESS_OFFSET
}

/// The bytes of the image that the entry `index` of the symbol table at
/// `table` occupies.
pub open spec fn symbol_bytes(table: u64, index: u64, j: int) -> bool {
    table + index * SYM_SIZE <= j < table + index * SYM_SIZE + SYM_SIZE
}

/// The bytes of the image that are written when the function `name` is
/// patched, apart from its call sites: its stub and its symbol table entries.
pub open spec fn entry_bytes(md: Metadata, cx: PatchContext, name: Seq<char>, j: int) -> bool {
    ||| (md.plt_addresses.lookup(name) is Some && stub_bytes(
        md,
        md.plt_addresses.lookup(name)->Some_0,
        j,
    ))
    ||| (md.dynamic_symbol_indices.lookup(name) is Some && symbol_bytes(
        cx.dynsym,
        md.dynamic_symbol_indices.lookup(name)->Some_0,
        j,
    ))
    ||| (md.static_symbol_indices.lookup(name) is Some && symbol_bytes(
        cx.symtab,
        md.static_symbol_indices.lookup(name)->Some_0,
        j,
    ))
}

/// The bytes of the image that are written when the function `name` is patched.
pub open spec fn function_bytes(md: Metadata, cx: PatchContext, name: Seq<char>, j: int) -> bool {
    entry_bytes(md, cx, name, j) || exists|i: int|
        0 <= i < md.sites(name).len() && site_bytes(md, #[trigger] md.sites(name)[i], j)
}

/// Replacing a stub changes no byte outside the stub.
pub proof fn lemma_patch_stub_frame(s: Seq<u8>, md: Metadata, stub: (u64, u64), func: u64)
    requires
        s.len() <= usize::MAX,
        patch_stub(s, md, stub, func) is Ok,
    ensures
        patch_stub(s, md, stub, func)->Ok_0.len() == s.len(),
        forall|j: int|
            0 <= j < s.len() && !stub_bytes(md, stub, j) ==> patch_stub(s, md, stub, func)->Ok_0[j]
                == s[j],
{
    let at = md.physical_image(stub.0 as int);
    let address = moved(md.geometry(), Space::Virtual, stub.1)->Ok_0;
    let s1 = splice(s, at, seq![0xE9u8]);
    let v = low_word(wrap64(func - address - JMP_INST_LEN));
    let s2 = put_u32(s1, at + 1, v);
    let pad = repeated(0x90, PLT_ADDRESS_OFFSET - JMP_INST_LEN);
    let t = splice(s2, at + JMP_INST_LEN, pad);
    assert(s1.len() == s.len());
    assert(forall|j: int| 0 <= j < s.len() && j != at ==> s1[j] == s[j]);
    lemma_put_u32_len(s1, at + 1, v);
    lemma_put_u32_frame(s1, at + 1, v);
    assert(pad.len() == 11);
    assert(t.len() == s.len());
    assert(forall|j: int| 0 <= j < s.len() && !(at + 5 <= j < at + 16) ==> t[j] == s2[j]);
    assert(t == patch_stub(s, md, stub, func)->Ok_0);
}

/// Rewriting a symbol table entry changes no byte outside the entry.
pub proof fn lemma_patch_symbol_frame(s: Seq<u8>, table: u64, index: u64, section: u16, func: (u64, u64))
    requires
        s.len() <= usize::MAX,
        patch_symbol(s, table, index, section, func) is Ok,
    ensures
        patch_symbol(s, table, index, section, func)->Ok_0.len() == s.len(),
        forall|j: int|
            0 <= j < s.len() && !symbol_bytes(table, index, j) ==> patch_symbol(
                s,
                table,
                index,
                section,
                func,
            )->Ok_0[j] == s[j],
{
    let at = table + index * SYM_SIZE;
    let s1 = put_u16(s, at + ST_SHNDX, section);
    lemma_put_u16_len(s, at + ST_SHNDX, section);
    lemma_put_u16_frame(s, at + ST_SHNDX, section);
    let s2 = put_u64(s1, at + ST_VALUE, func.0);
    lemma_put_u64_len(s1, at + ST_VALUE, func.0);
    lemma_put_u64_frame(s1, at + ST_VALUE, func.0);
    lemma_put_u64_len(s2, at + ST_SIZE, func.1);
    lemma_put_u64_frame(s2, at + ST_SIZE, func.1);
}

/// The image after the call sites of the function `name` have been
/// patched, and the image after its stub and symbol table entries have been
/// patched as well: the latter differs from the former only in the bytes of
/// the stub and of the entries.
pub proof fn lemma_patch_entries_frame(s: Seq<u8>, md: Metadata, cx: PatchContext, name: Seq<char>)
    requires
        s.len() <= usize::MAX,
        patch_function(s, md, cx, name) is Ok,
    ensures
        patch_sites(s, md, md.sites(name), 0, cx.functions[name].0) is Ok,
        patch_function(s, md, cx, name)->Ok_0.len() == s.len(),
        forall|j: int|
            0 <= j < s.len() && !entry_bytes(md, cx, name, j) ==> patch_function(
                s,
                md,
                cx,
                name,
            )->Ok_0[j] == patch_sites(s, md, md.sites(name), 0, cx.functions[name].0)->Ok_0[j],
{
    let func = cx.functions[name];
    let s1 = patch_sites(s, md, md.sites(name), 0, func.0)->Ok_0;
    lemma_patch_sites_frame(s, md, md.sites(name), 0, func.0);
    let s2 = match md.plt_addresses.lookup(name) {
        Some(stub) => patch_stub(s1, md, stub, func.0)->Ok_0,
        None => s1,
    };
    if md.plt_addresses.lookup(name) is Some {
        lemma_patch_stub_frame(s1, md, md.plt_addresses.lookup(name)->Some_0, func.0);
    }
    let s3 = match md.dynamic_symbol_indices.lookup(name) {
        Some(i) => patch_symbol(s2, cx.dynsym, i, cx.section, func)->Ok_0,
        None => s2,
    };
    if md.dynamic_symbol_indices.lookup(name) is Some {
        lemma_patch_symbol_frame(
            s2,
            cx.dynsym,
            md.dynamic_symbol_indices.lookup(name)->Some_0,
            cx.section,
            func,
        );
    }
    if md.static_symbol_indices.lookup(name) is Some {
        lemma_patch_symbol_frame(
            s3,
            cx.symtab,
            md.static_symbol_indices.lookup(name)->Some_0,
            cx.section,
            func,
        );
    }
}

/// Patching a function changes no byte outside its call sites, its stub
/// and its symbol table entries.
pub proof fn lemma_patch_function_frame(s: Seq<u8>, md: Metadata, cx: PatchContext, name: Seq<char>)
    requires
        s.len() <= usize::MAX,
        patch_function(s, md, cx, name) is Ok,
    ensures
        patch_function(s, md, cx, name)->Ok_0.len() == s.len(),
        forall|j: int|
            0 <= j < s.len() && !function_bytes(md, cx, name, j) ==> patch_function(
                s,
                md,
                cx,
                name,
            )->Ok_0[j] == s[j],
{
    let func = cx.functions[name];
    lemma_patch_entries_frame(s, md, cx, name);
    lemma_patch_sites_frame(s, md, md.sites(name), 0, func.0);
    assert forall|j: int| 0 <= j < s.len() && !function_bytes(md, cx, name, j) implies patch_sites(
        s,
        md,
        md.sites(name),
        0,
        func.0,
    )->Ok_0[j] == s[j] by {
        assert forall|i: int| 0 <= i < md.sites(name).len() implies !site_bytes(
            md,
            md.sites(name)[i],
            j,
        ) by {}
    }
}

/// Patching a list of functions changes no byte outside what belongs to them.
pub proof fn lemma_patch_functions_frame(s: Seq<u8>, md: Metadata, cx: PatchContext, names: Seq<String>, k: int)
    requires
        0 <= k,
        s.len() <= usize::MAX,
        patch_functions(s, md, cx, names, k) is Ok,
    ensures
        patch_functions(s, md, cx, names, k)->Ok_0.len() == s.len(),
        forall|j: int|
            0 <= j < s.len() && (forall|n: int|
                k <= n < names.len() ==> !function_bytes(md, cx, (#[trigger] names[n])@, j))
                ==> patch_functions(s, md, cx, names, k)->Ok_0[j] == s[j],
    decreases names.len() - k,
{
    if k < names.len() {
        let s1 = patch_function(s, md, cx, names[k]@)->Ok_0;
        lemma_patch_function_frame(s, md, cx, names[k]@);
        lemma_patch_functions_frame(s1, md, cx, names, k + 1);
        assert forall|j: int|
            0 <= j < s.len() && (forall|n: int|
                k <= n < names.len() ==> !function_bytes(md, cx, (#[trigger] names[n])@, j)) implies patch_functions(
            s,
            md,
            cx,
            names,
            k,
        )->Ok_0[j] == s[j] by {
            assert(!function_bytes(md, cx, names[k]@, j));
        }
    }
}

/// True when the call sites of the functions `names[k..]` can be told
/// apart from everything else that is written when those functions are
/// patched: no two call sites of a function overlap, no call site overlaps
/// the stub or a symbol table entry of its function, and no call site is
/// written again when a later function is patched.
pub open spec fn sites_undisturbed(md: Metadata, cx: PatchContext, names: Seq<String>, k: int) -> bool {
    forall|n: int|
        k <= n < names.len() ==> {
            let sites = md.sites((#[trigger] names[n])@);
            &&& forall|a: int, b: int|
                0 <= a < b < sites.len() ==> sites_apart(md, sites[a], sites[b])
            &&& forall|i: int, j: int|
                0 <= i < sites.len() && site_bytes(md, sites[i], j) ==> !entry_bytes(
                    md,
                    cx,
                    names[n]@,
                    j,
                )
            &&& forall|i: int, m: int, j: int|
                0 <= i < sites.len() && n < m < names.len() && site_bytes(md, sites[i], j)
                    ==> !function_bytes(md, cx, names[m]@, j)
        }
}

/// After merging, every recorded call site refers to its function.
///
/// When the functions `names[k..]` have been patched in the image and
/// their call sites are undisturbed, the field at every recorded call site of
/// each of them, read back from the final image, leads to the final address
/// of the function as the addressing mode of the site says.
pub proof fn lemma_merged_sites_refer(s: Seq<u8>, md: Metadata, cx: PatchContext, names: Seq<String>, k: int)
    requires
        0 <= k,
        s.len() <= usize::MAX,
        patch_functions(s, md, cx, names, k) is Ok,
        sites_undisturbed(md, cx, names, k),
    ensures
        forall|n: int, i: int|
            k <= n < names.len() && 0 <= i < md.sites(names[n]@).len() ==> site_refers(
                patch_functions(s, md, cx, names, k)->Ok_0,
                md,
                #[trigger] md.sites(names[n]@)[i],
                cx.functions[(#[trigger] names[n])@].0,
            ),
    decreases names.len() - k,
{
    if k < names.len() {
        let name = names[k]@;
        let func = cx.functions[name].0;
        let sites = md.sites(name);
        let s1 = patch_sites(s, md, sites, 0, func)->Ok_0;
        let s2 = patch_function(s, md, cx, name)->Ok_0;
        let t = patch_functions(s, md, cx, names, k)->Ok_0;
        lemma_patch_entries_frame(s, md, cx, name);
        lemma_patch_sites_frame(s, md, sites, 0, func);
        lemma_patched_sites_refer(s, md, sites, 0, func);
        lemma_patch_functions_frame(s2, md, cx, names, k + 1);
        lemma_merged_sites_refer(s2, md, cx, names, k + 1);
        assert(sites_undisturbed(md, cx, names, k + 1));
        assert forall|i: int| 0 <= i < sites.len() implies site_refers(t, md, #[trigger] sites[i], func) by {
            lemma_site_in_bounds(s, md, sites, 0, func, i);
            assert forall|j: int| site_bytes(md, sites[i], j) implies s1[j] == t[j] by {
                assert(!entry_bytes(md, cx, name, j));
                assert forall|m: int| k + 1 <= m < names.len() implies !function_bytes(
                    md,
                    cx,
                    (#[trigger] names[m])@,
                    j,
                ) by {}
            }
            lemma_site_read_stable(s1, t, md, sites[i], func);
        }
    }
}

/// A call site that was patched lies inside the image and is 4 or 8 bytes wide.
pub proof fn lemma_site_in_bounds(
    s: Seq<u8>,
    md: Metadata,
    sites: Seq<SurgeryEntry>,
    k: int,
    func: u64,
    i: int,
)
    requires
        0 <= k <= i < sites.len(),
        s.len() <= usize::MAX,
        patch_sites(s, md, sites, k, func) is Ok,
    ensures
        0 <= md.physical_image(sites[i].file_offset as int),
        md.physical_image(sites[i].file_offset as int) + sites[i].size <= s.len(),
        sites[i].size == 4 || sites[i].size == 8,
    decreases sites.len() - k,
{
    lemma_patch_site_frame(s, md, sites[k], func);
    if k < i {
        lemma_site_in_bounds(patch_site(s, md, sites[k], func)->Ok_0, md, sites, k + 1, func, i);
    }
}

/// What is the same for every function when the host is patched for the
/// functions `functions`: the places of the two symbol tables after the
/// shift, and the section index, which is that of the last program header.
pub open spec fn patch_context(md: Metadata, functions: Map<Seq<char>, (u64, u64)>, ph_num: u16) -> PatchContext {
    PatchContext {
        functions,
        dynsym: moved(md.geometry(), Space::Physical, md.dynamic_symbol_table_section_offset)->Ok_0,
        symtab: moved(md.geometry(), Space::Physical, md.symbol_table_section_offset)->Ok_0,
        section: (ph_num - 1) as u16,
    }
}

/// After the host has been patched, every call site that preprocessing
/// recorded for a function that the host requires refers to the address
/// that merging gave the function, provided that the call sites are
/// undisturbed by the other patches.
pub proof fn lemma_patched_refers(s: Seq<u8>, md: Metadata, functions: Map<Seq<char>, (u64, u64)>, ph_num: u16)
    requires
        s.len() <= usize::MAX,
        patched(s, md, functions, ph_num) is Ok,
        sites_undisturbed(md, patch_context(md, functions, ph_num), md.app_functions@, 0),
    ensures
        forall|n: int, i: int|
            0 <= n < md.app_functions@.len() && 0 <= i < md.sites(md.app_functions@[n]@).len()
                ==> site_refers(
                patched(s, md, functions, ph_num)->Ok_0,
                md,
                #[trigger] md.sites(md.app_functions@[n]@)[i],
                functions[(#[trigger] md.app_functions@[n])@].0,
            ),
{
    lemma_merged_sites_refer(s, md, patch_context(md, functions, ph_num), md.app_functions@, 0);
}

} // verus!
