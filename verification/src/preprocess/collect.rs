//! What preprocessing learns from the symbols and the procedure linkage
//! table of the host before any byte is rewritten.

use std::collections::HashMap;
use vstd::prelude::*;
use crate::elf::{PLT_ADDRESS_OFFSET, R_X86_64_JUMP_SLOT};
use crate::error::LinkError;
use crate::name_map::NameMap;
use crate::object_file::{RelocationRecord, RelocKind, SymbolRecord};
use crate::preprocess::disasm::stub_names;
use crate::preprocess::scan::{bound_symbol, bound_symbol_of};
use crate::symbols::{is_roc_undefined, roc_undefined};

verus! {

broadcast use vstd::std_specs::hash::group_hash_axioms;

/// `acc` followed by the symbols among `symbols[k..]` that the host
/// expects from the application.
pub open spec fn undefined_symbols(symbols: Seq<SymbolRecord>, k: int, acc: Seq<SymbolRecord>) -> Seq<
    SymbolRecord,
>
    decreases symbols.len() - k,
{
    if k < 0 || k >= symbols.len() {
        acc
    } else if roc_undefined(symbols[k]) {
        undefined_symbols(symbols, k + 1, acc.push(symbols[k]))
    } else {
        undefined_symbols(symbols, k + 1, acc)
    }
}

/// A copy of a symbol.
pub fn copy_symbol(sym: &SymbolRecord) -> (r: SymbolRecord)
    ensures
        r == *sym,
{
    SymbolRecord {
        index: sym.index,
        name: match &sym.name {
            Some(n) => Some(n.clone()),
            None => None,
        },
        address: sym.address,
        size: sym.size,
        section: sym.section,
        is_definition: sym.is_definition,
        is_undefined: sym.is_undefined,
    }
}

/// Lists the symbols that the host expects from the application.
pub fn select_undefined(symbols: &Vec<SymbolRecord>) -> (r: Vec<SymbolRecord>)
    ensures
        r@ == undefined_symbols(symbols@, 0, Seq::empty()),
{
    let mut out: Vec<SymbolRecord> = Vec::new();
    let n: usize = symbols.len();
    let mut k: usize = 0;
    while k < n
        invariant
            k <= n,
            n == symbols@.len(),
            undefined_symbols(symbols@, 0, Seq::empty()) == undefined_symbols(
                symbols@,
                k as int,
                out@,
            ),
        decreases n - k,
    {
        if is_roc_undefined(&symbols[k]) {
            out.push(copy_symbol(&symbols[k]));
        }
        k += 1;
    }
    out
}

/// The stubs of the procedure linkage table that stand for application functions.
pub struct Stubs {
    /// Address of the stub to the name of the function.
    pub names: Map<u64, Seq<char>>,
    /// Name of the function to file offset and address of its stub.
    pub places: Map<Seq<char>, (u64, u64)>,
    /// Number of jump-slot relocations seen so far.
    pub seen: u64,
}

/// The stubs after the dynamic relocation `rel` has been looked at.
///
/// Every jump-slot relocation owns one stub; the stubs follow the header of
/// the table, which lies at the address `plt_address` and the file offset
/// `plt_offset`, at a fixed stride and in the order of the relocations. A
/// stub whose relocation refers to one of the symbols `app_syms` stands for
/// that function.
pub open spec fn discover_stub(
    st: Stubs,
    rel: RelocationRecord,
    app_syms: Seq<SymbolRecord>,
    plt_address: u64,
    plt_offset: u64,
) -> Result<Stubs, LinkError> {
    if rel.kind != RelocKind::Elf(R_X86_64_JUMP_SLOT) {
        Ok(st)
    } else if st.seen == u64::MAX {
        Err(LinkError::ArithmeticOverflow)
    } else {
        match bound_symbol(rel, R_X86_64_JUMP_SLOT, app_syms) {
            None => Ok(Stubs { seen: (st.seen + 1) as u64, ..st }),
            Some(p) => match app_syms[p as int].name {
                None => Err(LinkError::InvalidName),
                Some(name) => if (st.seen + 1) * PLT_ADDRESS_OFFSET + plt_address > u64::MAX || (
                st.seen + 1) * PLT_ADDRESS_OFFSET + plt_offset > u64::MAX {
                    Err(LinkError::ArithmeticOverflow)
                } else {
                    let address = ((st.seen + 1) * PLT_ADDRESS_OFFSET + plt_address) as u64;
                    let offset = ((st.seen + 1) * PLT_ADDRESS_OFFSET + plt_offset) as u64;
                    Ok(
                        Stubs {
                            names: st.names.insert(address, name@),
                            places: st.places.insert(name@, (offset, address)),
                            seen: (st.seen + 1) as u64,
                        },
                    )
                },
            },
        }
    }
}

/// The stubs after the dynamic relocations `relocs[k..]` have been looked at.
pub open spec fn discover_stubs(
    st: Stubs,
    relocs: Seq<RelocationRecord>,
    k: int,
    app_syms: Seq<SymbolRecord>,
    plt_address: u64,
    plt_offset: u64,
) -> Result<Stubs, LinkError>
    decreases relocs.len() - k,
{
    if k < 0 || k >= relocs.len() {
        Ok(st)
    } else {
        match discover_stub(st, relocs[k], app_syms, plt_address, plt_offset) {
            Ok(next) => discover_stubs(next, relocs, k + 1, app_syms, plt_address, plt_offset),
            Err(e) => Err(e),
        }
    }
}

/// Finds the stubs of the procedure linkage table that stand for
/// application functions. Returns the name behind each stub address, the
/// place of the stub of each name, and the number of jump-slot relocations.
pub fn discover_plt(
    relocs: &Vec<RelocationRecord>,
    app_syms: &Vec<SymbolRecord>,
    plt_address: u64,
    plt_offset: u64,
) -> (r: Result<(HashMap<u64, String>, NameMap<(u64, u64)>, u64), LinkError>)
    ensures
        match r {
            Ok((addresses, places, seen)) => places.wf() &&
                discover_stubs(
                    Stubs { names: Map::empty(), places: Map::empty(), seen: 0 },
                    relocs@,
                    0,
                    app_syms@,
                    plt_address,
                    plt_offset,
                ) == Ok::<Stubs, LinkError>(
                    Stubs { names: stub_names(addresses@), places: places@, seen },
                ),
            Err(e) => discover_stubs(
                Stubs { names: Map::empty(), places: Map::empty(), seen: 0 },
                relocs@,
                0,
                app_syms@,
                plt_address,
                plt_offset,
            ) == Err::<Stubs, LinkError>(e),
        },
{
    let mut addresses: HashMap<u64, String> = HashMap::new();
    let mut places: NameMap<(u64, u64)> = NameMap::new();
    let mut seen: u64 = 0;
    proof {
        assert(stub_names(addresses@) =~= Map::<u64, Seq<char>>::empty());
    }
    let n: usize = relocs.len();
    let mut k: usize = 0;
    while k < n
        invariant
            k <= n,
            n == relocs@.len(),
            places.wf(),
            discover_stubs(
                Stubs { names: Map::empty(), places: Map::empty(), seen: 0 },
                relocs@,
                0,
                app_syms@,
                plt_address,
                plt_offset,
            ) == discover_stubs(
                Stubs { names: stub_names(addresses@), places: places@, seen },
                relocs@,
                k as int,
                app_syms@,
                plt_address,
                plt_offset,
            ),
        decreases n - k,
    {
        let is_slot: bool = match relocs[k].kind {
            RelocKind::Elf(t) => t == R_X86_64_JUMP_SLOT,
            _ => false,
        };
        if is_slot {
            if seen == u64::MAX {
                return Err(LinkError::ArithmeticOverflow);
            }
            match bound_symbol_of(&relocs[k], R_X86_64_JUMP_SLOT, app_syms) {
                None => {},
                Some(p) => match &app_syms[p].name {
                    None => {
                        return Err(LinkError::InvalidName);
                    },
                    Some(name) => {
                        let step: u128 = (seen as u128 + 1) * 16;
                        if step + plt_address as u128 > u64::MAX as u128 || step + plt_offset as u128
                            > u64::MAX as u128 {
                            return Err(LinkError::ArithmeticOverflow);
                        }
                        let address: u64 = (step + plt_address as u128) as u64;
                        let offset: u64 = (step + plt_offset as u128) as u64;
                        let ghost before = addresses@;
                        addresses.insert(address, name.clone());
                        places.insert(name.clone(), (offset, address));
                        proof {
                            assert(stub_names(addresses@) =~= stub_names(before).insert(
                                address,
                                name@,
                            ));
                        }
                    },
                },
            }
            seen = seen + 1;
        }
        k += 1;
    }
    Ok((addresses, places, seen))
}

/// `acc` followed by the names of the symbols `symbols[k..]`, each of
/// which must have one.
pub open spec fn symbol_names(symbols: Seq<SymbolRecord>, k: int, acc: Seq<String>) -> Result<
    Seq<String>,
    LinkError,
>
    decreases symbols.len() - k,
{
    if k < 0 || k >= symbols.len() {
        Ok(acc)
    } else {
        match symbols[k].name {
            None => Err(LinkError::InvalidName),
            Some(name) => symbol_names(symbols, k + 1, acc.push(name)),
        }
    }
}

/// `acc` with the index of each of the symbols `symbols[k..]` recorded
/// under its name. A later symbol of a name replaces an earlier one.
pub open spec fn symbol_indices(symbols: Seq<SymbolRecord>, k: int, acc: Map<Seq<char>, u64>) -> Result<
    Map<Seq<char>, u64>,
    LinkError,
>
    decreases symbols.len() - k,
{
    if k < 0 || k >= symbols.len() {
        Ok(acc)
    } else {
        match symbols[k].name {
            None => Err(LinkError::InvalidName),
            Some(name) => symbol_indices(symbols, k + 1, acc.insert(name@, symbols[k].index)),
        }
    }
}

/// Lists the names of the symbols.
pub fn collect_names(symbols: &Vec<SymbolRecord>) -> (r: Result<Vec<String>, LinkError>)
    ensures
        match r {
            Ok(names) => symbol_names(symbols@, 0, Seq::empty()) == Ok::<Seq<String>, LinkError>(
                names@,
            ),
            Err(e) => symbol_names(symbols@, 0, Seq::empty()) == Err::<Seq<String>, LinkError>(e),
        },
{
    let mut out: Vec<String> = Vec::new();
    let n: usize = symbols.len();
    let mut k: usize = 0;
    while k < n
        invariant
            k <= n,
            n == symbols@.len(),
            symbol_names(symbols@, 0, Seq::empty()) == symbol_names(symbols@, k as int, out@),
        decreases n - k,
    {
        match &symbols[k].name {
            None => {
                return Err(LinkError::InvalidName);
            },
            Some(name) => {
                out.push(name.clone());
            },
        }
        k += 1;
    }
    Ok(out)
}

/// Records the index of each symbol under its name.
pub fn collect_indices(symbols: &Vec<SymbolRecord>) -> (r: Result<NameMap<u64>, LinkError>)
    ensures
        match r {
            Ok(table) => table.wf() && symbol_indices(symbols@, 0, Map::empty()) == Ok::<
                Map<Seq<char>, u64>,
                LinkError,
            >(table@),
            Err(e) => symbol_indices(symbols@, 0, Map::empty()) == Err::<
                Map<Seq<char>, u64>,
                LinkError,
            >(e),
        },
{
    let mut out: NameMap<u64> = NameMap::new();
    let n: usize = symbols.len();
    let mut k: usize = 0;
    while k < n
        invariant
            k <= n,
            n == symbols@.len(),
            out.wf(),
            symbol_indices(symbols@, 0, Map::empty()) == symbol_indices(symbols@, k as int, out@),
        decreases n - k,
    {
        match &symbols[k].name {
            None => {
                return Err(LinkError::InvalidName);
            },
            Some(name) => {
                out.insert(name.clone(), symbols[k].index);
            },
        }
        k += 1;
    }
    Ok(out)
}

/// The name of the application function whose stub the dynamic relocation
/// `rel` owns: `rel` is a jump-slot relocation that refers to one of the
/// symbols `app_syms`.
pub open spec fn stub_owner(rel: RelocationRecord, app_syms: Seq<SymbolRecord>) -> Option<Seq<char>> {
    match bound_symbol(rel, R_X86_64_JUMP_SLOT, app_syms) {
        None => None,
        Some(p) => match app_syms[p as int].name {
            None => None,
            Some(name) => Some(name@),
        },
    }
}

/// True when one of the relocations `relocs[k..]` owns the stub of the
/// application function `name`.
pub open spec fn has_stub(relocs: Seq<RelocationRecord>, k: int, app_syms: Seq<SymbolRecord>, name: Seq<char>) -> bool {
    exists|j: int| k <= j < relocs.len() && stub_owner(#[trigger] relocs[j], app_syms) == Some(name)
}

/// The stubs that are found are exactly those of the application symbols
/// that a jump-slot relocation refers to: a name has a place if and only if
/// it had one before or one of the relocations owns its stub. A symbol that
/// only other relocations refer to, or none, gets no place.
pub proof fn lemma_stub_places(
    st: Stubs,
    relocs: Seq<RelocationRecord>,
    k: int,
    app_syms: Seq<SymbolRecord>,
    plt_address: u64,
    plt_offset: u64,
)
    requires
        0 <= k,
        discover_stubs(st, relocs, k, app_syms, plt_address, plt_offset) is Ok,
    ensures
        forall|name: Seq<char>|
            discover_stubs(
                st,
                relocs,
                k,
                app_syms,
                plt_address,
                plt_offset,
            )->Ok_0.places.dom().contains(name) <==> (st.places.dom().contains(name) || has_stub(
                relocs,
                k,
                app_syms,
                name,
            )),
    decreases relocs.len() - k,
{
    let out = discover_stubs(st, relocs, k, app_syms, plt_address, plt_offset)->Ok_0;
    if k < relocs.len() {
        let next = discover_stub(st, relocs[k], app_syms, plt_address, plt_offset)->Ok_0;
        lemma_stub_places(next, relocs, k + 1, app_syms, plt_address, plt_offset);
        assert forall|name: Seq<char>|
            out.places.dom().contains(name) <==> (st.places.dom().contains(name) || has_stub(
                relocs,
                k,
                app_syms,
                name,
            )) by {
            if has_stub(relocs, k, app_syms, name) {
                let j = choose|j: int|
                    k <= j < relocs.len() && stub_owner(#[trigger] relocs[j], app_syms) == Some(name);
                if j != k {
                    assert(has_stub(relocs, k + 1, app_syms, name));
                }
            }
            if has_stub(relocs, k + 1, app_syms, name) {
                let j = choose|j: int|
                    k + 1 <= j < relocs.len() && stub_owner(#[trigger] relocs[j], app_syms) == Some(
                        name,
                    );
                assert(k <= j < relocs.len() && stub_owner(relocs[j], app_syms) == Some(name));
            }
            if next.places.dom().contains(name) && !st.places.dom().contains(name) {
                assert(stub_owner(relocs[k], app_syms) == Some(name));
            }
        }
    } else {
        assert forall|name: Seq<char>| !has_stub(relocs, k, app_syms, name) by {}
    }
}

/// Every symbol that is selected is one that the host expects from the
/// application, and no more symbols are selected than there are.
pub proof fn lemma_selected_are_undefined(symbols: Seq<SymbolRecord>, k: int, acc: Seq<SymbolRecord>)
    requires
        0 <= k <= symbols.len(),
        forall|i: int| 0 <= i < acc.len() ==> roc_undefined(#[trigger] acc[i]),
    ensures
        undefined_symbols(symbols, k, acc).len() <= acc.len() + symbols.len() - k,
        forall|i: int|
            0 <= i < undefined_symbols(symbols, k, acc).len() ==> roc_undefined(
                #[trigger] undefined_symbols(symbols, k, acc)[i],
            ),
    decreases symbols.len() - k,
{
    if k < symbols.len() {
        if roc_undefined(symbols[k]) {
            let next = acc.push(symbols[k]);
            assert forall|i: int| 0 <= i < next.len() implies roc_undefined(#[trigger] next[i]) by {
                if i < acc.len() {
                    assert(next[i] == acc[i]);
                }
            }
            lemma_selected_are_undefined(symbols, k + 1, next);
        } else {
            lemma_selected_are_undefined(symbols, k + 1, acc);
        }
    }
}

} // verus!
