//! Rewriting of the section header table, and the relocation tables it names.

use vstd::prelude::*;
use crate::bytes::{read_u32, read_u64, u32_at, u64_at};
use crate::elf::{SECTION_HEADER_SIZE, SH_ADDR, SH_OFFSET, SH_SIZE, SH_TYPE};
use crate::error::LinkError;
use crate::metadata::{Geometry, Metadata};
use crate::table::{outcome, shift_column, shift_column_in, Space};

verus! {

/// A table named by a section header.
#[derive(Debug, Clone, Copy, PartialEq, Eq, Structural)]
pub struct TableRef {
    /// Index of the section header.
    pub index: u64,
    /// Position of the section header in the image.
    pub header: usize,
    /// File offset of the table before the shift.
    pub offset: u64,
    /// Size of the table in bytes.
    pub size: u64,
}

/// The tables named by the section headers of type `wanted` between `pos`
/// and `end`, in the order of the headers. `index` is the index of the header
/// at `pos`.
pub open spec fn tables_of_type(s: Seq<u8>, pos: int, end: int, index: int, wanted: u32) -> Seq<
    TableRef,
>
    decreases end - pos,
{
    if pos + SECTION_HEADER_SIZE > end {
        Seq::empty()
    } else {
        let rest = tables_of_type(s, pos + SECTION_HEADER_SIZE, end, index + 1, wanted);
        if u32_at(s, pos + SH_TYPE) == wanted {
            seq![
                TableRef {
                    index: index as u64,
                    header: pos as usize,
                    offset: u64_at(s, pos + SH_OFFSET),
                    size: u64_at(s, pos + SH_SIZE),
                },
            ] + rest
        } else {
            rest
        }
    }
}

/// Offset and size of each table in `tables`.
pub open spec fn extents(tables: Seq<TableRef>) -> Seq<(u64, u64)> {
    Seq::new(tables.len(), |i: int| (tables[i].offset, tables[i].size))
}

/// Lists the tables named by the section headers of type `wanted`.
pub fn collect_tables(data: &[u8], base: usize, end: usize, wanted: u32) -> (r: Vec<TableRef>)
    requires
        base <= end <= data@.len(),
    ensures
        r@ == tables_of_type(data@, base as int, end as int, 0, wanted),
        forall|i: int|
            0 <= i < r@.len() ==> base <= (#[trigger] r@[i]).header && r@[i].header
                + SECTION_HEADER_SIZE <= end,
{
    let mut pos: usize = base;
    let mut index: usize = 0;
    let mut found: Vec<TableRef> = Vec::new();
    while end - pos >= SECTION_HEADER_SIZE
        invariant
            base <= pos <= end <= data@.len(),
            index <= pos - base,
            forall|i: int|
                0 <= i < found@.len() ==> base <= (#[trigger] found@[i]).header && found@[i].header
                    + SECTION_HEADER_SIZE <= end,
            found@ + tables_of_type(data@, pos as int, end as int, index as int, wanted)
                == tables_of_type(data@, base as int, end as int, 0, wanted),
        decreases end - pos,
    {
        if read_u32(data, pos + SH_TYPE) == wanted {
            let ghost before = found@;
            found.push(
                TableRef {
                    index: index as u64,
                    header: pos,
                    offset: read_u64(data, pos + SH_OFFSET),
                    size: read_u64(data, pos + SH_SIZE),
                },
            );
            proof {
                let rest = tables_of_type(
                    data@,
                    pos + SECTION_HEADER_SIZE,
                    end as int,
                    index + 1,
                    wanted,
                );
                assert(found@ + rest =~= before + (seq![found@[found@.len() - 1]] + rest));
            }
        }
        pos = pos + SECTION_HEADER_SIZE;
        index = index + 1;
    }
    proof {
        assert(found@ + Seq::<TableRef>::empty() =~= found@);
    }
    found
}

/// Offset and size of each table in `tables`.
pub fn extents_of(tables: &Vec<TableRef>) -> (r: Vec<(u64, u64)>)
    ensures
        r@ == extents(tables@),
{
    let n: usize = tables.len();
    let mut out: Vec<(u64, u64)> = Vec::new();
    let mut i: usize = 0;
    while i < n
        invariant
            i <= n,
            n == tables@.len(),
            out@ == extents(tables@.subrange(0, i as int)),
        decreases n - i,
    {
        out.push((tables[i].offset, tables[i].size));
        i += 1;
        proof {
            assert(out@ =~= extents(tables@.subrange(0, i as int)));
        }
    }
    proof {
        assert(tables@.subrange(0, n as int) =~= tables@);
    }
    out
}

/// `s` with the file offset and the address of every section header
/// between `base` and `end` shifted.
pub open spec fn shifted_section_headers(s: Seq<u8>, md: Geometry, base: int, end: int) -> Result<
    Seq<u8>,
    LinkError,
> {
    match shift_column(
        s,
        md,
        Space::Physical,
        base,
        end,
        SECTION_HEADER_SIZE as int,
        SH_OFFSET as int,
    ) {
        Ok(t) => shift_column(
            t,
            md,
            Space::Virtual,
            base,
            end,
            SECTION_HEADER_SIZE as int,
            SH_ADDR as int,
        ),
        Err(e) => Err(e),
    }
}

/// Shifts the file offset and the address of every section header.
pub fn shift_section_headers(buf: &mut Vec<u8>, md: &Metadata, base: usize, end: usize) -> (r:
    Result<(), LinkError>)
    requires
        base <= end <= old(buf)@.len(),
    ensures
        outcome(r, final(buf)@, shifted_section_headers(old(buf)@, md.geometry(), base as int, end as int)),
        final(buf)@.len() == old(buf)@.len(),
{
    shift_column_in(buf, md, Space::Physical, base, end, SECTION_HEADER_SIZE, SH_OFFSET)?;
    shift_column_in(buf, md, Space::Virtual, base, end, SECTION_HEADER_SIZE, SH_ADDR)
}

} // verus!
