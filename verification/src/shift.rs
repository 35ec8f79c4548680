//! Mapping of addresses recorded before the header shift to where they lie afterwards.
//!
//! Preprocessing inserts room for new program headers and places a duplicate
//! of the relocation table at the end of the file. Every offset or address that
//! was recorded before that must go through these functions before it is used
//! on the rewritten binary.

use vstd::prelude::*;
use crate::metadata::{Geometry, Metadata};

verus! {

/// Where a coordinate lies after the shift.
///
/// A coordinate inside the relocation table follows the table to its new
/// position. Any other coordinate moves up by `shift` when it lies at or after
/// `shift_start`, and by `table_size` more when it lies at or after `new_table`.
pub open spec fn shifted(
    old_table: int,
    new_table: int,
    table_size: int,
    shift_start: int,
    shift: int,
    at: int,
) -> int {
    if old_table <= at < old_table + table_size {
        new_table + (at - old_table) + shift
    } else {
        at + (if shift_start <= at {
            shift
        } else {
            0
        }) + (if new_table <= at {
            table_size
        } else {
            0
        })
    }
}

/// True when `at` lies inside the relocation table that is relocated.
pub open spec fn in_table(old_table: int, table_size: int, at: int) -> bool {
    old_table <= at < old_table + table_size
}

impl Geometry {
    /// Where the file offset `offset` lies after the shift.
    pub open spec fn physical_image(self, offset: int) -> int {
        shifted(
            self.original_rela_paddr as int,
            self.new_rela_paddr as int,
            self.rela_size as int,
            self.ph_physical_shift_start as int,
            self.ph_shift_bytes as int,
            offset,
        )
    }

    /// Where the virtual address `address` lies after the shift.
    pub open spec fn virtual_image(self, address: int) -> int {
        shifted(
            self.original_rela_vaddr as int,
            self.new_rela_vaddr as int,
            self.rela_size as int,
            self.ph_virtual_shift_start as int,
            self.ph_shift_bytes as int,
            address,
        )
    }

    /// True when the file offset `offset` lies inside the relocated table.
    pub open spec fn in_physical_table(self, offset: int) -> bool {
        in_table(self.original_rela_paddr as int, self.rela_size as int, offset)
    }

    /// True when the virtual address `address` lies inside the relocated table.
    pub open spec fn in_virtual_table(self, address: int) -> bool {
        in_table(self.original_rela_vaddr as int, self.rela_size as int, address)
    }

    /// In the file, the shift starts no later than the new position of the
    /// relocation table.
    pub open spec fn physical_shift_ordered(self) -> bool {
        self.ph_physical_shift_start <= self.new_rela_paddr
    }

    /// In memory, the shift starts no later than the new position of the
    /// relocation table.
    pub open spec fn virtual_shift_ordered(self) -> bool {
        self.ph_virtual_shift_start <= self.new_rela_vaddr
    }
}

impl Metadata {
    /// Where the file offset `offset` lies after the shift.
    pub open spec fn physical_image(self, offset: int) -> int {
        self.geometry().physical_image(offset)
    }

    /// Where the virtual address `address` lies after the shift.
    pub open spec fn virtual_image(self, address: int) -> int {
        self.geometry().virtual_image(address)
    }

    /// True when the file offset `offset` lies inside the relocated table.
    pub open spec fn in_physical_table(self, offset: int) -> bool {
        self.geometry().in_physical_table(offset)
    }

    /// True when the virtual address `address` lies inside the relocated table.
    pub open spec fn in_virtual_table(self, address: int) -> bool {
        self.geometry().in_virtual_table(address)
    }

    /// In the file, the shift starts no later than the new position of the
    /// relocation table.
    pub open spec fn physical_shift_ordered(self) -> bool {
        self.geometry().physical_shift_ordered()
    }

    /// In memory, the shift starts no later than the new position of the
    /// relocation table.
    pub open spec fn virtual_shift_ordered(self) -> bool {
        self.geometry().virtual_shift_ordered()
    }
}

/// Computes `shifted` when the result fits in 64 bits.
fn shift_coordinate(
    old_table: u64,
    new_table: u64,
    table_size: u64,
    shift_start: u64,
    shift: u64,
    at: u64,
) -> (r: Option<u64>)
    ensures
        r == (if shifted(
            old_table as int,
            new_table as int,
            table_size as int,
            shift_start as int,
            shift as int,
            at as int,
        ) <= u64::MAX {
            Some(
                shifted(
                    old_table as int,
                    new_table as int,
                    table_size as int,
                    shift_start as int,
                    shift as int,
                    at as int,
                ) as u64,
            )
        } else {
            None
        }),
{
    let wide: u128 = if old_table <= at && at - old_table < table_size {
        new_table as u128 + (at - old_table) as u128 + shift as u128
    } else {
        let first: u128 = if shift_start <= at {
            shift as u128
        } else {
            0
        };
        let second: u128 = if new_table <= at {
            table_size as u128
        } else {
            0
        };
        at as u128 + first + second
    };
    if wide <= u64::MAX as u128 {
        Some(wide as u64)
    } else {
        None
    }
}

/// Maps a file offset recorded before the shift to the offset of the same
/// byte in the rewritten binary; `None` when the result does not fit in 64 bits.
pub fn checked_physical_offset(md: &Metadata, offset: u64) -> (r: Option<u64>)
    ensures
        r == (if md.physical_image(offset as int) <= u64::MAX {
            Some(md.physical_image(offset as int) as u64)
        } else {
            None
        }),
{
    shift_coordinate(
        md.original_rela_paddr,
        md.new_rela_paddr,
        md.rela_size,
        md.ph_physical_shift_start,
        md.ph_shift_bytes,
        offset,
    )
}

/// Maps a virtual address recorded before the shift to the address of the
/// same byte in the rewritten binary; `None` when the result does not fit in 64 bits.
pub fn checked_virtual_offset(md: &Metadata, address: u64) -> (r: Option<u64>)
    ensures
        r == (if md.virtual_image(address as int) <= u64::MAX {
            Some(md.virtual_image(address as int) as u64)
        } else {
            None
        }),
{
    shift_coordinate(
        md.original_rela_vaddr,
        md.new_rela_vaddr,
        md.rela_size,
        md.ph_virtual_shift_start,
        md.ph_shift_bytes,
        address,
    )
}

/// Maps a file offset recorded before the shift to the offset of the same
/// byte in the rewritten binary.
pub fn update_physical_offset(md: &Metadata, offset: u64) -> (r: u64)
    requires
        md.physical_image(offset as int) <= u64::MAX,
    ensures
        r == md.physical_image(offset as int),
{
    match checked_physical_offset(md, offset) {
        Some(r) => r,
        None => 0,
    }
}

/// Maps a virtual address recorded before the shift to the address of the
/// same byte in the rewritten binary.
pub fn update_virtual_offset(md: &Metadata, address: u64) -> (r: u64)
    requires
        md.virtual_image(address as int) <= u64::MAX,
    ensures
        r == md.virtual_image(address as int),
{
    match checked_virtual_offset(md, address) {
        Some(r) => r,
        None => 0,
    }
}

/// Two coordinates that are both inside the relocated table, or both outside
/// it, keep their order: the smaller one is mapped strictly below the larger one.
pub proof fn lemma_shifted_monotonic(
    old_table: int,
    new_table: int,
    table_size: int,
    shift_start: int,
    shift: int,
    a: int,
    b: int,
)
    requires
        0 <= table_size,
        0 <= shift,
        a < b,
        in_table(old_table, table_size, a) == in_table(old_table, table_size, b),
    ensures
        shifted(old_table, new_table, table_size, shift_start, shift, a) < shifted(
            old_table,
            new_table,
            table_size,
            shift_start,
            shift,
            b,
        ),
{
}

/// When the shift starts no later than the table's new position, no two
/// distinct coordinates are mapped to the same place.
pub proof fn lemma_shifted_injective(
    old_table: int,
    new_table: int,
    table_size: int,
    shift_start: int,
    shift: int,
    a: int,
    b: int,
)
    requires
        0 <= table_size,
        0 <= shift,
        shift_start <= new_table,
        a != b,
    ensures
        shifted(old_table, new_table, table_size, shift_start, shift, a) != shifted(
            old_table,
            new_table,
            table_size,
            shift_start,
            shift,
            b,
        ),
{
}

/// File offsets keep their order under the shift, as long as both lie inside
/// the relocated table or both lie outside it.
pub proof fn lemma_physical_monotonic(md: Metadata, a: u64, b: u64)
    requires
        a <= b,
        md.in_physical_table(a as int) == md.in_physical_table(b as int),
    ensures
        md.physical_image(a as int) <= md.physical_image(b as int),
        a < b ==> md.physical_image(a as int) < md.physical_image(b as int),
{
    if a < b {
        lemma_shifted_monotonic(
            md.original_rela_paddr as int,
            md.new_rela_paddr as int,
            md.rela_size as int,
            md.ph_physical_shift_start as int,
            md.ph_shift_bytes as int,
            a as int,
            b as int,
        );
    }
}

/// Virtual addresses keep their order under the shift, as long as both lie
/// inside the relocated table or both lie outside it.
pub proof fn lemma_virtual_monotonic(md: Metadata, a: u64, b: u64)
    requires
        a <= b,
        md.in_virtual_table(a as int) == md.in_virtual_table(b as int),
    ensures
        md.virtual_image(a as int) <= md.virtual_image(b as int),
        a < b ==> md.virtual_image(a as int) < md.virtual_image(b as int),
{
    if a < b {
        lemma_shifted_monotonic(
            md.original_rela_vaddr as int,
            md.new_rela_vaddr as int,
            md.rela_size as int,
            md.ph_virtual_shift_start as int,
            md.ph_shift_bytes as int,
            a as int,
            b as int,
        );
    }
}

/// Two distinct file offsets are never mapped to the same offset.
pub proof fn lemma_physical_injective(md: Metadata, a: u64, b: u64)
    requires
        md.physical_shift_ordered(),
        a != b,
    ensures
        md.physical_image(a as int) != md.physical_image(b as int),
{
    lemma_shifted_injective(
        md.original_rela_paddr as int,
        md.new_rela_paddr as int,
        md.rela_size as int,
        md.ph_physical_shift_start as int,
        md.ph_shift_bytes as int,
        a as int,
        b as int,
    );
}

/// Two distinct virtual addresses are never mapped to the same address.
pub proof fn lemma_virtual_injective(md: Metadata, a: u64, b: u64)
    requires
        md.virtual_shift_ordered(),
        a != b,
    ensures
        md.virtual_image(a as int) != md.virtual_image(b as int),
{
    lemma_shifted_injective(
        md.original_rela_vaddr as int,
        md.new_rela_vaddr as int,
        md.rela_size as int,
        md.ph_virtual_shift_start as int,
        md.ph_shift_bytes as int,
        a as int,
        b as int,
    );
}

} // verus!
