//! Tables of fixed-size records inside a file image, and the shifting of
//! address fields in them.

use vstd::prelude::*;
use crate::bytes::{
    fits, lemma_put_u64_frame, lemma_put_u64_len, lemma_u64_read_back, put_u64, read_u64, u64_at,
    write_u64,
};
use crate::error::LinkError;
use crate::metadata::{Geometry, Metadata};
use crate::shift::{checked_physical_offset, checked_virtual_offset};

verus! {

/// The two coordinate systems of an executable.
#[derive(Debug, Clone, Copy, PartialEq, Eq, Structural)]
pub enum Space {
    /// Offsets into the file.
    Physical,
    /// Addresses in the memory of the loaded program.
    Virtual,
}

impl Geometry {
    /// Where the coordinate `at` of the given space lies after the shift.
    pub open spec fn image(self, space: Space, at: int) -> int {
        match space {
            Space::Physical => self.physical_image(at),
            Space::Virtual => self.virtual_image(at),
        }
    }
}

impl Metadata {
    /// Where the coordinate `at` of the given space lies after the shift.
    pub open spec fn image(self, space: Space, at: int) -> int {
        self.geometry().image(space, at)
    }
}

/// The image of `at`, or the error for a result that leaves 64 bits.
pub open spec fn moved(md: Geometry, space: Space, at: u64) -> Result<u64, LinkError> {
    if md.image(space, at as int) <= u64::MAX {
        Ok(md.image(space, at as int) as u64)
    } else {
        Err(LinkError::ArithmeticOverflow)
    }
}

/// Relates what a rewriting step returned and left in the buffer to what it
/// is specified to produce.
pub open spec fn outcome(
    r: Result<(), LinkError>,
    image: Seq<u8>,
    expected: Result<Seq<u8>, LinkError>,
) -> bool {
    match r {
        Ok(_) => expected == Ok::<Seq<u8>, LinkError>(image),
        Err(e) => expected == Err::<Seq<u8>, LinkError>(e),
    }
}

/// Maps a coordinate recorded before the shift to where it lies afterwards.
pub fn move_coordinate(md: &Metadata, space: Space, at: u64) -> (r: Result<u64, LinkError>)
    ensures
        r == moved(md.geometry(), space, at),
{
    let image = match space {
        Space::Physical => checked_physical_offset(md, at),
        Space::Virtual => checked_virtual_offset(md, at),
    };
    match image {
        Some(v) => Ok(v),
        None => Err(LinkError::ArithmeticOverflow),
    }
}

/// The position at which `width` bytes starting at `at` can be accessed in
/// an image of `len` bytes.
pub open spec fn located(len: int, at: int, width: int) -> Result<usize, LinkError> {
    if at + width <= len {
        Ok(at as usize)
    } else {
        Err(LinkError::OutOfBounds)
    }
}

/// Checks that `width` bytes starting at `at` lie inside an image of `len` bytes.
pub fn locate(len: usize, at: u64, width: u64) -> (r: Result<usize, LinkError>)
    ensures
        r == located(len as int, at as int, width as int),
{
    match at.checked_add(width) {
        Some(end) => {
            if end <= len as u64 {
                Ok(at as usize)
            } else {
                Err(LinkError::OutOfBounds)
            }
        },
        None => Err(LinkError::OutOfBounds),
    }
}

/// The first and one-past-last position of a table of `count` records of
/// `stride` bytes that starts at `base`, in an image of `len` bytes.
pub open spec fn table_span(len: int, base: int, count: int, stride: int) -> Result<
    (usize, usize),
    LinkError,
> {
    if base + count * stride <= len {
        Ok((base as usize, (base + count * stride) as usize))
    } else {
        Err(LinkError::OutOfBounds)
    }
}

/// Checks that a table lies inside an image of `len` bytes.
pub fn table_range(len: usize, base: u64, count: u64, stride: usize) -> (r: Result<
    (usize, usize),
    LinkError,
>)
    ensures
        r == table_span(len as int, base as int, count as int, stride as int),
        r is Ok ==> r->Ok_0.0 <= r->Ok_0.1 <= len,
{
    proof {
        assert(0 <= count * stride) by (nonlinear_arith)
            requires
                0 <= count,
                0 <= stride,
        ;
    }
    match count.checked_mul(stride as u64) {
        Some(size) => match base.checked_add(size) {
            Some(end) => {
                if end <= len as u64 {
                    Ok((base as usize, end as usize))
                } else {
                    Err(LinkError::OutOfBounds)
                }
            },
            None => Err(LinkError::OutOfBounds),
        },
        None => Err(LinkError::OutOfBounds),
    }
}

/// `s` with the 64-bit field at `at` replaced by its image under the shift.
pub open spec fn shift_field(s: Seq<u8>, md: Geometry, space: Space, at: int) -> Result<
    Seq<u8>,
    LinkError,
> {
    match moved(md, space, u64_at(s, at)) {
        Ok(v) => Ok(put_u64(s, at, v)),
        Err(e) => Err(e),
    }
}

/// `s` with one 64-bit field shifted in every record that lies whole between
/// `pos` and `end`. The records are `stride` bytes apart and the field lies
/// `field` bytes into each.
pub open spec fn shift_column(
    s: Seq<u8>,
    md: Geometry,
    space: Space,
    pos: int,
    end: int,
    stride: int,
    field: int,
) -> Result<Seq<u8>, LinkError>
    decreases end - pos,
    when stride > 0
{
    if pos + stride > end {
        Ok(s)
    } else {
        match shift_field(s, md, space, pos + field) {
            Ok(t) => shift_column(t, md, space, pos + stride, end, stride, field),
            Err(e) => Err(e),
        }
    }
}

/// Replaces the 64-bit field at `at` by its image under the shift.
pub fn shift_field_in(buf: &mut Vec<u8>, md: &Metadata, space: Space, at: usize) -> (r: Result<
    (),
    LinkError,
>)
    requires
        fits(old(buf)@, at as int, 8),
    ensures
        outcome(r, final(buf)@, shift_field(old(buf)@, md.geometry(), space, at as int)),
        final(buf)@.len() == old(buf)@.len(),
{
    let v = read_u64(buf.as_slice(), at);
    let w = move_coordinate(md, space, v)?;
    write_u64(buf, at, w);
    Ok(())
}

/// Shifts one 64-bit field in every record between `base` and `end`.
pub fn shift_column_in(
    buf: &mut Vec<u8>,
    md: &Metadata,
    space: Space,
    base: usize,
    end: usize,
    stride: usize,
    field: usize,
) -> (r: Result<(), LinkError>)
    requires
        stride > 0,
        field + 8 <= stride,
        base <= end <= old(buf)@.len(),
    ensures
        outcome(
            r,
            final(buf)@,
            shift_column(
                old(buf)@,
                md.geometry(),
                space,
                base as int,
                end as int,
                stride as int,
                field as int,
            ),
        ),
        final(buf)@.len() == old(buf)@.len(),
{
    let mut pos: usize = base;
    while end - pos >= stride
        invariant
            stride > 0,
            field + 8 <= stride,
            base <= pos <= end <= buf@.len(),
            buf@.len() == old(buf)@.len(),
            shift_column(
                old(buf)@,
                md.geometry(),
                space,
                base as int,
                end as int,
                stride as int,
                field as int,
            ) == shift_column(buf@, md.geometry(), space, pos as int, end as int, stride as int, field as int),
        decreases end - pos,
    {
        shift_field_in(buf, md, space, pos + field)?;
        pos = pos + stride;
    }
    Ok(())
}

/// `s` with one 64-bit field shifted in every record of the table that the
/// executable held at file offset `offset` before the shift. The table is
/// `size` bytes long and its records are `stride` bytes apart.
pub open spec fn shift_table(
    s: Seq<u8>,
    md: Geometry,
    space: Space,
    offset: u64,
    size: u64,
    stride: int,
    field: int,
) -> Result<Seq<u8>, LinkError>
    recommends
        stride > 0,
{
    match moved(md, Space::Physical, offset) {
        Err(e) => Err(e),
        Ok(base) => match table_span(s.len() as int, base as int, size as int / stride, stride) {
            Err(e) => Err(e),
            Ok(span) => shift_column(s, md, space, span.0 as int, span.1 as int, stride, field),
        },
    }
}

/// `s` with `shift_table` applied to each of the tables `tables[k..]`, given
/// as pairs of file offset and size.
pub open spec fn shift_tables(
    s: Seq<u8>,
    md: Geometry,
    space: Space,
    tables: Seq<(u64, u64)>,
    k: int,
    stride: int,
    field: int,
) -> Result<Seq<u8>, LinkError>
    recommends
        stride > 0,
    decreases tables.len() - k,
{
    if k < 0 || k >= tables.len() {
        Ok(s)
    } else {
        match shift_table(s, md, space, tables[k].0, tables[k].1, stride, field) {
            Ok(t) => shift_tables(t, md, space, tables, k + 1, stride, field),
            Err(e) => Err(e),
        }
    }
}

/// Shifts one 64-bit field in every record of a table.
pub fn shift_table_in(
    buf: &mut Vec<u8>,
    md: &Metadata,
    space: Space,
    offset: u64,
    size: u64,
    stride: usize,
    field: usize,
) -> (r: Result<(), LinkError>)
    requires
        stride > 0,
        field + 8 <= stride,
    ensures
        outcome(
            r,
            final(buf)@,
            shift_table(old(buf)@, md.geometry(), space, offset, size, stride as int, field as int),
        ),
        final(buf)@.len() == old(buf)@.len(),
{
    let base: u64 = move_coordinate(md, Space::Physical, offset)?;
    let span = table_range(buf.len(), base, size / (stride as u64), stride)?;
    shift_column_in(buf, md, space, span.0, span.1, stride, field)
}

/// Shifts one 64-bit field in every record of each of the given tables.
pub fn shift_tables_in(
    buf: &mut Vec<u8>,
    md: &Metadata,
    space: Space,
    tables: &Vec<(u64, u64)>,
    stride: usize,
    field: usize,
) -> (r: Result<(), LinkError>)
    requires
        stride > 0,
        field + 8 <= stride,
    ensures
        outcome(
            r,
            final(buf)@,
            shift_tables(old(buf)@, md.geometry(), space, tables@, 0, stride as int, field as int),
        ),
        final(buf)@.len() == old(buf)@.len(),
{
    let n: usize = tables.len();
    let mut k: usize = 0;
    while k < n
        invariant
            stride > 0,
            field + 8 <= stride,
            k <= n,
            n == tables@.len(),
            buf@.len() == old(buf)@.len(),
            shift_tables(old(buf)@, md.geometry(), space, tables@, 0, stride as int, field as int)
                == shift_tables(buf@, md.geometry(), space, tables@, k as int, stride as int, field as int),
        decreases n - k,
    {
        shift_table_in(buf, md, space, tables[k].0, tables[k].1, stride, field)?;
        k += 1;
    }
    Ok(())
}

/// True when a record of a table starts at `p`: the table starts at
/// `base`, its records are `stride` bytes apart, and the record lies whole
/// before `end`.
pub open spec fn is_record(base: int, end: int, stride: int, p: int) -> bool {
    base <= p && p + stride <= end && (p - base) % stride == 0
}

/// Shifting a column changes no byte before the first record, and keeps
/// the length of the image.
pub proof fn lemma_shift_column_prefix(
    s: Seq<u8>,
    md: Geometry,
    space: Space,
    pos: int,
    end: int,
    stride: int,
    field: int,
)
    requires
        stride > 0,
        0 <= field,
        field + 8 <= stride,
        0 <= pos,
        end <= s.len(),
        shift_column(s, md, space, pos, end, stride, field) is Ok,
    ensures
        shift_column(s, md, space, pos, end, stride, field)->Ok_0.len() == s.len(),
        forall|j: int|
            0 <= j < s.len() && (j < pos || j >= end) ==> shift_column(
                s,
                md,
                space,
                pos,
                end,
                stride,
                field,
            )->Ok_0[j] == s[j],
    decreases end - pos,
{
    if pos + stride <= end {
        let v = moved(md, space, u64_at(s, pos + field))->Ok_0;
        let s1 = put_u64(s, pos + field, v);
        lemma_put_u64_len(s, pos + field, v);
        lemma_put_u64_frame(s, pos + field, v);
        lemma_shift_column_prefix(s1, md, space, pos + stride, end, stride, field);
    }
}

/// What shifting a column does: in every record of the table the field
/// holds the image of what it held before.
pub proof fn lemma_shift_column_effect(
    s: Seq<u8>,
    md: Geometry,
    space: Space,
    pos: int,
    end: int,
    stride: int,
    field: int,
    p: int,
)
    requires
        stride > 0,
        0 <= field,
        field + 8 <= stride,
        0 <= pos,
        end <= s.len(),
        shift_column(s, md, space, pos, end, stride, field) is Ok,
        is_record(pos, end, stride, p),
    ensures
        u64_at(shift_column(s, md, space, pos, end, stride, field)->Ok_0, p + field) == md.image(
            space,
            u64_at(s, p + field) as int,
        ),
    decreases end - pos,
{
    let t = shift_column(s, md, space, pos, end, stride, field)->Ok_0;
    let v = moved(md, space, u64_at(s, pos + field))->Ok_0;
    let s1 = put_u64(s, pos + field, v);
    lemma_put_u64_len(s, pos + field, v);
    lemma_put_u64_frame(s, pos + field, v);
    lemma_shift_column_prefix(s1, md, space, pos + stride, end, stride, field);
    if p == pos {
        lemma_u64_read_back(s, pos + field, v);
        assert(t.subrange(p + field, p + field + 8) =~= s1.subrange(p + field, p + field + 8));
    } else {
        assert(p - pos >= stride && (p - pos - stride) % stride == 0) by (nonlinear_arith)
            requires
                stride > 0,
                p > pos,
                (p - pos) % stride == 0,
        ;
        assert(s1.subrange(p + field, p + field + 8) =~= s.subrange(p + field, p + field + 8));
        lemma_shift_column_effect(s1, md, space, pos + stride, end, stride, field, p);
    }
}

/// `s` with `amount` added to the 64-bit field at `at`.
pub open spec fn grow_field(s: Seq<u8>, at: int, amount: u64) -> Result<Seq<u8>, LinkError> {
    if u64_at(s, at) + amount > u64::MAX {
        Err(LinkError::ArithmeticOverflow)
    } else {
        Ok(put_u64(s, at, (u64_at(s, at) + amount) as u64))
    }
}

/// `s` with `amount` subtracted from the 64-bit field at `at`.
pub open spec fn shrink_field(s: Seq<u8>, at: int, amount: u64) -> Result<Seq<u8>, LinkError> {
    if u64_at(s, at) < amount {
        Err(LinkError::ArithmeticOverflow)
    } else {
        Ok(put_u64(s, at, (u64_at(s, at) - amount) as u64))
    }
}

/// Adds `amount` to the 64-bit field at `at`.
pub fn grow_field_in(buf: &mut Vec<u8>, at: usize, amount: u64) -> (r: Result<(), LinkError>)
    requires
        fits(old(buf)@, at as int, 8),
    ensures
        outcome(r, final(buf)@, grow_field(old(buf)@, at as int, amount)),
        final(buf)@.len() == old(buf)@.len(),
{
    let v: u64 = read_u64(buf.as_slice(), at);
    match v.checked_add(amount) {
        Some(w) => {
            write_u64(buf, at, w);
            Ok(())
        },
        None => Err(LinkError::ArithmeticOverflow),
    }
}

/// Subtracts `amount` from the 64-bit field at `at`.
pub fn shrink_field_in(buf: &mut Vec<u8>, at: usize, amount: u64) -> (r: Result<(), LinkError>)
    requires
        fits(old(buf)@, at as int, 8),
    ensures
        outcome(r, final(buf)@, shrink_field(old(buf)@, at as int, amount)),
        final(buf)@.len() == old(buf)@.len(),
{
    let v: u64 = read_u64(buf.as_slice(), at);
    if v < amount {
        Err(LinkError::ArithmeticOverflow)
    } else {
        write_u64(buf, at, v - amount);
        Ok(())
    }
}

} // verus!
