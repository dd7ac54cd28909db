//! Row arithmetic of the option list: intrinsic sizing, virtualized
//! rendering ranges, and hover tracking.
//!
//! Rows have one fixed height and are stacked from the list's top, so
//! every question about them is integer arithmetic: which row is under
//! a vertical position, and which rows meet a viewport.

use vstd::prelude::*;

use vstd::arithmetic::div_mod::{lemma_fundamental_div_mod, lemma_mod_bound};

use crate::geometry::MAX_EXTENT;

verus! {

/// Whether the rectangle of row `row` — rows are `row_height` tall,
/// row 0 flush with the list's top — meets the viewport that spans
/// `[offset, offset + height)` of the list's own vertical extent.
pub open spec fn spec_row_intersects(row: int, offset: int, height: int, row_height: int) -> bool {
    row * row_height < offset + height && (row + 1) * row_height > offset
}

/// One past the last visible row: the number of rows that end strictly
/// before the viewport's bottom edge, rounded up, and never more than
/// `count`.
pub open spec fn spec_visible_end(offset: int, height: int, row_height: int, count: int) -> int {
    let c = (offset + height + row_height - 1) / row_height;
    if c <= count {
        c
    } else {
        count
    }
}

/// The first visible row: the row under the viewport's top edge,
/// and never past the end of the visible range.
pub open spec fn spec_visible_start(offset: int, height: int, row_height: int, count: int) -> int {
    let s = offset / row_height;
    let e = spec_visible_end(offset, height, row_height, count);
    if s <= e {
        s
    } else {
        e
    }
}

/// The total height of `count` rows of height `row_height`: exactly
/// their product, and zero for an empty list.
pub fn intrinsic_height(count: usize, row_height: i64) -> (h: i64)
    requires
        0 <= row_height <= MAX_EXTENT,
        count <= MAX_EXTENT,
        (count as int) * (row_height as int) <= MAX_EXTENT,
    ensures
        h == (count as int) * (row_height as int),
        count == 0 ==> h == 0,
{
    (count as i64) * row_height
}

/// Computes the visible row range `[start, end)` of a list of `count`
/// rows inside the viewport `[offset, offset + height)`.
pub fn visible_range(offset: i64, height: i64, row_height: i64, count: usize) -> (r: (
    usize,
    usize,
))
    requires
        0 <= offset <= MAX_EXTENT,
        0 <= height <= 0x8000_0000,
        1 <= row_height <= MAX_EXTENT,
        count <= MAX_EXTENT,
    ensures
        r.0 == spec_visible_start(offset as int, height as int, row_height as int, count as int),
        r.1 == spec_visible_end(offset as int, height as int, row_height as int, count as int),
        r.0 <= r.1 <= count,
{
    let off = offset as u64;
    let vh = height as u64;
    let h = row_height as u64;
    let cnt = count as u64;
    let c = (off + vh + h - 1) / h;
    let end = if c <= cnt {
        c
    } else {
        cnt
    };
    let s = off / h;
    let start = if s <= end {
        s
    } else {
        end
    };
    (start as usize, end as usize)
}

/// The visible range neither under-renders nor over-renders: a row of
/// the list lies in `[start, end)` exactly when its rectangle meets the
/// viewport, and the range never reaches past the list.
pub proof fn lemma_visible_range_exact(offset: int, height: int, row_height: int, count: int)
    requires
        0 <= offset,
        0 <= height,
        1 <= row_height,
        0 <= count,
    ensures
        forall|row: int|
            0 <= row < count ==> ((spec_visible_start(offset, height, row_height, count) <= row
                < spec_visible_end(offset, height, row_height, count)) <==> spec_row_intersects(
                row,
                offset,
                height,
                row_height,
            )),
{
    let q = offset / row_height;
    let rm = offset % row_height;
    lemma_fundamental_div_mod(offset, row_height);
    lemma_mod_bound(offset, row_height);
    let s = offset + height;
    let c = (s + row_height - 1) / row_height;
    let r2 = (s + row_height - 1) % row_height;
    lemma_fundamental_div_mod(s + row_height - 1, row_height);
    lemma_mod_bound(s + row_height - 1, row_height);
    assert forall|row: int|
        0 <= row < count implies ((spec_visible_start(offset, height, row_height, count) <= row
        < spec_visible_end(offset, height, row_height, count)) <==> spec_row_intersects(
        row,
        offset,
        height,
        row_height,
    )) by {
        assert(((row + 1) * row_height > offset) == (row >= q)) by (nonlinear_arith)
            requires
                offset == row_height * q + rm,
                0 <= rm < row_height,
                1 <= row_height,
        ;
        assert((row * row_height < s) == (row < c)) by (nonlinear_arith)
            requires
                s + row_height - 1 == row_height * c + r2,
                0 <= r2 < row_height,
                1 <= row_height,
        ;
    }
}

/// The row under vertical position `y`, where `top` is the top edge of
/// row 0 and rows are `row_height` tall. The result may point past the
/// last row; callers bounds-check it when they resolve a selection.
pub fn row_at(y: i64, top: i64, row_height: i64) -> (row: usize)
    requires
        top <= y,
        y - top <= 0xFFFF_FFFF,
        1 <= row_height,
    ensures
        row == (y - top) / (row_height as int),
{
    let d = (y - top) as u64;
    let h = row_height as u64;
    let r = d / h;
    proof {
        lemma_fundamental_div_mod(d as int, h as int);
        lemma_mod_bound(d as int, h as int);
        assert(0 <= d as int / h as int <= d as int) by (nonlinear_arith)
            requires
                d as int == h as int * (d as int / h as int) + (d as int % h as int),
                0 <= (d as int % h as int) < h as int,
                1 <= h as int,
                0 <= d as int,
        ;
    }
    r as usize
}

} // verus!
