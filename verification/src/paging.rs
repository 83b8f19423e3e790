//! Page arithmetic of list queries.

use vstd::prelude::*;

verus! {

/// How many rows lie before page `current` (pages count from 1, page 0 is
/// read as page 1) when a page holds `size` rows, capped at `u64::MAX`.
pub open spec fn page_offset_spec(current: int, size: int) -> int {
    let skipped = if current >= 1 { current - 1 } else { 0 };
    if skipped * size > u64::MAX {
        u64::MAX as int
    } else {
        skipped * size
    }
}

/// The number of rows to skip to reach page `current`: `(current - 1) * size`,
/// where both the subtraction and the product saturate.
pub fn page_offset(current: u64, size: u64) -> (offset: u64)
    ensures
        offset == page_offset_spec(current as int, size as int),
{
    let skipped = current.saturating_sub(1);
    match skipped.checked_mul(size) {
        Some(rows) => rows,
        None => u64::MAX,
    }
}

/// Pages follow one another without gap or overlap: page `current + 1`
/// starts where page `current` ends, as long as no offset saturates; the
/// first page, numbered 0 or 1, starts at row 0.
pub proof fn lemma_pages_are_contiguous(current: int, size: int)
    requires
        current >= 1,
        size >= 0,
        current * size <= u64::MAX,
    ensures
        page_offset_spec(current + 1, size) == page_offset_spec(current, size) + size,
        page_offset_spec(0, size) == 0,
        page_offset_spec(1, size) == 0,
{
    assert((current - 1) * size + size == current * size) by (nonlinear_arith);
    assert((current - 1) * size <= current * size) by (nonlinear_arith)
        requires
            current >= 1,
            size >= 0,
    ;
}

} // verus!
