//! The structural laws of the adjustment engine, stated and proved once over
//! the mathematical model that every contract in this crate speaks of.

use vstd::prelude::*;
use crate::adjustment::{spec_in_window, spec_shift_insert, spec_shift_remove};
use crate::chart::{chart_after_insert, chart_after_insert_with_sheet, chart_after_remove,
    chart_after_remove_with_sheet, ChartView};
use crate::image::{image_after_remove, image_is_removed, ImageView};
use crate::marker::{marker_after_remove, MarkerView};
use crate::two_cell_anchor::{two_cell_after_insert, two_cell_after_remove, two_cell_is_removed,
    TwoCellAnchorView};
use crate::worksheet_drawing::{image_kept, image_shift_remove, images_surviving, two_cell_kept,
    two_cell_shift_remove, two_cells_surviving};

verus! {

/// Law: an insert of `count` at `pivot` moves every coordinate at or past
/// the pivot up by exactly `count` and leaves every coordinate below the
/// pivot unchanged.
pub proof fn lemma_insert_monotonicity(c: int, pivot: int, count: int)
    requires
        pivot >= 1,
    ensures
        c >= pivot ==> spec_shift_insert(c, pivot, count) == c + count,
        c < pivot ==> spec_shift_insert(c, pivot, count) == c,
{
}

/// Law: after any removal, every resulting coordinate is at least 1,
/// whatever the input magnitude.
pub proof fn lemma_remove_clamp_floor(c: int, pivot: int, count: int)
    requires
        c >= 1,
    ensures
        spec_shift_remove(c, pivot, count) >= 1,
{
}

/// Law: a removal keeps a well-formed marker well formed.
pub proof fn lemma_remove_keeps_marker_wf(
    m: MarkerView,
    root_col: int,
    off_col: int,
    root_row: int,
    off_row: int,
)
    requires
        m.wf(),
        off_col >= 0,
        off_row >= 0,
    ensures
        marker_after_remove(m, root_col, off_col, root_row, off_row).wf(),
{
}

/// Law: an insert followed by a removal at the same pivot and count restores
/// every coordinate — a coordinate below the pivot is never touched, and a
/// coordinate at or past the pivot moves up by `count` and back down by
/// `count` before the clamp could apply.  (The converse composition is not
/// an identity: a removal can clamp, and the insert cannot undo a clamp.)
pub proof fn lemma_insert_then_remove_restores(c: int, pivot: int, count: int)
    requires
        c >= 1,
        pivot >= 1,
        count >= 0,
    ensures
        spec_shift_remove(spec_shift_insert(c, pivot, count), pivot, count) == c,
{
}

/// Law: an edit of count 0 changes nothing on either operation.
pub proof fn lemma_zero_count_noop(c: int, pivot: int)
    ensures
        spec_shift_insert(c, pivot, 0) == c,
        spec_shift_remove(c, pivot, 0) == c,
        !spec_in_window(c, pivot, 0),
{
}

/// Law: a range anchor whose endpoints both lie inside the removed window on
/// the edited axis is removal-eligible — here stated for each axis.
pub proof fn lemma_full_containment_eligible(a: TwoCellAnchorView, pivot: int, count: int)
    ensures
        spec_in_window(a.from.row, pivot, count) && spec_in_window(a.to.row, pivot, count)
            ==> two_cell_is_removed(a, 0, 0, pivot, count),
        spec_in_window(a.from.col, pivot, count) && spec_in_window(a.to.col, pivot, count)
            ==> two_cell_is_removed(a, pivot, count, 0, 0),
{
}

/// Law: a removal-eligible range anchor is absent from the survivors of a
/// removal; appending it to a collection changes nothing about the outcome.
pub proof fn lemma_full_containment_deleted(
    s: Seq<TwoCellAnchorView>,
    a: TwoCellAnchorView,
    root_col: int,
    off_col: int,
    root_row: int,
    off_row: int,
)
    requires
        two_cell_is_removed(a, root_col, off_col, root_row, off_row),
    ensures
        two_cells_surviving(s.push(a), root_col, off_col, root_row, off_row)
            == two_cells_surviving(s, root_col, off_col, root_row, off_row),
{
    crate::seq_util::lemma_filter_push(s, two_cell_kept(root_col, off_col, root_row, off_row), a);
    assert(two_cells_surviving(s.push(a), root_col, off_col, root_row, off_row)
        =~= two_cells_surviving(s, root_col, off_col, root_row, off_row));
}

/// Law: an edit that does not target an axis leaves every coordinate of that
/// axis unchanged, on both operations.
pub proof fn lemma_untargeted_axis_unchanged(a: TwoCellAnchorView, pivot: int, count: int)
    ensures
        two_cell_after_remove(a, pivot, count, 0, 0).from.row == a.from.row,
        two_cell_after_remove(a, pivot, count, 0, 0).to.row == a.to.row,
        two_cell_after_insert(a, pivot, count, 0, 0).from.row == a.from.row,
        two_cell_after_insert(a, pivot, count, 0, 0).to.row == a.to.row,
        two_cell_after_remove(a, 0, 0, pivot, count).from.col == a.from.col,
        two_cell_after_remove(a, 0, 0, pivot, count).to.col == a.to.col,
        two_cell_after_insert(a, 0, 0, pivot, count).from.col == a.from.col,
        two_cell_after_insert(a, 0, 0, pivot, count).to.col == a.to.col,
{
}

/// Law: a range anchor that straddles the removed row window from below —
/// its top endpoint before the pivot, its bottom endpoint inside the window
/// — survives the removal; the outside endpoint is untouched and the inside
/// endpoint clamps to 1.
pub proof fn lemma_partial_overlap_survives_low(a: TwoCellAnchorView, pivot: int, count: int)
    requires
        a.from.row < pivot,
        spec_in_window(a.to.row, pivot, count),
    ensures
        !two_cell_is_removed(a, 0, 0, pivot, count),
        two_cell_after_remove(a, 0, 0, pivot, count).from.row == a.from.row,
        two_cell_after_remove(a, 0, 0, pivot, count).to.row == 1,
{
}

/// Law: a range anchor that straddles the removed row window from above —
/// its top endpoint inside the window, its bottom endpoint past the window —
/// survives the removal; the inside endpoint clamps to 1 and the outside
/// endpoint shifts down by `count`.
pub proof fn lemma_partial_overlap_survives_high(a: TwoCellAnchorView, pivot: int, count: int)
    requires
        spec_in_window(a.from.row, pivot, count),
        a.to.row >= pivot + count,
    ensures
        !two_cell_is_removed(a, 0, 0, pivot, count),
        two_cell_after_remove(a, 0, 0, pivot, count).from.row == 1,
        two_cell_after_remove(a, 0, 0, pivot, count).to.row == a.to.row - count,
{
}

/// Law: a removal preserves the relative order of the survivors within the
/// range-anchor sequence: two surviving objects appear in the output at
/// positions in the same order as their positions in the input.
pub proof fn lemma_remove_preserves_order_two_cells(
    s: Seq<TwoCellAnchorView>,
    root_col: int,
    off_col: int,
    root_row: int,
    off_row: int,
    i: int,
    j: int,
)
    requires
        0 <= i < j < s.len(),
        !two_cell_is_removed(s[i], root_col, off_col, root_row, off_row),
        !two_cell_is_removed(s[j], root_col, off_col, root_row, off_row),
    ensures
        exists|pi: int, pj: int|
            0 <= pi < pj < two_cells_surviving(s, root_col, off_col, root_row, off_row).len()
                && two_cells_surviving(s, root_col, off_col, root_row, off_row)[pi]
                == two_cell_after_remove(s[i], root_col, off_col, root_row, off_row)
                && two_cells_surviving(s, root_col, off_col, root_row, off_row)[pj]
                == two_cell_after_remove(s[j], root_col, off_col, root_row, off_row),
{
    let p = two_cell_kept(root_col, off_col, root_row, off_row);
    let m = two_cell_shift_remove(root_col, off_col, root_row, off_row);
    let a = s.subrange(0, i + 1);
    let b = s.subrange(i + 1, j + 1);
    let c = s.subrange(j + 1, s.len() as int);
    let ab = a + b;
    assert(ab =~= s.subrange(0, j + 1));
    assert(s =~= ab + c);
    Seq::<TwoCellAnchorView>::filter_distributes_over_add(ab, c, p);
    Seq::<TwoCellAnchorView>::filter_distributes_over_add(a, b, p);
    reveal(Seq::filter);
    assert(a.drop_last() =~= s.subrange(0, i));
    assert(a.last() == s[i]);
    assert(p(s[i]));
    assert(a.filter(p) == s.subrange(0, i).filter(p).push(s[i]));
    assert(b.drop_last() =~= s.subrange(i + 1, j));
    assert(b.last() == s[j]);
    assert(p(s[j]));
    assert(b.filter(p) == s.subrange(i + 1, j).filter(p).push(s[j]));
    let pi = a.filter(p).len() - 1;
    let pj = ab.filter(p).len() - 1;
    assert(ab.filter(p) == a.filter(p) + b.filter(p));
    assert(b.filter(p).len() >= 1);
    assert(0 <= pi < pj);
    assert(s.filter(p) == ab.filter(p) + c.filter(p));
    assert(s.filter(p)[pi] == a.filter(p)[pi]);
    assert(a.filter(p)[pi] == s[i]);
    assert(s.filter(p)[pj] == ab.filter(p)[pj]);
    assert(ab.filter(p)[pj] == b.filter(p)[b.filter(p).len() - 1]);
    assert(b.filter(p)[b.filter(p).len() - 1] == s[j]);
    assert(pj < s.filter(p).len());
    let surv = two_cells_surviving(s, root_col, off_col, root_row, off_row);
    assert(surv[pi] == m(s[i]));
    assert(surv[pj] == m(s[j]));
    assert(m(s[i]) == two_cell_after_remove(s[i], root_col, off_col, root_row, off_row));
    assert(m(s[j]) == two_cell_after_remove(s[j], root_col, off_col, root_row, off_row));
}

/// Law: a removal preserves the relative order of the survivors within the
/// image sequence, as for the range-anchor sequence.
pub proof fn lemma_remove_preserves_order_images(
    s: Seq<ImageView>,
    root_col: int,
    off_col: int,
    root_row: int,
    off_row: int,
    i: int,
    j: int,
)
    requires
        0 <= i < j < s.len(),
        !image_is_removed(s[i], root_col, off_col, root_row, off_row),
        !image_is_removed(s[j], root_col, off_col, root_row, off_row),
    ensures
        exists|pi: int, pj: int|
            0 <= pi < pj < images_surviving(s, root_col, off_col, root_row, off_row).len()
                && images_surviving(s, root_col, off_col, root_row, off_row)[pi]
                == image_after_remove(s[i], root_col, off_col, root_row, off_row)
                && images_surviving(s, root_col, off_col, root_row, off_row)[pj]
                == image_after_remove(s[j], root_col, off_col, root_row, off_row),
{
    let p = image_kept(root_col, off_col, root_row, off_row);
    let m = image_shift_remove(root_col, off_col, root_row, off_row);
    let a = s.subrange(0, i + 1);
    let b = s.subrange(i + 1, j + 1);
    let c = s.subrange(j + 1, s.len() as int);
    let ab = a + b;
    assert(ab =~= s.subrange(0, j + 1));
    assert(s =~= ab + c);
    Seq::<ImageView>::filter_distributes_over_add(ab, c, p);
    Seq::<ImageView>::filter_distributes_over_add(a, b, p);
    reveal(Seq::filter);
    assert(a.drop_last() =~= s.subrange(0, i));
    assert(a.last() == s[i]);
    assert(p(s[i]));
    assert(a.filter(p) == s.subrange(0, i).filter(p).push(s[i]));
    assert(b.drop_last() =~= s.subrange(i + 1, j));
    assert(b.last() == s[j]);
    assert(p(s[j]));
    assert(b.filter(p) == s.subrange(i + 1, j).filter(p).push(s[j]));
    let pi = a.filter(p).len() - 1;
    let pj = ab.filter(p).len() - 1;
    assert(ab.filter(p) == a.filter(p) + b.filter(p));
    assert(b.filter(p).len() >= 1);
    assert(0 <= pi < pj);
    assert(s.filter(p) == ab.filter(p) + c.filter(p));
    assert(s.filter(p)[pi] == a.filter(p)[pi]);
    assert(a.filter(p)[pi] == s[i]);
    assert(s.filter(p)[pj] == ab.filter(p)[pj]);
    assert(ab.filter(p)[pj] == b.filter(p)[b.filter(p).len() - 1]);
    assert(b.filter(p)[b.filter(p).len() - 1] == s[j]);
    assert(pj < s.filter(p).len());
    let surv = images_surviving(s, root_col, off_col, root_row, off_row);
    assert(surv[pi] == m(s[i]));
    assert(surv[pj] == m(s[j]));
    assert(m(s[i]) == image_after_remove(s[i], root_col, off_col, root_row, off_row));
    assert(m(s[j]) == image_after_remove(s[j], root_col, off_col, root_row, off_row));
}

/// Law: editing one sheet never alters the data reference of a chart whose
/// reference names another sheet, wherever the chart itself is hosted.
pub proof fn lemma_cross_sheet_isolation(
    c: ChartView,
    sheet: Seq<char>,
    root_col: int,
    off_col: int,
    root_row: int,
    off_row: int,
)
    requires
        c.data_sheet_name != sheet,
    ensures
        chart_after_insert_with_sheet(c, sheet, root_col, off_col, root_row, off_row) == c,
        chart_after_remove_with_sheet(c, sheet, root_col, off_col, root_row, off_row) == c,
{
}

/// Law: a chart's visual anchor and its data reference are adjusted by
/// disjoint operations — the cross-sheet pass never moves the anchor, and
/// the hosting-sheet pass never touches the data reference.
pub proof fn lemma_anchor_and_reference_orthogonal(
    c: ChartView,
    sheet: Seq<char>,
    root_col: int,
    off_col: int,
    root_row: int,
    off_row: int,
)
    ensures
        chart_after_insert_with_sheet(c, sheet, root_col, off_col, root_row, off_row).anchor
            == c.anchor,
        chart_after_remove_with_sheet(c, sheet, root_col, off_col, root_row, off_row).anchor
            == c.anchor,
        chart_after_insert(c, root_col, off_col, root_row, off_row).data_sheet_name
            == c.data_sheet_name,
        chart_after_insert(c, root_col, off_col, root_row, off_row).data_range == c.data_range,
        chart_after_remove(c, root_col, off_col, root_row, off_row).data_sheet_name
            == c.data_sheet_name,
        chart_after_remove(c, root_col, off_col, root_row, off_row).data_range == c.data_range,
{
}

} // verus!
