//! The per-sheet collection of embedded OLE objects, with the same fan-out
//! and compaction discipline as the drawing collection.

use vstd::prelude::*;
use crate::ole_object::{ole_after_insert, ole_after_remove, ole_insert_fits, ole_is_removed,
    OleObject, OleObjectView};
use crate::seq_util::lemma_filter_push;
use crate::two_cell_anchor::{spec_parse_two_cell, TwoCellAnchorView};
use crate::xml::{event_views, XmlEvent};

verus! {

pub open spec fn ole_views(s: Seq<OleObject>) -> Seq<OleObjectView> {
    s.map_values(|x: OleObject| x@)
}

/// The survivor predicate of one removal.
pub open spec fn ole_kept(root_col: int, off_col: int, root_row: int, off_row: int) -> spec_fn(
    OleObjectView,
) -> bool {
    |v: OleObjectView| !ole_is_removed(v, root_col, off_col, root_row, off_row)
}

/// The shift map of one removal.
pub open spec fn ole_shift_remove(
    root_col: int,
    off_col: int,
    root_row: int,
    off_row: int,
) -> spec_fn(OleObjectView) -> OleObjectView {
    |v: OleObjectView| ole_after_remove(v, root_col, off_col, root_row, off_row)
}

/// The embedded objects that survive one removal, in their original order,
/// each with its anchor shifted or clamped.
pub open spec fn oles_surviving(
    s: Seq<OleObjectView>,
    root_col: int,
    off_col: int,
    root_row: int,
    off_row: int,
) -> Seq<OleObjectView> {
    s.filter(ole_kept(root_col, off_col, root_row, off_row)).map_values(
        ole_shift_remove(root_col, off_col, root_row, off_row),
    )
}

/// The per-sheet collection of embedded objects.
#[derive(Clone, Debug)]
pub struct OleObjects {
    ole_object: Vec<OleObject>,
}

impl View for OleObjects {
    type V = Seq<OleObjectView>;

    closed spec fn view(&self) -> Seq<OleObjectView> {
        ole_views(self.ole_object@)
    }
}

impl Default for OleObjects {
    /// The default collection is empty.
    fn default() -> (r: Self)
        ensures
            r@.len() == 0,
    {
        OleObjects { ole_object: Vec::new() }
    }
}

impl OleObjects {
    pub fn get_ole_object(&self) -> (r: &Vec<OleObject>)
        ensures
            ole_views(r@) == self@,
    {
        &self.ole_object
    }

    pub fn add_ole_object(&mut self, value: OleObject)
        ensures
            final(self)@ == old(self)@.push(value@),
    {
        self.ole_object.push(value);
        proof {
            assert(ole_views(self.ole_object@) =~= ole_views(old(self).ole_object@).push(value@));
        }
    }

    /// Whether the collection holds any embedded object.
    pub fn has_ole_object(&self) -> (r: bool)
        ensures
            r == (self@.len() > 0),
    {
        self.ole_object.len() > 0
    }


    /// Read the alternate-content anchor element at `*pos` into the
    /// embedded object at index `i`, as `parse_alternate_anchor` does.
    pub fn parse_alternate_anchor_at(
        &mut self,
        i: usize,
        events: &Vec<XmlEvent>,
        pos: &mut usize,
    ) -> (r: bool)
        requires
            i < old(self)@.len(),
            *old(pos) <= events@.len(),
        ensures
            ({
                let start = TwoCellAnchorView {
                    is_alternate_content: true,
                    ..old(self)@[i as int].anchor
                };
                let m = spec_parse_two_cell(start, event_views(events@), *old(pos) as int);
                r == m.0 && final(self)@ == old(self)@.update(
                    i as int,
                    OleObjectView { anchor: m.1, ..old(self)@[i as int] },
                ) && *final(pos) as int == m.2
            }),
            final(self)@.len() == old(self)@.len(),
            *final(pos) <= events@.len(),
            *old(pos) <= *final(pos),
            r ==> *old(pos) < *final(pos),
    {
        proof {
            assert(old(self)@[i as int] == self.ole_object@[i as int]@);
        }
        let obj = &mut self.ole_object[i];
        let r = obj.parse_alternate_anchor(events, pos);
        proof {
            assert(ole_views(self.ole_object@) =~= old(self)@.update(
                i as int,
                self.ole_object@[i as int]@,
            ));
        }
        r
    }

    /// Fan an insert of columns and rows out to every embedded object.
    pub fn adjustment_insert_coordinate(
        &mut self,
        root_col_num: u32,
        offset_col_num: u32,
        root_row_num: u32,
        offset_row_num: u32,
    )
        requires
            forall|i: int|
                0 <= i < old(self)@.len() ==> ole_insert_fits(
                    #[trigger] old(self)@[i],
                    root_col_num as int,
                    offset_col_num as int,
                    root_row_num as int,
                    offset_row_num as int,
                ),
        ensures
            final(self)@ == old(self)@.map_values(
                |x: OleObjectView| ole_after_insert(
                    x,
                    root_col_num as int,
                    offset_col_num as int,
                    root_row_num as int,
                    offset_row_num as int,
                ),
            ),
    {
        let n = self.ole_object.len();
        let mut idx: usize = 0;
        proof {
            assert forall|i: int|
                0 <= i < self.ole_object@.len() implies ole_insert_fits(
                (#[trigger] self.ole_object@[i])@,
                root_col_num as int,
                offset_col_num as int,
                root_row_num as int,
                offset_row_num as int,
            ) by {
                assert(old(self)@[i] == self.ole_object@[i]@);
            }
        }
        while idx < n
            invariant
                n == self.ole_object@.len(),
                n == old(self).ole_object@.len(),
                idx <= n,
                forall|i: int|
                    0 <= i < n ==> ole_insert_fits(
                        (#[trigger] old(self).ole_object@[i])@,
                        root_col_num as int,
                        offset_col_num as int,
                        root_row_num as int,
                        offset_row_num as int,
                    ),
                forall|j: int|
                    0 <= j < idx ==> (#[trigger] self.ole_object@[j])@ == ole_after_insert(
                        old(self).ole_object@[j]@,
                        root_col_num as int,
                        offset_col_num as int,
                        root_row_num as int,
                        offset_row_num as int,
                    ),
                forall|j: int| idx <= j < n ==> self.ole_object@[j] == old(self).ole_object@[j],
            decreases n - idx,
        {
            let obj = &mut self.ole_object[idx];
            obj.adjustment_insert_coordinate(
                root_col_num,
                offset_col_num,
                root_row_num,
                offset_row_num,
            );
            idx += 1;
        }
        proof {
            assert(ole_views(self.ole_object@) =~= ole_views(old(self).ole_object@).map_values(
                |x: OleObjectView| ole_after_insert(
                    x,
                    root_col_num as int,
                    offset_col_num as int,
                    root_row_num as int,
                    offset_row_num as int,
                ),
            ));
        }
    }

    /// Fan a removal of columns and rows out to every embedded object: first
    /// discard every object whose anchor lies wholly inside the removed
    /// window, then shift or clamp the survivors, preserving order.
    pub fn adjustment_remove_coordinate(
        &mut self,
        root_col_num: u32,
        offset_col_num: u32,
        root_row_num: u32,
        offset_row_num: u32,
    )
        ensures
            final(self)@ == oles_surviving(
                old(self)@,
                root_col_num as int,
                offset_col_num as int,
                root_row_num as int,
                offset_row_num as int,
            ),
    {
        let ghost rc = root_col_num as int;
        let ghost oc = offset_col_num as int;
        let ghost rr = root_row_num as int;
        let ghost orr = offset_row_num as int;
        let mut source: Vec<OleObject> = Vec::new();
        core::mem::swap(&mut source, &mut self.ole_object);
        let ghost all: Seq<OleObject> = source@;
        proof {
            assert(self.ole_object@ =~= Seq::<OleObject>::empty());
            assert(all.subrange(0, 0) =~= Seq::<OleObject>::empty());
            assert(ole_views(all.subrange(0, 0)) =~= Seq::<OleObjectView>::empty());
            assert(Seq::<OleObjectView>::empty().filter(ole_kept(rc, oc, rr, orr)) =~= Seq::<
                OleObjectView,
            >::empty()) by {
                reveal(Seq::filter);
            }
            assert(oles_surviving(ole_views(all.subrange(0, 0)), rc, oc, rr, orr) =~= Seq::<
                OleObjectView,
            >::empty());
        }
        while source.len() > 0
            invariant
                rc == root_col_num as int,
                oc == offset_col_num as int,
                rr == root_row_num as int,
                orr == offset_row_num as int,
                source@.len() <= all.len(),
                source@ == all.subrange(all.len() - source@.len(), all.len() as int),
                ole_views(self.ole_object@) == oles_surviving(
                    ole_views(all.subrange(0, all.len() - source@.len())),
                    rc,
                    oc,
                    rr,
                    orr,
                ),
            decreases source@.len(),
        {
            let ghost p = all.len() - source@.len();
            let obj = source.remove(0);
            proof {
                assert(obj == all[p]);
                assert(source@ =~= all.subrange(p + 1, all.len() as int));
                assert(all.subrange(0, p + 1) =~= all.subrange(0, p).push(all[p]));
                assert(ole_views(all.subrange(0, p + 1)) =~= ole_views(
                    all.subrange(0, p),
                ).push(obj@));
                lemma_filter_push(ole_views(all.subrange(0, p)), ole_kept(rc, oc, rr, orr), obj@);
            }
            if !obj.is_remove_coordinate(
                root_col_num,
                offset_col_num,
                root_row_num,
                offset_row_num,
            ) {
                let mut kept = obj;
                kept.adjustment_remove_coordinate(
                    root_col_num,
                    offset_col_num,
                    root_row_num,
                    offset_row_num,
                );
                self.ole_object.push(kept);
                proof {
                    assert(oles_surviving(ole_views(all.subrange(0, p + 1)), rc, oc, rr, orr)
                        =~= oles_surviving(ole_views(all.subrange(0, p)), rc, oc, rr, orr).push(
                        kept@,
                    ));
                }
            } else {
                proof {
                    assert(oles_surviving(ole_views(all.subrange(0, p + 1)), rc, oc, rr, orr)
                        =~= oles_surviving(ole_views(all.subrange(0, p)), rc, oc, rr, orr));
                }
            }
        }
        proof {
            assert(all.subrange(0, all.len() as int) =~= all);
        }
    }
}

} // verus!
