//! The legacy drawing shape that accompanies an embedded object: it carries
//! the rectangle anchor of the legacy drawing layer.

use vstd::prelude::*;
use crate::anchor::{Anchor, AnchorView};

verus! {

/// A legacy drawing shape with its rectangle anchor.
#[derive(Clone, Debug)]
pub struct VmlShape {
    anchor: Anchor,
}

impl View for VmlShape {
    type V = AnchorView;

    closed spec fn view(&self) -> AnchorView {
        self.anchor@
    }
}

impl Default for VmlShape {
    fn default() -> (r: Self)
        ensures
            r@ == (AnchorView {
                left_column: 0,
                left_offset: 0,
                top_row: 0,
                top_offset: 0,
                right_column: 0,
                right_offset: 0,
                bottom_row: 0,
                bottom_offset: 0,
            }),
    {
        VmlShape { anchor: Anchor::default() }
    }
}

impl VmlShape {
    pub fn get_anchor(&self) -> (r: &Anchor)
        ensures
            r@ == self@,
    {
        &self.anchor
    }

    pub fn set_anchor(&mut self, value: Anchor)
        ensures
            final(self)@ == value@,
    {
        self.anchor = value;
    }
}

} // verus!
