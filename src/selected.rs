use vstd::prelude::*;

use crate::style::{plain_box, selection_color, text_color, transparent, BoxStyle};

verus! {

/// The selected row, and the frame round the whole window.
pub struct Container;

impl Container {
    pub fn style(&self) -> (r: BoxStyle)
        ensures
            r == plain_box(selection_color(), text_color()),
    {
        BoxStyle {
            text_color: Some(text_color()),
            background: Some(selection_color()),
            border_radius: 0,
            border_width: 0,
            border_color: transparent(),
        }
    }
}

} // verus!
