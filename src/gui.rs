use vstd::prelude::*;

use crate::font::{is_blank_font, Font};

verus! {

/// The user interface that text labels are drawn on.
pub struct GUI {}

impl GUI {
    pub fn new() -> (r: GUI) {
        GUI {}
    }
}

/// A text label bound to a user interface, set in a font.
pub struct TextLabel {
    pub bound_gui: GUI,
    pub font: Font,
}

impl TextLabel {
    /// A label in `font`, or in the blank font when none is given.
    pub fn new(gui: GUI, font: Option<Font>) -> (r: TextLabel)
        ensures
            font is Some ==> r.font == font->Some_0,
            font is None ==> is_blank_font(r.font),
    {
        TextLabel {
            bound_gui: gui,
            font: match font {
                Some(f) => f,
                None => Font::default(),
            },
        }
    }
}

} // verus!
