use vstd::prelude::*;

verus! {

/// A colour as red, green, blue and alpha channels.
#[derive(Clone, Copy, Debug, PartialEq, Eq)]
pub struct Rgba {
    pub r: u8,
    pub g: u8,
    pub b: u8,
    pub a: u8,
}

pub open spec fn spec_dark_purple() -> Rgba {
    Rgba { r: 0x1E, g: 0x12, b: 0x1E, a: 0xFF }
}

pub open spec fn spec_text_color() -> Rgba {
    Rgba { r: 0xB7, g: 0xAC, b: 0xB7, a: 0xFF }
}

pub open spec fn spec_untext_color() -> Rgba {
    Rgba { r: 0x80, g: 0x78, b: 0x80, a: 0xFF }
}

pub open spec fn spec_selection_color() -> Rgba {
    Rgba { r: 0x38, g: 0x26, b: 0x3F, a: 0xFF }
}

pub open spec fn spec_black() -> Rgba {
    Rgba { r: 0, g: 0, b: 0, a: 0xFF }
}

pub open spec fn spec_transparent() -> Rgba {
    Rgba { r: 0, g: 0, b: 0, a: 0 }
}

/// The background of the window and of the text field.
#[verifier::when_used_as_spec(spec_dark_purple)]
pub fn dark_purple() -> (c: Rgba)
    ensures
        c == spec_dark_purple(),
{
    Rgba { r: 0x1E, g: 0x12, b: 0x1E, a: 0xFF }
}

/// Text that is typed or selected.
#[verifier::when_used_as_spec(spec_text_color)]
pub fn text_color() -> (c: Rgba)
    ensures
        c == spec_text_color(),
{
    Rgba { r: 0xB7, g: 0xAC, b: 0xB7, a: 0xFF }
}

/// Text of rows that are not selected, and of the placeholder.
#[verifier::when_used_as_spec(spec_untext_color)]
pub fn untext_color() -> (c: Rgba)
    ensures
        c == spec_untext_color(),
{
    Rgba { r: 0x80, g: 0x78, b: 0x80, a: 0xFF }
}

/// The selected row, the text selection and the scroller.
#[verifier::when_used_as_spec(spec_selection_color)]
pub fn selection_color() -> (c: Rgba)
    ensures
        c == spec_selection_color(),
{
    Rgba { r: 0x38, g: 0x26, b: 0x3F, a: 0xFF }
}

#[verifier::when_used_as_spec(spec_black)]
pub fn black() -> (c: Rgba)
    ensures
        c == spec_black(),
{
    Rgba { r: 0, g: 0, b: 0, a: 0xFF }
}

#[verifier::when_used_as_spec(spec_transparent)]
pub fn transparent() -> (c: Rgba)
    ensures
        c == spec_transparent(),
{
    Rgba { r: 0, g: 0, b: 0, a: 0 }
}

/// The look of a text field.
#[derive(Clone, Copy, Debug, PartialEq, Eq)]
pub struct FieldStyle {
    pub background: Rgba,
    pub border_radius: u16,
    pub border_width: u16,
    pub border_color: Rgba,
}

/// The look of a box round other widgets.
#[derive(Clone, Copy, Debug, PartialEq, Eq)]
pub struct BoxStyle {
    pub text_color: Option<Rgba>,
    pub background: Option<Rgba>,
    pub border_radius: u16,
    pub border_width: u16,
    pub border_color: Rgba,
}

/// The look of the handle of a scrollbar.
#[derive(Clone, Copy, Debug, PartialEq, Eq)]
pub struct ScrollerStyle {
    pub color: Rgba,
    pub border_radius: u16,
    pub border_width: u16,
    pub border_color: Rgba,
}

/// The look of a scrollbar.
#[derive(Clone, Copy, Debug, PartialEq, Eq)]
pub struct ScrollbarStyle {
    pub background: Option<Rgba>,
    pub border_radius: u16,
    pub border_width: u16,
    pub border_color: Rgba,
    pub scroller: ScrollerStyle,
}

/// A box with the given background and text colour and no border.
pub open spec fn plain_box(background: Rgba, text: Rgba) -> BoxStyle {
    BoxStyle {
        text_color: Some(text),
        background: Some(background),
        border_radius: 0,
        border_width: 0,
        border_color: spec_transparent(),
    }
}

pub open spec fn spec_field_style() -> FieldStyle {
    FieldStyle {
        background: spec_dark_purple(),
        border_radius: 0,
        border_width: 1,
        border_color: spec_dark_purple(),
    }
}

pub open spec fn spec_scrollbar_style() -> ScrollbarStyle {
    ScrollbarStyle {
        background: Some(spec_transparent()),
        border_radius: 0,
        border_width: 0,
        border_color: spec_transparent(),
        scroller: ScrollerStyle {
            color: spec_selection_color(),
            border_radius: 5,
            border_width: 1,
            border_color: spec_dark_purple(),
        },
    }
}

/// The text field: dark, with a border of the same colour in every state.
pub struct TextInput;

impl TextInput {
    pub fn active(&self) -> (r: FieldStyle)
        ensures
            r == spec_field_style(),
    {
        FieldStyle {
            background: dark_purple(),
            border_radius: 0,
            border_width: 1,
            border_color: dark_purple(),
        }
    }

    pub fn value_color(&self) -> (r: Rgba)
        ensures
            r == spec_text_color(),
    {
        text_color()
    }

    pub fn placeholder_color(&self) -> (r: Rgba)
        ensures
            r == spec_untext_color(),
    {
        untext_color()
    }

    /// The active look with its border set again.
    pub fn focused(&self) -> (r: FieldStyle)
        ensures
            r == spec_field_style(),
    {
        FieldStyle { border_width: 1, border_color: dark_purple(), ..self.active() }
    }

    pub fn hovered(&self) -> (r: FieldStyle)
        ensures
            r == spec_field_style(),
    {
        self.focused()
    }

    pub fn selection_color(&self) -> (r: Rgba)
        ensures
            r == spec_selection_color(),
    {
        selection_color()
    }
}

/// The window and the rows that are not selected.
pub struct Container;

impl Container {
    pub fn style(&self) -> (r: BoxStyle)
        ensures
            r == plain_box(spec_dark_purple(), spec_black()),
    {
        BoxStyle {
            text_color: Some(black()),
            background: Some(dark_purple()),
            border_radius: 0,
            border_width: 0,
            border_color: transparent(),
        }
    }
}

/// The scrollbar of the list: no track, a rounded scroller.
pub struct Scrollable;

impl Scrollable {
    pub fn active(&self) -> (r: ScrollbarStyle)
        ensures
            r == spec_scrollbar_style(),
    {
        ScrollbarStyle {
            background: Some(transparent()),
            border_radius: 0,
            border_width: 0,
            border_color: transparent(),
            scroller: ScrollerStyle {
                color: selection_color(),
                border_radius: 5,
                border_width: 1,
                border_color: dark_purple(),
            },
        }
    }

    pub fn hovered(&self) -> (r: ScrollbarStyle)
        ensures
            r == spec_scrollbar_style(),
    {
        self.active()
    }

    pub fn dragging(&self) -> (r: ScrollbarStyle)
        ensures
            r == spec_scrollbar_style(),
    {
        self.active()
    }
}

} // verus!
