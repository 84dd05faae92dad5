use vstd::prelude::*;
use vstd::string::*;
use crate::input::Rect;
use crate::text::{label_width, line_width, concat3};

verus! {

/// How a button is drawn.
#[derive(Clone, Copy, Debug, PartialEq, Eq, Structural)]
pub enum ButtonState {
    Normal,
    Selected,
    Active,
}

/// `a - b`, or zero when `b` is larger (`u16::saturating_sub`).
pub open spec fn sat_sub(a: int, b: int) -> int {
    if a >= b { a - b } else { 0 }
}

/// A bracketed label, `[label]`, centred in its area.
#[derive(Clone, Debug)]
pub struct TextButtonWidget {
    pub label: String,
    pub state: ButtonState,
}

/// A label framed by a border.
#[derive(Clone, Debug)]
pub struct ButtonWidget {
    pub label: String,
    pub state: ButtonState,
}

/// Where and how a text button is written: the text starts at `(x, y)`, takes at most
/// `max_width` columns, and is drawn highlighted when `highlighted`.
#[derive(Clone, Debug)]
pub struct TextButtonPlacement {
    pub x: u16,
    pub y: u16,
    pub text: String,
    pub max_width: u16,
    pub highlighted: bool,
}

/// The column at which a label `width` columns wide starts when centred in `area`.
pub open spec fn centred_x(area: Rect, width: int) -> int {
    area.x + sat_sub(area.width as int, (width as u16) as int) / 2
}

/// The row on which a one-line label centred in `area` stands.
pub open spec fn centred_y(area: Rect) -> int {
    area.y + sat_sub(area.height as int, 1) / 2
}

impl TextButtonWidget {
    /// A button labelled `label`, in the normal state.
    pub fn new(label: &str) -> (b: TextButtonWidget)
        ensures
            b.label@ == label@,
            b.state == ButtonState::Normal,
    {
        TextButtonWidget { label: String::from_str(label), state: ButtonState::Normal }
    }

    /// The same button in state `state`.
    pub fn state(self, state: ButtonState) -> (b: TextButtonWidget)
        ensures
            b.label == self.label,
            b.state == state,
    {
        TextButtonWidget { label: self.label, state }
    }

    /// Where the button's text goes in `area`: the label measured in display columns is
    /// centred horizontally (with the width cut to 16 bits) and vertically, the text is the
    /// label in square brackets, clipped to the area's width, and it is highlighted exactly
    /// when the button is selected.
    pub fn placement(&self, area: Rect) -> (p: TextButtonPlacement)
        requires
            area.wf(),
        ensures
            p.x == centred_x(area, line_width(self.label@) as int),
            p.y == centred_y(area),
            p.text@ == seq!['['] + self.label@ + seq![']'],
            p.max_width == area.width,
            p.highlighted == (self.state == ButtonState::Selected),
    {
        let w = label_width(self.label.as_str());
        let w16 = w as u16;
        let free_x = if area.width >= w16 { area.width - w16 } else { 0 };
        let free_y = if area.height >= 1 { area.height - 1 } else { 0 };
        let text = concat3("[", self.label.as_str(), "]");
        proof {
            assert((w as int) as u16 == w as u16);
            reveal_strlit("[");
            reveal_strlit("]");
            assert(text@ =~= seq!['['] + self.label@ + seq![']']);
        }
        TextButtonPlacement {
            x: area.x + free_x / 2,
            y: area.y + free_y / 2,
            text,
            max_width: area.width,
            highlighted: self.state == ButtonState::Selected,
        }
    }
}

impl ButtonWidget {
    /// A button labelled `label`, in the normal state.
    pub fn new(label: &str) -> (b: ButtonWidget)
        ensures
            b.label@ == label@,
            b.state == ButtonState::Normal,
    {
        ButtonWidget { label: String::from_str(label), state: ButtonState::Normal }
    }

    /// The same button in state `state`.
    pub fn state(self, state: ButtonState) -> (b: ButtonWidget)
        ensures
            b.label == self.label,
            b.state == state,
    {
        ButtonWidget { label: self.label, state }
    }

    /// Whether the framed button is drawn highlighted: only a selected button is.
    pub fn highlighted(&self) -> (h: bool)
        ensures
            h == (self.state == ButtonState::Selected),
    {
        match self.state {
            ButtonState::Normal => false,
            ButtonState::Selected => true,
            ButtonState::Active => false,
        }
    }
}

} // verus!
