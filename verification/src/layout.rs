use vstd::prelude::*;
use crate::input::Rect;
use ratatui::layout::{Constraint as C, Direction, Layout, Margin, Rect as R};
use ratatui::widgets::{Block, Padding};

verus! {

/// How much room a part of a layout asks for.
#[derive(Clone, Copy, Debug, PartialEq, Eq, Structural)]
pub enum Constraint {
    Length(u16),
    Min(u16),
    Max(u16),
    Fill(u16),
}

/// The areas into which ratatui's layout solver splits `area` (top to bottom when
/// `vertical`, else left to right) under `constraints`.
pub uninterp spec fn layout_areas(area: Rect, vertical: bool, constraints: Seq<Constraint>) -> Seq<Rect>;

/// ratatui's `Layout::split` with the given direction and constraints (no margin, no
/// spacing): one area per constraint, the areas named `layout_areas`.  How the solver shares
/// out the room is ratatui's, which no clause here repeats.
#[verifier::external_body]
pub(crate) fn split(area: Rect, vertical: bool, constraints: &Vec<Constraint>) -> (r: Vec<Rect>)
    ensures
        r@ == layout_areas(area, vertical, constraints@),
        r@.len() == constraints@.len(),
{
    let direction = if vertical { Direction::Vertical } else { Direction::Horizontal };
    let cs = constraints.iter().map(|c| match *c {
        Constraint::Length(n) => C::Length(n),
        Constraint::Min(n) => C::Min(n),
        Constraint::Max(n) => C::Max(n),
        Constraint::Fill(n) => C::Fill(n),
    });
    let rect = R { x: area.x, y: area.y, width: area.width, height: area.height };
    let parts = Layout::default().direction(direction).constraints(cs).split(rect);
    parts.iter().map(|p| Rect { x: p.x, y: p.y, width: p.width, height: p.height }).collect()
}

/// `a + b`, capped at `u16::MAX`.
pub open spec fn sat_add(a: int, b: int) -> int {
    if a + b <= u16::MAX { a + b } else { u16::MAX as int }
}

/// `a - b`, or zero when `b` is larger.
pub open spec fn sat_sub(a: int, b: int) -> int {
    if a >= b { a - b } else { 0 }
}

/// The smaller of `a` and `b`.
pub open spec fn min(a: int, b: int) -> int {
    if a <= b { a } else { b }
}

/// The area inside a border on all four sides.
pub open spec fn bordered_inner(area: Rect) -> Rect {
    Rect {
        x: min(sat_add(area.x as int, 1), sat_add(area.x as int, area.width as int)) as u16,
        y: min(sat_add(area.y as int, 1), sat_add(area.y as int, area.height as int)) as u16,
        width: sat_sub(area.width as int, 2) as u16,
        height: sat_sub(area.height as int, 2) as u16,
    }
}

/// The area inside `left_right` cells of padding on the left and on the right.
pub open spec fn padded_inner(area: Rect, left_right: u16) -> Rect {
    Rect {
        x: sat_add(area.x as int, left_right as int) as u16,
        y: area.y,
        width: sat_sub(area.width as int, 2 * left_right) as u16,
        height: area.height,
    }
}

/// The area inside a margin of `horizontal` cells left and right and `vertical` cells above
/// and below; nothing when the margins do not fit.
pub open spec fn margin_inner(area: Rect, horizontal: u16, vertical: u16) -> Rect {
    let dh = min(2 * horizontal, u16::MAX as int);
    let dv = min(2 * vertical, u16::MAX as int);
    if area.width < dh || area.height < dv {
        Rect { x: 0, y: 0, width: 0, height: 0 }
    } else {
        Rect {
            x: sat_add(area.x as int, horizontal as int) as u16,
            y: sat_add(area.y as int, vertical as int) as u16,
            width: (area.width - dh) as u16,
            height: (area.height - dv) as u16,
        }
    }
}

/// ratatui's `Block::inner` for a block bordered on all sides: one cell less on each side,
/// never past the area's edges.
#[verifier::external_body]
pub(crate) fn block_bordered_inner(area: Rect) -> (r: Rect)
    ensures
        r == bordered_inner(area),
{
    let i = Block::bordered().inner(R { x: area.x, y: area.y, width: area.width, height: area.height });
    Rect { x: i.x, y: i.y, width: i.width, height: i.height }
}

/// ratatui's `Block::inner` for a borderless block padded by `left_right` cells on the left
/// and on the right.
#[verifier::external_body]
pub(crate) fn block_padded_inner(area: Rect, left_right: u16) -> (r: Rect)
    requires
        2 * left_right <= u16::MAX,
    ensures
        r == padded_inner(area, left_right),
{
    let block = Block::new().padding(Padding::horizontal(left_right));
    let i = block.inner(R { x: area.x, y: area.y, width: area.width, height: area.height });
    Rect { x: i.x, y: i.y, width: i.width, height: i.height }
}

/// ratatui's `Rect::inner` with a margin: the area shrunk by the margin on each side, or the
/// empty area at the origin when the margin does not fit.
#[verifier::external_body]
pub(crate) fn rect_margin_inner(area: Rect, horizontal: u16, vertical: u16) -> (r: Rect)
    ensures
        r == margin_inner(area, horizontal, vertical),
{
    let rect = R { x: area.x, y: area.y, width: area.width, height: area.height };
    let i = rect.inner(Margin { horizontal, vertical });
    Rect { x: i.x, y: i.y, width: i.width, height: i.height }
}

/// The two areas of a split into `a` and `b`.
pub fn split2(area: Rect, vertical: bool, a: Constraint, b: Constraint) -> (r: (Rect, Rect))
    ensures
        r.0 == layout_areas(area, vertical, seq![a, b])[0],
        r.1 == layout_areas(area, vertical, seq![a, b])[1],
{
    let mut cs: Vec<Constraint> = Vec::new();
    cs.push(a);
    cs.push(b);
    assert(cs@ =~= seq![a, b]);
    let parts = split(area, vertical, &cs);
    (parts[0], parts[1])
}

/// The three areas of a split into `a`, `b` and `c`.
pub fn split3(area: Rect, vertical: bool, a: Constraint, b: Constraint, c: Constraint) -> (r: (Rect, Rect, Rect))
    ensures
        r.0 == layout_areas(area, vertical, seq![a, b, c])[0],
        r.1 == layout_areas(area, vertical, seq![a, b, c])[1],
        r.2 == layout_areas(area, vertical, seq![a, b, c])[2],
{
    let mut cs: Vec<Constraint> = Vec::new();
    cs.push(a);
    cs.push(b);
    cs.push(c);
    assert(cs@ =~= seq![a, b, c]);
    let parts = split(area, vertical, &cs);
    (parts[0], parts[1], parts[2])
}

} // verus!
