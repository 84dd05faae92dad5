use vstd::prelude::*;
use ratatui::widgets::{ListState, TableState};

verus! {

/// The selected index after `select_next` on a list whose selection was `selected`.
pub open spec fn next_index(selected: Option<usize>) -> usize {
    match selected {
        Some(i) => if i == usize::MAX { i } else { (i + 1) as usize },
        None => 0,
    }
}

/// The selected index after `select_previous` on a list whose selection was `selected`.
pub open spec fn previous_index(selected: Option<usize>) -> usize {
    match selected {
        Some(i) => if i == 0 { 0 } else { (i - 1) as usize },
        None => usize::MAX,
    }
}

/// ratatui's `ListState::select`: sets the selection, and scrolls back to the top when nothing
/// is selected.
#[verifier::external_body]
fn list_select(selected: Option<usize>, offset: usize, index: Option<usize>) -> (r: (Option<usize>, usize))
    ensures
        r.0 == index,
        r.1 == (if index is None { 0 } else { offset }),
{
    let mut s = ListState::default().with_selected(selected).with_offset(offset);
    s.select(index);
    (s.selected(), s.offset())
}

/// ratatui's `ListState::select_next`: the next index, saturating, or the first when nothing is
/// selected; the offset stays.
#[verifier::external_body]
fn list_select_next(selected: Option<usize>, offset: usize) -> (r: (Option<usize>, usize))
    ensures
        r.0 == Some(next_index(selected)),
        r.1 == offset,
{
    let mut s = ListState::default().with_selected(selected).with_offset(offset);
    s.select_next();
    (s.selected(), s.offset())
}

/// ratatui's `ListState::select_previous`: the previous index, saturating at zero, or
/// `usize::MAX` (the last item once rendered) when nothing is selected; the offset stays.
#[verifier::external_body]
fn list_select_previous(selected: Option<usize>, offset: usize) -> (r: (Option<usize>, usize))
    ensures
        r.0 == Some(previous_index(selected)),
        r.1 == offset,
{
    let mut s = ListState::default().with_selected(selected).with_offset(offset);
    s.select_previous();
    (s.selected(), s.offset())
}

/// ratatui's `ListState::select_first`: selects index 0; the offset stays.
#[verifier::external_body]
fn list_select_first(selected: Option<usize>, offset: usize) -> (r: (Option<usize>, usize))
    ensures
        r.0 == Some(0usize),
        r.1 == offset,
{
    let mut s = ListState::default().with_selected(selected).with_offset(offset);
    s.select_first();
    (s.selected(), s.offset())
}

/// ratatui's `ListState::select_last`: selects `usize::MAX`, which rendering turns into the last
/// item; the offset stays.
#[verifier::external_body]
fn list_select_last(selected: Option<usize>, offset: usize) -> (r: (Option<usize>, usize))
    ensures
        r.0 == Some(usize::MAX),
        r.1 == offset,
{
    let mut s = ListState::default().with_selected(selected).with_offset(offset);
    s.select_last();
    (s.selected(), s.offset())
}

/// ratatui's `TableState::select`: sets the selected row, and scrolls back to the top when no
/// row is selected.
#[verifier::external_body]
fn table_select(selected: Option<usize>, offset: usize, index: Option<usize>) -> (r: (Option<usize>, usize))
    ensures
        r.0 == index,
        r.1 == (if index is None { 0 } else { offset }),
{
    let mut s = TableState::default().with_selected(selected).with_offset(offset);
    s.select(index);
    (s.selected(), s.offset())
}

/// The selection of a list or a table: the selected index, if any, and the index of the first
/// row shown.  Rendering may move both; the application stores what rendering left back here.
#[derive(Clone, Copy, Debug, PartialEq, Eq, Structural)]
pub struct SelectionState {
    pub selected: Option<usize>,
    pub offset: usize,
}

impl SelectionState {
    /// The state after selecting `index`: nothing selected also scrolls back to the top.
    pub open spec fn spec_select(self, index: Option<usize>) -> SelectionState {
        SelectionState { selected: index, offset: if index is None { 0 } else { self.offset } }
    }

    /// The state after moving the selection one down.
    pub open spec fn spec_select_next(self) -> SelectionState {
        SelectionState { selected: Some(next_index(self.selected)), offset: self.offset }
    }

    /// The state after moving the selection one up.
    pub open spec fn spec_select_previous(self) -> SelectionState {
        SelectionState { selected: Some(previous_index(self.selected)), offset: self.offset }
    }

    /// The state after selecting the first item.
    pub open spec fn spec_select_first(self) -> SelectionState {
        SelectionState { selected: Some(0), offset: self.offset }
    }

    /// The state after selecting the last item (`usize::MAX` until rendered).
    pub open spec fn spec_select_last(self) -> SelectionState {
        SelectionState { selected: Some(usize::MAX), offset: self.offset }
    }

    /// Nothing selected, scrolled to the top (ratatui's default state).
    pub open spec fn spec_new() -> SelectionState {
        SelectionState { selected: None, offset: 0 }
    }

    /// Nothing selected, scrolled to the top.
    pub fn new() -> (s: SelectionState)
        ensures
            s == SelectionState::spec_new(),
    {
        SelectionState { selected: None, offset: 0 }
    }

    /// Scrolled to the top, with `selected` selected.
    pub open spec fn with_selected_spec(selected: Option<usize>) -> SelectionState {
        SelectionState { selected, offset: 0 }
    }

    /// Scrolled to the top, with `selected` selected.
    pub fn with_selected(selected: Option<usize>) -> (s: SelectionState)
        ensures
            s == SelectionState::with_selected_spec(selected),
    {
        SelectionState { selected, offset: 0 }
    }

    /// Selects `index` in a list.
    pub fn select(&mut self, index: Option<usize>)
        ensures
            *final(self) == old(self).spec_select(index),
    {
        let (s, o) = list_select(self.selected, self.offset, index);
        self.selected = s;
        self.offset = o;
    }

    /// Moves a list's selection one down.
    pub fn select_next(&mut self)
        ensures
            *final(self) == old(self).spec_select_next(),
    {
        let (s, o) = list_select_next(self.selected, self.offset);
        self.selected = s;
        self.offset = o;
    }

    /// Moves a list's selection one up.
    pub fn select_previous(&mut self)
        ensures
            *final(self) == old(self).spec_select_previous(),
    {
        let (s, o) = list_select_previous(self.selected, self.offset);
        self.selected = s;
        self.offset = o;
    }

    /// Selects a list's first item.
    pub fn select_first(&mut self)
        ensures
            *final(self) == old(self).spec_select_first(),
    {
        let (s, o) = list_select_first(self.selected, self.offset);
        self.selected = s;
        self.offset = o;
    }

    /// Selects a list's last item (`usize::MAX` until rendering clamps it).
    pub fn select_last(&mut self)
        ensures
            *final(self) == old(self).spec_select_last(),
    {
        let (s, o) = list_select_last(self.selected, self.offset);
        self.selected = s;
        self.offset = o;
    }

    /// Selects `index` in a table.
    pub fn select_row(&mut self, index: Option<usize>)
        ensures
            *final(self) == old(self).spec_select(index),
    {
        let (s, o) = table_select(self.selected, self.offset, index);
        self.selected = s;
        self.offset = o;
    }
}

/// Moving a list's selection down and then up comes back to the same item, unless the
/// selection was already at the saturating end.
pub proof fn lemma_next_then_previous(s: SelectionState, i: usize)
    requires
        s.selected == Some(i),
        i < usize::MAX,
    ensures
        s.spec_select_next().spec_select_previous() == s,
{
}

} // verus!
