use vstd::prelude::*;
use vstd::string::*;
use crate::action::Action;
use crate::components::views::ViewComponent;
use crate::input::{KeyCode, KeyEvent, Rect};
use crate::layout::{Constraint, layout_areas, bordered_inner, block_bordered_inner, split2};
use crate::widgets::switch::{Switch, SwitchState};

verus! {

/// The locale view: a single switch.
pub struct LocaleView {
    pub title: String,
    pub switch_focus: SwitchState,
}

impl LocaleView {
    /// The view after the key `code`, and what it answers: Up turns the switch off, Down turns
    /// it on, Backspace goes back to the menu; every other key changes nothing.
    pub open spec fn after_key(self, code: KeyCode) -> (LocaleView, Option<Action>) {
        match code {
            KeyCode::Up => (LocaleView { switch_focus: SwitchState::Off, ..self }, None),
            KeyCode::Down => (LocaleView { switch_focus: SwitchState::On, ..self }, None),
            KeyCode::Backspace => (self, Some(Action::BackToMenu)),
            _ => (self, None),
        }
    }

    /// The view titled "locale", its switch off.
    pub fn init() -> (v: LocaleView)
        ensures
            v.title@ == "locale"@,
            v.switch_focus == SwitchState::Off,
    {
        LocaleView { title: String::from_str("locale"), switch_focus: SwitchState::Off }
    }

    /// Where the switch goes in `area`, and the inside of its border: the first fifteen cells
    /// of the first three lines.
    pub fn layout(area: Rect) -> (r: (Rect, Rect))
        ensures
            ({
                let rows = layout_areas(area, true, seq![Constraint::Length(3), Constraint::Min(0)]);
                let cols = layout_areas(rows[0], false, seq![Constraint::Length(15), Constraint::Min(0)]);
                &&& r.0 == cols[0]
                &&& r.1 == bordered_inner(cols[0])
            }),
    {
        let (top, _) = split2(area, true, Constraint::Length(3), Constraint::Min(0));
        let (switch_area, _) = split2(top, false, Constraint::Length(15), Constraint::Min(0));
        (switch_area, block_bordered_inner(switch_area))
    }

    /// The switch the view draws: in the view's state, labelled "ON" and "OFF".
    pub fn switch(&self) -> (s: Switch)
        ensures
            s.state == self.switch_focus,
            s.on_label@ == "ON"@,
            s.off_label@ == "OFF"@,
            !s.is_focused,
            !s.is_hovered,
            !s.is_disabled,
    {
        Switch::new(self.switch_focus).labels("ON", "OFF")
    }
}

impl ViewComponent for LocaleView {
    open spec fn key_ready(&self, key: KeyEvent) -> bool {
        true
    }

    open spec fn action_ready(&self, action: Action) -> bool {
        true
    }

    fn title(&self) -> (t: &str)
        ensures
            t@ == self.title@,
    {
        self.title.as_str()
    }

    fn handle_key_events(&mut self, key: KeyEvent) -> (r: Option<Action>)
        ensures
            (*final(self), r) == old(self).after_key(key.code),
    {
        match key.code {
            KeyCode::Up => self.switch_focus = SwitchState::Off,
            KeyCode::Down => self.switch_focus = SwitchState::On,
            KeyCode::Backspace => return Some(Action::BackToMenu),
            _ => {},
        }
        None
    }
}

} // verus!
